//! The output pipeline's pure part: splitting a byte stream into completed
//! lines at newline boundaries, trimming trailing whitespace, and rendering a
//! line with its optional `[label] ` prefix and carriage-return-newline
//! terminator. The asynchronous reads that produce the bytes, and the writes
//! that consume the rendered lines, live outside the library.

use vstd::prelude::*;

verus! {

/// ASCII whitespace: space, and the control characters tab through carriage
/// return.
pub open spec fn is_space(b: u8) -> bool {
    b == 32 || (9 <= b && b <= 13)
}

/// The completed lines and the trailing partial line of a byte stream: every
/// newline ends the line gathered so far (the newline itself is dropped);
/// whatever follows the last newline is still pending.
pub open spec fn split_state(s: Seq<u8>) -> (Seq<Seq<u8>>, Seq<u8>)
    decreases s.len(),
{
    if s.len() == 0 {
        (Seq::empty(), Seq::empty())
    } else {
        let prev = split_state(s.drop_last());
        if s.last() == 10 {
            (prev.0.push(prev.1), Seq::empty())
        } else {
            (prev.0, prev.1.push(s.last()))
        }
    }
}

/// The lines a stream has completed so far, in the order they were produced.
pub open spec fn completed_lines(s: Seq<u8>) -> Seq<Seq<u8>> {
    split_state(s).0
}

/// The bytes of a stream after its last newline, not yet a line.
pub open spec fn pending(s: Seq<u8>) -> Seq<u8> {
    split_state(s).1
}

/// A stream without a newline completes no line and is wholly pending.
pub proof fn lemma_split_no_newline(s: Seq<u8>)
    requires
        forall|i: int| 0 <= i < s.len() ==> s[i] != 10,
    ensures
        completed_lines(s) == Seq::<Seq<u8>>::empty(),
        pending(s) == s,
    decreases s.len(),
{
    if s.len() > 0 {
        lemma_split_no_newline(s.drop_last());
        assert(s.drop_last().push(s.last()) =~= s);
    }
}

/// How one more byte moves the split state: a newline completes the pending
/// line, any other byte extends it.
pub proof fn lemma_split_push(s: Seq<u8>, b: u8)
    ensures
        b == 10 ==> split_state(s.push(b)) == (
            completed_lines(s).push(pending(s)),
            Seq::<u8>::empty(),
        ),
        b != 10 ==> split_state(s.push(b)) == (completed_lines(s), pending(s).push(b)),
{
    assert(s.push(b).drop_last() =~= s);
}

/// Gathers the bytes of one output stream and hands each completed line out
/// exactly once, in the order the stream produced it.
pub struct LineBuffer {
    buf: Vec<u8>,
}

impl View for LineBuffer {
    type V = Seq<u8>;

    /// The pending bytes: what has arrived since the last newline.
    closed spec fn view(&self) -> Seq<u8> {
        self.buf@
    }
}

impl LineBuffer {
    /// The pending bytes never contain a newline.
    pub open spec fn wf(self) -> bool {
        forall|i: int| 0 <= i < self@.len() ==> self@[i] != 10
    }

    pub fn new() -> (r: Self)
        ensures
            r.wf(),
            r@ == Seq::<u8>::empty(),
    {
        LineBuffer { buf: Vec::new() }
    }

    /// Feed one chunk of raw bytes; the completed lines come back in order,
    /// newline-free, and the tail of the chunk stays pending.
    pub fn feed(&mut self, chunk: &[u8]) -> (lines: Vec<Vec<u8>>)
        requires
            old(self).wf(),
        ensures
            final(self).wf(),
            lines@.map_values(|l: Vec<u8>| l@) == completed_lines(old(self)@ + chunk@),
            final(self)@ == pending(old(self)@ + chunk@),
    {
        let ghost orig: Seq<u8> = self@;
        proof {
            lemma_split_no_newline(orig);
        }
        let mut lines: Vec<Vec<u8>> = Vec::new();
        let mut i: usize = 0;
        while i < chunk.len()
            invariant
                i <= chunk@.len(),
                self.wf(),
                lines@.map_values(|l: Vec<u8>| l@) == completed_lines(
                    orig + chunk@.subrange(0, i as int),
                ),
                self@ == pending(orig + chunk@.subrange(0, i as int)),
            decreases chunk@.len() - i,
        {
            let ghost seen: Seq<u8> = orig + chunk@.subrange(0, i as int);
            let b: u8 = *vstd::slice::slice_index_get(chunk, i);
            proof {
                lemma_split_push(seen, b);
                assert(seen.push(b) =~= orig + chunk@.subrange(0, i as int + 1));
            }
            if b == 10 {
                let mut done: Vec<u8> = Vec::new();
                core::mem::swap(&mut done, &mut self.buf);
                let ghost old_map: Seq<Seq<u8>> = lines@.map_values(|l: Vec<u8>| l@);
                lines.push(done);
                proof {
                    assert(lines@.map_values(|l: Vec<u8>| l@) =~= old_map.push(done@));
                }
            } else {
                self.buf.push(b);
            }
            i += 1;
        }
        proof {
            assert(chunk@.subrange(0, chunk@.len() as int) =~= chunk@);
        }
        lines
    }

    /// Hand out the pending tail when the stream ends without a final
    /// newline: the unterminated last line, emptying the buffer.
    pub fn finish(&mut self) -> (r: Vec<u8>)
        ensures
            r@ == old(self)@,
            final(self)@ == Seq::<u8>::empty(),
            final(self).wf(),
    {
        let mut done: Vec<u8> = Vec::new();
        core::mem::swap(&mut done, &mut self.buf);
        done
    }
}

/// What a stream leaves pending never contains a newline.
pub proof fn lemma_pending_no_newline(s: Seq<u8>)
    ensures
        forall|i: int| 0 <= i < pending(s).len() ==> pending(s)[i] != 10,
    decreases s.len(),
{
    if s.len() > 0 {
        lemma_pending_no_newline(s.drop_last());
        if s.last() == 10 {
            assert(pending(s) == Seq::<u8>::empty());
        } else {
            assert(pending(s) == pending(s.drop_last()).push(s.last()));
            assert(forall|i: int|
                0 <= i < pending(s).len() - 1 ==> pending(s)[i] == pending(s.drop_last())[i]);
        }
    }
}

/// Feeding a stream in two chunks emits the same completed lines, each
/// exactly once and in the same order, as feeding it whole: the lines the
/// first chunk completed, then those the rest completes starting from the
/// first chunk's pending tail.
pub proof fn lemma_split_incremental(s: Seq<u8>, t: Seq<u8>)
    ensures
        completed_lines(s + t) == completed_lines(s) + completed_lines(pending(s) + t),
        pending(s + t) == pending(pending(s) + t),
    decreases t.len(),
{
    if t.len() == 0 {
        lemma_pending_no_newline(s);
        lemma_split_no_newline(pending(s));
        assert(s + t =~= s);
        assert(pending(s) + t =~= pending(s));
        assert(completed_lines(s) + completed_lines(pending(s)) =~= completed_lines(s));
    } else {
        let t0 = t.drop_last();
        let b = t.last();
        lemma_split_incremental(s, t0);
        assert((s + t0).push(b) =~= s + t);
        assert((pending(s) + t0).push(b) =~= pending(s) + t);
        lemma_split_push(s + t0, b);
        lemma_split_push(pending(s) + t0, b);
        if b == 10 {
            assert((completed_lines(s) + completed_lines(pending(s) + t0)).push(
                pending(pending(s) + t0),
            ) =~= completed_lines(s) + completed_lines(pending(s) + t0).push(
                pending(pending(s) + t0),
            ));
        }
    }
}

/// A line with its trailing whitespace removed.
pub open spec fn trim_end_spec(s: Seq<u8>) -> Seq<u8>
    decreases s.len(),
{
    if s.len() > 0 && is_space(s.last()) {
        trim_end_spec(s.drop_last())
    } else {
        s
    }
}

/// Whether a byte is ASCII whitespace.
pub fn is_space_byte(b: u8) -> (r: bool)
    ensures
        r == is_space(b),
{
    b == 32 || (9 <= b && b <= 13)
}

/// Drop trailing whitespace from one line.
pub fn trim_trailing(line: &[u8]) -> (r: Vec<u8>)
    ensures
        r@ == trim_end_spec(line@),
{
    let mut end: usize = line.len();
    proof {
        assert(line@.subrange(0, end as int) =~= line@);
    }
    while end > 0 && is_space_byte(*vstd::slice::slice_index_get(line, end - 1))
        invariant
            end <= line@.len(),
            trim_end_spec(line@) == trim_end_spec(line@.subrange(0, end as int)),
        decreases end,
    {
        proof {
            assert(line@.subrange(0, end as int).drop_last() =~= line@.subrange(0, end - 1));
        }
        end = end - 1;
    }
    proof {
        if end == line@.len() {
            assert(line@.subrange(0, end as int) =~= line@);
        }
        assert(trim_end_spec(line@.subrange(0, end as int)) == line@.subrange(0, end as int));
    }
    vstd::slice::slice_to_vec(vstd::slice::slice_subrange(line, 0, end))
}

/// The view of an optional prefix.
pub open spec fn opt_bytes(p: Option<&Vec<u8>>) -> Option<Seq<u8>> {
    match p {
        Option::Some(v) => Option::Some(v@),
        Option::None => Option::None,
    }
}

/// The rendered form of one line: the trimmed line between `[prefix] ` and
/// the carriage-return-newline terminator, or unprefixed when no label is
/// rendered.
pub open spec fn spec_format_line(prefix: Option<Seq<u8>>, line: Seq<u8>) -> Seq<u8> {
    match prefix {
        Option::Some(p) => seq![91u8] + p + seq![93u8, 32u8] + trim_end_spec(line) + seq![
            13u8,
            10u8,
        ],
        Option::None => trim_end_spec(line) + seq![13u8, 10u8],
    }
}

/// Render one line for the shared output.
pub fn format_line(prefix: Option<&Vec<u8>>, line: &[u8]) -> (r: Vec<u8>)
    ensures
        r@ == spec_format_line(opt_bytes(prefix), line@),
{
    let trimmed = trim_trailing(line);
    let mut out: Vec<u8> = Vec::new();
    match prefix {
        Option::Some(p) => {
            out.push(91);
            out.extend_from_slice(p.as_slice());
            out.push(93);
            out.push(32);
            out.extend_from_slice(trimmed.as_slice());
            out.push(13);
            out.push(10);
            proof {
                assert(out@ =~= spec_format_line(opt_bytes(prefix), line@));
            }
        },
        Option::None => {
            out.extend_from_slice(trimmed.as_slice());
            out.push(13);
            out.push(10);
            proof {
                assert(out@ =~= spec_format_line(opt_bytes(prefix), line@));
            }
        },
    }
    out
}

} // verus!
