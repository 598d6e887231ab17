//! Splitting a raw command string into an optional label and the command
//! text. A string of the shape `[label]:command` carries a label; anything
//! else, a malformed-looking bracket prefix included, is taken verbatim as
//! the command with no label.

use vstd::prelude::*;
use vstd::string::StrSliceExecFns;

verus! {

/// `j` is the position of the first `']'` in `s`.
pub open spec fn close_at(s: Seq<char>, j: int) -> bool {
    &&& 0 <= j < s.len()
    &&& s[j] == ']'
    &&& forall|k: int| 0 <= k < j ==> s[k] != ']'
}

/// A raw command string carries a label exactly when it starts with `'['`
/// and its first `']'` is immediately followed by `':'`.
pub open spec fn has_label(s: Seq<char>) -> bool {
    &&& s.len() > 0
    &&& s[0] == '['
    &&& exists|j: int| close_at(s, j) && j + 1 < s.len() && s[j + 1] == ':'
}

/// The position of the first `']'`, meaningful only when one exists.
pub open spec fn label_end(s: Seq<char>) -> int {
    choose|j: int| close_at(s, j)
}

/// The label of a labeled string: what stands between the brackets. It may
/// be empty.
pub open spec fn spec_label(s: Seq<char>) -> Seq<char> {
    s.subrange(1, label_end(s))
}

/// The command text of a labeled string: what follows `"]:"`.
pub open spec fn spec_command(s: Seq<char>) -> Seq<char> {
    s.subrange(label_end(s) + 2, s.len() as int)
}

/// At most one position is the first `']'`.
proof fn lemma_close_at_unique(s: Seq<char>, i: int, j: int)
    requires
        close_at(s, i),
        close_at(s, j),
    ensures
        i == j,
{
    if i < j {
        assert(s[i] != ']');
    }
    if j < i {
        assert(s[j] != ']');
    }
}

/// Split a raw command string into command text and optional label.
///
/// `"[web]:npm start"` gives `("npm start", Some("web"))`; a string without
/// the bracket prefix, or with a bracket prefix whose first `']'` is not
/// followed by `':'`, comes back whole with no label.
pub fn parse_command<'a>(value: &'a str) -> (r: (&'a str, Option<&'a str>))
    ensures
        has_label(value@) ==> {
            &&& r.1 is Some
            &&& r.1->Some_0@ == spec_label(value@)
            &&& r.0@ == spec_command(value@)
        },
        !has_label(value@) ==> r.1 is None && r.0@ == value@,
{
    let n: usize = value.unicode_len();
    if n == 0 || value.get_char(0) != '[' {
        return (value, None);
    }
    let mut i: usize = 1;
    while i < n
        invariant
            1 <= i <= n,
            n == value@.len(),
            value@[0] == '[',
            forall|k: int| 0 <= k < i ==> value@[k] != ']',
        decreases n - i,
    {
        if value.get_char(i) == ']' {
            proof {
                assert(close_at(value@, i as int));
            }
            if i + 1 < n && value.get_char(i + 1) == ':' {
                proof {
                    assert(has_label(value@));
                    assert(close_at(value@, label_end(value@)));
                    lemma_close_at_unique(value@, i as int, label_end(value@));
                }
                let label = value.substring_char(1, i);
                let command = value.substring_char(i + 2, n);
                return (command, Some(label));
            } else {
                proof {
                    if has_label(value@) {
                        let j = choose|j: int|
                            close_at(value@, j) && j + 1 < value@.len() && value@[j + 1] == ':';
                        lemma_close_at_unique(value@, i as int, j);
                        assert(false);
                    }
                }
                return (value, None);
            }
        }
        i += 1;
    }
    proof {
        if has_label(value@) {
            let j = choose|j: int|
                close_at(value@, j) && j + 1 < value@.len() && value@[j + 1] == ':';
            assert(value@[j] != ']');
        }
    }
    (value, None)
}

} // verus!
