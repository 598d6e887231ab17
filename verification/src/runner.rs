//! The per-task race and its one decision. A running task races four
//! concurrent activities: its child's natural exit, the cancellation signal,
//! and the draining of the child's two output streams. Whichever resolves
//! first ends the race, and the task must then decide whether to forcibly
//! terminate the child: it does so exactly when cancellation won while the
//! process might still be running.

use vstd::prelude::*;
use crate::color::{colorize, contains_seq, esc_free};
use crate::parse::{has_label, parse_command, spec_command, spec_label};

verus! {

/// The first of the four racing activities to resolve.
#[derive(PartialEq, Eq, Structural, Clone, Copy, Debug)]
pub enum RaceEvent {
    /// The child process exited on its own.
    NaturalExit,
    /// The cancellation broadcaster signaled stop.
    Cancelled,
    /// The stdout drain finished (its stream closed).
    StdoutClosed,
    /// The stderr drain finished (its stream closed).
    StderrClosed,
}

/// The kill decision: only a cancellation that wins the race forces
/// termination; a natural exit, or a drained stream, never does.
pub open spec fn spec_should_kill(e: RaceEvent) -> bool {
    e is Cancelled
}

/// Decide, from the race's outcome, whether the child process must be
/// forcibly terminated.
pub fn should_kill(e: &RaceEvent) -> (r: bool)
    ensures
        r == spec_should_kill(*e),
{
    match e {
        RaceEvent::Cancelled => true,
        _ => false,
    }
}

/// One user-supplied command, split once at startup and never mutated: its
/// stable 0-based index (used for color and order selection), its optional
/// label, and the text handed verbatim to the shell.
pub struct CommandSpec {
    pub index: usize,
    pub label: Option<String>,
    pub command_text: String,
}

impl CommandSpec {
    /// The fields are exactly what parsing the raw string gives.
    pub open spec fn parsed_from(self, raw: Seq<char>, index: usize) -> bool {
        &&& self.index == index
        &&& if has_label(raw) {
            &&& self.label is Some
            &&& self.label->Some_0@ == spec_label(raw)
            &&& self.command_text@ == spec_command(raw)
        } else {
            &&& self.label is None
            &&& self.command_text@ == raw
        }
    }

    /// Split one raw command string into the immutable spec of a task.
    pub fn new(raw: &str, index: usize) -> (r: Self)
        ensures
            r.parsed_from(raw@, index),
    {
        let (command, label) = parse_command(raw);
        let label = match label {
            Option::Some(l) => Option::Some(l.to_owned()),
            Option::None => Option::None,
        };
        CommandSpec { index, label, command_text: command.to_owned() }
    }

    /// The output writer's prefix decision: a prefix is rendered exactly when
    /// prefixing is not globally disabled and the command carries a label, in
    /// the color the task's index selects — and the label text itself, if it
    /// holds no escape character, survives the rendering verbatim.
    pub fn render_prefix(&self, no_prefix: bool) -> (r: Option<String>)
        ensures
            r is Some <==> (!no_prefix && self.label is Some),
            r is Some && esc_free(self.label->Some_0@) ==> contains_seq(
                r->Some_0@,
                self.label->Some_0@,
            ),
    {
        if no_prefix {
            return Option::None;
        }
        match &self.label {
            Option::Some(label) => Option::Some(colorize(label.as_str(), self.index)),
            Option::None => Option::None,
        }
    }
}

} // verus!
