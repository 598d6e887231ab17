//! Cyclic color assignment for task labels: task index modulo the palette
//! size picks one of six colors, and the `colored` crate renders the label in
//! it. Whether escape codes are actually emitted is the rendering library's
//! decision (it looks at the terminal and the environment), so the contracts
//! state only what holds of every outcome: a label free of escape characters
//! comes back embedded verbatim in the rendered text.

use vstd::prelude::*;

verus! {

/// How many colors the cyclic palette has.
pub const PALETTE_SIZE: usize = 6;

/// No escape character anywhere: such text cannot collide with the escape
/// sequences the renderer may add around it.
pub open spec fn esc_free(s: Seq<char>) -> bool {
    forall|i: int| 0 <= i < s.len() ==> s[i] != '\u{1b}'
}

/// `needle` occurs contiguously inside `hay`.
pub open spec fn contains_seq(hay: Seq<char>, needle: Seq<char>) -> bool {
    exists|k: int|
        0 <= k && k + needle.len() <= hay.len() && #[trigger] hay.subrange(
            k,
            k + needle.len() as int,
        ) == needle
}

/// Relies on colored's `Colorize::red` and the `ColoredString` rendering:
/// the output is the input verbatim, or the input between a style sequence
/// and a reset; an input without escape characters is never rewritten.
#[verifier::external_body]
fn red_text(s: &str) -> (r: String)
    ensures
        esc_free(s@) ==> contains_seq(r@, s@),
{
    colored::Colorize::red(s).to_string()
}

/// Relies on colored's `Colorize::green`; see `red_text`.
#[verifier::external_body]
fn green_text(s: &str) -> (r: String)
    ensures
        esc_free(s@) ==> contains_seq(r@, s@),
{
    colored::Colorize::green(s).to_string()
}

/// Relies on colored's `Colorize::yellow`; see `red_text`.
#[verifier::external_body]
fn yellow_text(s: &str) -> (r: String)
    ensures
        esc_free(s@) ==> contains_seq(r@, s@),
{
    colored::Colorize::yellow(s).to_string()
}

/// Relies on colored's `Colorize::blue`; see `red_text`.
#[verifier::external_body]
fn blue_text(s: &str) -> (r: String)
    ensures
        esc_free(s@) ==> contains_seq(r@, s@),
{
    colored::Colorize::blue(s).to_string()
}

/// Relies on colored's `Colorize::magenta`; see `red_text`.
#[verifier::external_body]
fn magenta_text(s: &str) -> (r: String)
    ensures
        esc_free(s@) ==> contains_seq(r@, s@),
{
    colored::Colorize::magenta(s).to_string()
}

/// Relies on colored's `Colorize::cyan`; see `red_text`.
#[verifier::external_body]
fn cyan_text(s: &str) -> (r: String)
    ensures
        esc_free(s@) ==> contains_seq(r@, s@),
{
    colored::Colorize::cyan(s).to_string()
}

/// Render a label in the color its task's index selects from the cyclic
/// palette. The label text survives the rendering verbatim whenever it holds
/// no escape character.
pub fn colorize(s: &str, i: usize) -> (r: String)
    ensures
        esc_free(s@) ==> contains_seq(r@, s@),
{
    let i: usize = i % PALETTE_SIZE;
    match i {
        0 => red_text(s),
        1 => green_text(s),
        2 => yellow_text(s),
        3 => blue_text(s),
        4 => magenta_text(s),
        _ => cyan_text(s),
    }
}

} // verus!
