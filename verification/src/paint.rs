use vstd::prelude::*;

use colored::Colorize;

verus! {

/// The escape character that starts a terminal style sequence.
pub open spec fn escape() -> char {
    '\u{1b}'
}

/// The sequence that switches a terminal to the color with this code.
pub open spec fn style_start(code: Seq<char>) -> Seq<char> {
    seq![escape(), '['] + code + seq!['m']
}

/// The sequence that resets a terminal's style.
pub open spec fn style_reset() -> Seq<char> {
    seq![escape(), '[', '0', 'm']
}

/// `s` holds the reset sequence somewhere.
pub open spec fn holds_reset(s: Seq<char>) -> bool {
    exists|k: int|
        0 <= k && k + style_reset().len() <= s.len() && #[trigger] s.subrange(
            k,
            k + style_reset().len(),
        ) == style_reset()
}

/// A text without escape characters holds no reset sequence.
pub proof fn lemma_no_escape_no_reset(s: Seq<char>)
    requires
        !s.contains(escape()),
    ensures
        !holds_reset(s),
{
    if holds_reset(s) {
        let k = choose|k: int|
            0 <= k && k + style_reset().len() <= s.len() && #[trigger] s.subrange(
                k,
                k + style_reset().len(),
            ) == style_reset();
        assert(s.subrange(k, k + style_reset().len())[0] == escape());
        assert(s[k] == escape());
    }
}

/// The terminal color codes in use.
pub open spec fn red() -> Seq<char> {
    seq!['3', '1']
}

pub open spec fn green() -> Seq<char> {
    seq!['3', '2']
}

pub open spec fn yellow() -> Seq<char> {
    seq!['3', '3']
}

pub open spec fn blue() -> Seq<char> {
    seq!['3', '4']
}

/// `out` is a way to show `s` in the color `code`: as it is when the
/// terminal gets no colors, or wrapped in the color's start and reset
/// sequences when it does. The third form arises only when another thread
/// switches coloring off while `s` is being shown.
pub open spec fn painted(s: Seq<char>, code: Seq<char>, out: Seq<char>) -> bool {
    ||| out == s
    ||| out == style_start(code) + s + style_reset()
    ||| out == s + style_reset()
}

/// `colored::Colorize::red` on `s`, turned into text through its `Display`.
/// Whether colors are used depends on the environment and the terminal, so
/// only the possible forms are stated, and only for a text that holds no
/// reset sequence: `colored` puts the color's start after each one.
#[verifier::external_body]
pub(crate) fn paint_red(s: &str) -> (out: String)
    ensures
        !holds_reset(s@) ==> painted(s@, red(), out@),
{
    s.red().to_string()
}

/// `colored::Colorize::green` on `s`, turned into text through its `Display`.
/// Whether colors are used depends on the environment and the terminal, so
/// only the possible forms are stated, and only for a text that holds no
/// reset sequence: `colored` puts the color's start after each one.
#[verifier::external_body]
pub(crate) fn paint_green(s: &str) -> (out: String)
    ensures
        !holds_reset(s@) ==> painted(s@, green(), out@),
{
    s.green().to_string()
}

/// `colored::Colorize::yellow` on `s`, turned into text through its
/// `Display`. Whether colors are used depends on the environment and the
/// terminal, so only the possible forms are stated, and only for a text
/// that holds no reset sequence: `colored` puts the color's start after
/// each one.
#[verifier::external_body]
pub(crate) fn paint_yellow(s: &str) -> (out: String)
    ensures
        !holds_reset(s@) ==> painted(s@, yellow(), out@),
{
    s.yellow().to_string()
}

/// `colored::Colorize::blue` on `s`, turned into text through its `Display`.
/// Whether colors are used depends on the environment and the terminal, so
/// only the possible forms are stated, and only for a text that holds no
/// reset sequence: `colored` puts the color's start after each one.
#[verifier::external_body]
pub(crate) fn paint_blue(s: &str) -> (out: String)
    ensures
        !holds_reset(s@) ==> painted(s@, blue(), out@),
{
    s.blue().to_string()
}

} // verus!
