//! The lines that tell the user what is going on.

use vstd::prelude::*;
use vstd::string::*;
use yansi::{Color, Style};

verus! {

/// `text` between the escape sequences that switch a black foreground on a
/// green background on and all styles off again.
pub open spec fn styled(text: Seq<char>) -> Seq<char> {
    "\x1B[42;30m"@ + text + "\x1B[0m"@
}

/// The kind of an artifact as it is shown: with a blank on either side.
pub open spec fn tag(kind: Seq<char>) -> Seq<char> {
    " "@ + kind + " "@
}

/// The line for one artifact: its tag, the name it comes from and, where
/// there is one, the name it goes to.
pub open spec fn line(
    tag: Seq<char>,
    source_name: Seq<char>,
    destination_name: Option<Seq<char>>,
) -> Seq<char> {
    match destination_name {
        Some(destination) => " "@ + tag + " "@ + source_name + " -> "@ + destination,
        None => " "@ + tag + " "@ + source_name,
    }
}

/// The line that opens the phase in which the source of the package called
/// `name` is brought up to date.
pub open spec fn sync_banner(name: Seq<char>) -> Seq<char> {
    " sync "@ + name + ".. "@
}

/// The line that opens the phase in which the package called `name` is
/// built.
pub open spec fn build_banner(name: Seq<char>) -> Seq<char> {
    " build "@ + name + ".. "@
}

/// The line that closes a phase. `elapsed` is the time that the phase took,
/// as it is shown.
pub open spec fn report_line(elapsed: Seq<char>) -> Seq<char> {
    "done! took "@ + elapsed
}

/// Formats `text` as `yansi::Paint` shows it in the style made by
/// `yansi::Style::new(Color::Black).bg(Color::Green)`. Painting can be
/// switched off for the whole process, so two outcomes are possible: the
/// text as it is, or the text between the two escape sequences of
/// [`styled`]. Neither is proved; which one comes is not known here.
#[verifier::external_body]
pub(crate) fn paint(text: &str) -> (r: String)
    ensures
        r@ == text@ || r@ == styled(text@),
{
    format!("{}", Style::new(Color::Black).bg(Color::Green).paint(text))
}

/// Writes the line for one artifact under a tag that is already formatted.
pub fn compose_line(tag: &str, source_name: &str, destination_name: Option<&str>) -> (r: String)
    ensures
        r@ == line(tag@, source_name@, destination_name.deep_view()),
{
    let mut out = String::from_str(" ");
    out.append(tag);
    out.append(" ");
    out.append(source_name);
    match destination_name {
        Some(destination) => {
            out.append(" -> ");
            out.append(destination);
        },
        None => {},
    }
    out
}

/// Writes the line for one artifact of the given kind. The tag is painted
/// where painting is on, and plain where it is off.
pub fn artifact_line(kind: &str, source_name: &str, destination_name: Option<&str>) -> (r: String)
    ensures
        r@ == line(tag(kind@), source_name@, destination_name.deep_view()) || r@ == line(
            styled(tag(kind@)),
            source_name@,
            destination_name.deep_view(),
        ),
{
    let mut plain = String::from_str(" ");
    plain.append(kind);
    plain.append(" ");
    let shown = paint(plain.as_str());
    compose_line(shown.as_str(), source_name, destination_name)
}

/// Writes the line that opens the sync phase of the package called `name`.
pub fn sync_announcement(name: &str) -> (r: String)
    ensures
        r@ == sync_banner(name@),
{
    let mut out = String::from_str(" sync ");
    out.append(name);
    out.append(".. ");
    out
}

/// Writes the line that opens the build phase of the package called `name`.
pub fn build_announcement(name: &str) -> (r: String)
    ensures
        r@ == build_banner(name@),
{
    let mut out = String::from_str(" build ");
    out.append(name);
    out.append(".. ");
    out
}

/// Writes the line that closes a phase which took `elapsed`.
pub fn report(elapsed: &str) -> (r: String)
    ensures
        r@ == report_line(elapsed@),
{
    let mut out = String::from_str("done! took ");
    out.append(elapsed);
    out
}

} // verus!
