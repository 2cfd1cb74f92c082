//! The diagnostic label of a stream, built from its connection name.
use vstd::prelude::*;

verus! {

/// A character of Unicode's White_Space property, which `char::is_whitespace`
/// tests for.
pub open spec fn is_white_space(c: char) -> bool {
    let u = c as u32;
    ||| 0x09 <= u <= 0x0D
    ||| u == 0x20
    ||| u == 0x85
    ||| u == 0xA0
    ||| u == 0x1680
    ||| 0x2000 <= u <= 0x200A
    ||| u == 0x2028
    ||| u == 0x2029
    ||| u == 0x202F
    ||| u == 0x205F
    ||| u == 0x3000
}

/// `s` without its leading white space.
pub open spec fn trim_start_of(s: Seq<char>) -> Seq<char>
    decreases s.len(),
{
    if s.len() > 0 && is_white_space(s[0]) {
        trim_start_of(s.drop_first())
    } else {
        s
    }
}

/// `s` without its trailing white space.
pub open spec fn trim_end_of(s: Seq<char>) -> Seq<char>
    decreases s.len(),
{
    if s.len() > 0 && is_white_space(s.last()) {
        trim_end_of(s.drop_last())
    } else {
        s
    }
}

/// `s` without its leading and trailing white space.
pub open spec fn trim_of(s: Seq<char>) -> Seq<char> {
    trim_end_of(trim_start_of(s))
}

/// Relies on `str::trim`: the result is `s` without leading and trailing
/// characters of the White_Space property.
#[verifier::external_body]
fn trimmed(s: &str) -> (r: &str)
    ensures
        r@ == trim_of(s@),
{
    s.trim()
}

/// The label around a name that is not blank.
pub open spec fn named_label(name: Seq<char>) -> Seq<char> {
    "StubbornIo("@ + name + "): "@
}

/// The label of a stream whose connection name, trimmed, is `trimmed_name`.
pub open spec fn label_of_trimmed(trimmed_name: Seq<char>) -> Seq<char> {
    if trimmed_name.len() == 0 {
        "StubbornIo: "@
    } else {
        named_label(trimmed_name)
    }
}

/// The label for a connection name that has already been trimmed: the bare
/// prefix for a blank name, else the name in brackets.
pub fn label_for_trimmed(trimmed_name: &str) -> (r: String)
    ensures
        r@ == label_of_trimmed(trimmed_name@),
{
    if trimmed_name.is_empty() {
        "StubbornIo: ".to_owned()
    } else {
        let label = "StubbornIo(".to_owned();
        let label = label.concat(trimmed_name);
        label.concat("): ")
    }
}

/// The label of a stream whose connection name is `name`.
pub fn format_name(name: &str) -> (r: String)
    ensures
        r@ == label_of_trimmed(trim_of(name@)),
{
    label_for_trimmed(trimmed(name))
}

} // verus!
