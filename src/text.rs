use vstd::prelude::*;

verus! {

/// Declares serde_json's tree of a parsed document; it is carried through
/// opaquely.
#[verifier::external_type_specification]
#[verifier::external_body]
pub struct ExJsonValue(serde_json::Value);

/// Declares serde_json's error type.
#[verifier::external_type_specification]
#[verifier::external_body]
pub struct ExJsonError(serde_json::Error);

/// The tree that serde_json parses from a text, or `None` where the text is
/// not valid JSON.
pub uninterp spec fn json_tree(text: Seq<char>) -> Option<serde_json::Value>;

/// The text that serde_json's pretty printer gives for a tree, or `None`
/// where it reports an error.
pub uninterp spec fn pretty_json(v: serde_json::Value) -> Option<Seq<char>>;

/// A text with leading and trailing Unicode white space removed.
pub uninterp spec fn trimmed(s: Seq<char>) -> Seq<char>;

/// Relies on `serde_json::from_str::<serde_json::Value>`: whether a text
/// parses, and the tree it parses to, depend on the text alone.
#[verifier::external_body]
pub(crate) fn parse_json(text: &str) -> (r: Result<serde_json::Value, serde_json::Error>)
    ensures
        match r {
            Ok(v) => json_tree(text@) == Some(v),
            Err(_) => json_tree(text@) is None,
        },
{
    serde_json::from_str::<serde_json::Value>(text)
}

/// Relies on `serde_json::to_string_pretty`: the text printed for a tree, and
/// whether printing fails, depend on the tree alone.
#[verifier::external_body]
pub(crate) fn print_pretty(v: &serde_json::Value) -> (r: Result<String, serde_json::Error>)
    ensures
        match r {
            Ok(s) => pretty_json(*v) == Some(s@),
            Err(_) => pretty_json(*v) is None,
        },
{
    serde_json::to_string_pretty(v)
}

/// Relies on `str::trim`: the result depends on the text alone.
#[verifier::external_body]
pub(crate) fn trim_text(s: &str) -> (r: String)
    ensures
        r@ == trimmed(s@),
{
    s.trim().to_string()
}

/// Splits a text at every `\n`; the last piece is what follows the last `\n`
/// (empty when the text ends with one).
pub open spec fn pieces_between_newlines(s: Seq<char>) -> Seq<Seq<char>>
    decreases s.len(),
{
    if s.len() == 0 {
        seq![Seq::empty()]
    } else {
        let rest = pieces_between_newlines(s.drop_last());
        if s.last() == '\n' {
            rest.push(Seq::empty())
        } else {
            rest.update(rest.len() - 1, rest.last().push(s.last()))
        }
    }
}

/// A line with the `\r` of a `\r\n` ending removed.
pub open spec fn without_carriage_return(l: Seq<char>) -> Seq<char> {
    if l.len() > 0 && l.last() == '\r' {
        l.drop_last()
    } else {
        l
    }
}

/// The lines of a text: it is split at `\n` and at `\r\n`, line endings are
/// not kept, and a final line ending adds no empty line.
pub open spec fn lines_of(s: Seq<char>) -> Seq<Seq<char>> {
    let parts = pieces_between_newlines(s);
    let ended = parts.drop_last().map_values(|l: Seq<char>| without_carriage_return(l));
    if parts.last().len() == 0 {
        ended
    } else {
        ended.push(parts.last())
    }
}

/// Relies on `str::lines`: lines end at `\n` or `\r\n`, which are not kept,
/// and the final line ending is optional.
#[verifier::external_body]
pub(crate) fn split_lines(s: &str) -> (r: Vec<String>)
    ensures
        r@.map_values(|l: String| l@) == lines_of(s@),
{
    s.lines().map(|l| l.to_string()).collect()
}

} // verus!
