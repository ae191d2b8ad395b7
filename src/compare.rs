use vstd::prelude::*;
use vstd::string::StringExecFns;
use crate::text::{
    json_tree, lines_of, parse_json, pretty_json, print_pretty, split_lines, trim_text, trimmed,
};

verus! {

/// One line on which the two canonical documents differ.
#[derive(Clone, Debug)]
pub struct LineDiff {
    /// The 1-based line number.
    pub line: usize,
    /// The expected line, trimmed of surrounding white space.
    pub expected: String,
    /// The generated line, trimmed of surrounding white space.
    pub generated: String,
}

impl View for LineDiff {
    type V = (nat, Seq<char>, Seq<char>);

    open spec fn view(&self) -> (nat, Seq<char>, Seq<char>) {
        (self.line as nat, self.expected@, self.generated@)
    }
}

/// The result of comparing two canonical documents.
#[derive(Clone, Debug)]
pub enum Comparison {
    /// The documents are equal.
    Equal,
    /// The documents have different numbers of lines; no line is compared.
    LineCount { expected: usize, generated: usize },
    /// The documents differ; these are the differing lines, in order.
    Lines(Vec<LineDiff>),
}

/// The mathematical form of a [`Comparison`].
pub enum ComparisonView {
    Equal,
    LineCount { expected: nat, generated: nat },
    Lines(Seq<(nat, Seq<char>, Seq<char>)>),
}

impl View for Comparison {
    type V = ComparisonView;

    open spec fn view(&self) -> ComparisonView {
        match self {
            Comparison::Equal => ComparisonView::Equal,
            Comparison::LineCount { expected, generated } => ComparisonView::LineCount {
                expected: *expected as nat,
                generated: *generated as nat,
            },
            Comparison::Lines(d) => ComparisonView::Lines(d@.map_values(|x: LineDiff| x@)),
        }
    }
}

impl Comparison {
    /// Whether the documents compared equal.
    pub fn is_equal(&self) -> (r: bool)
        ensures
            r == (self@ is Equal),
    {
        match self {
            Comparison::Equal => true,
            _ => false,
        }
    }
}

/// Why two snapshot documents could not be compared.
#[derive(Clone, Copy, Debug, PartialEq, Eq, Structural)]
pub enum CompareError {
    /// The generated document is not valid JSON.
    MalformedGenerated,
    /// The expected document is not valid JSON.
    MalformedExpected,
    /// A parsed document could not be printed in canonical form.
    Unprintable,
}

/// The differing lines among the first `n` lines of two equally long line
/// sequences: 1-based line number, trimmed expected line, trimmed generated line.
pub open spec fn differing_lines(
    generated: Seq<Seq<char>>,
    expected: Seq<Seq<char>>,
    n: nat,
) -> Seq<(nat, Seq<char>, Seq<char>)>
    decreases n,
{
    if n == 0 {
        seq![]
    } else {
        let i = n - 1;
        let before = differing_lines(generated, expected, i as nat);
        if generated[i] != expected[i] {
            before.push(((i + 1) as nat, trimmed(expected[i]), trimmed(generated[i])))
        } else {
            before
        }
    }
}

/// How two canonical documents compare. Identical texts are equal. Otherwise
/// a difference in line count is reported alone; with equal line counts the
/// differing lines are listed, and an empty list counts as equal only in
/// accept mode.
pub open spec fn compare_canonical_spec(
    generated: Seq<char>,
    expected: Seq<char>,
    accept: bool,
) -> ComparisonView {
    if generated == expected {
        ComparisonView::Equal
    } else {
        let g = lines_of(generated);
        let e = lines_of(expected);
        if g.len() != e.len() {
            ComparisonView::LineCount { expected: e.len(), generated: g.len() }
        } else {
            let d = differing_lines(g, e, g.len());
            if d.len() == 0 && accept {
                ComparisonView::Equal
            } else {
                ComparisonView::Lines(d)
            }
        }
    }
}

/// The canonical form of a snapshot text: its JSON tree, pretty printed.
pub open spec fn canonical_text(raw: Seq<char>) -> Option<Seq<char>> {
    match json_tree(raw) {
        Some(v) => pretty_json(v),
        None => None,
    }
}

/// How two raw snapshot texts compare: each is parsed as JSON (the generated
/// one first), both are printed canonically, and the canonical forms compared.
pub open spec fn compare_documents_spec(
    generated: Seq<char>,
    expected: Seq<char>,
    accept: bool,
) -> Result<ComparisonView, CompareError> {
    match (json_tree(generated), json_tree(expected)) {
        (None, _) => Err(CompareError::MalformedGenerated),
        (Some(_), None) => Err(CompareError::MalformedExpected),
        (Some(gv), Some(ev)) => match (pretty_json(gv), pretty_json(ev)) {
            (Some(gc), Some(ec)) => Ok(compare_canonical_spec(gc, ec, accept)),
            _ => Err(CompareError::Unprintable),
        },
    }
}

/// Compares two canonical documents line by line.
pub fn compare_canonical(generated: &str, expected: &str, accept: bool) -> (r: Comparison)
    ensures
        r@ == compare_canonical_spec(generated@, expected@, accept),
{
    let gs = String::from_str(generated);
    let es = String::from_str(expected);
    if gs == es {
        return Comparison::Equal;
    }
    let gl = split_lines(generated);
    let el = split_lines(expected);
    let ghost gv = lines_of(generated@);
    let ghost ev = lines_of(expected@);
    if gl.len() != el.len() {
        return Comparison::LineCount { expected: el.len(), generated: gl.len() };
    }
    let mut diffs: Vec<LineDiff> = Vec::new();
    let mut i: usize = 0;
    while i < gl.len()
        invariant
            i <= gl.len(),
            gl.len() == el.len(),
            gl@.map_values(|l: String| l@) == gv,
            el@.map_values(|l: String| l@) == ev,
            gv.len() == ev.len(),
            diffs@.map_values(|x: LineDiff| x@) == differing_lines(gv, ev, i as nat),
        decreases gl.len() - i,
    {
        assert(gv[i as int] == gl@[i as int]@);
        assert(ev[i as int] == el@[i as int]@);
        if !(gl[i] == el[i]) {
            let te = trim_text(el[i].as_str());
            let tg = trim_text(gl[i].as_str());
            let ghost before = diffs@;
            diffs.push(LineDiff { line: i + 1, expected: te, generated: tg });
            assert(diffs@.map_values(|x: LineDiff| x@) =~= before.map_values(
                |x: LineDiff| x@,
            ).push(((i + 1) as nat, trimmed(ev[i as int]), trimmed(gv[i as int]))));
        }
        i += 1;
    }
    if diffs.len() == 0 && accept {
        Comparison::Equal
    } else {
        Comparison::Lines(diffs)
    }
}

/// Compares a generated snapshot text with an expected one through their
/// canonical JSON forms.
pub fn compare_documents(generated: &str, expected: &str, accept: bool) -> (r: Result<
    Comparison,
    CompareError,
>)
    ensures
        match compare_documents_spec(generated@, expected@, accept) {
            Ok(c) => r is Ok && r->Ok_0@ == c,
            Err(e) => r == Err::<Comparison, CompareError>(e),
        },
{
    let gv = match parse_json(generated) {
        Ok(v) => v,
        Err(_) => return Err(CompareError::MalformedGenerated),
    };
    let ev = match parse_json(expected) {
        Ok(v) => v,
        Err(_) => return Err(CompareError::MalformedExpected),
    };
    let gc = match print_pretty(&gv) {
        Ok(s) => s,
        Err(_) => return Err(CompareError::Unprintable),
    };
    let ec = match print_pretty(&ev) {
        Ok(s) => s,
        Err(_) => return Err(CompareError::Unprintable),
    };
    Ok(compare_canonical(gc.as_str(), ec.as_str(), accept))
}


/// Canonicalization invariance: two snapshot texts that parse to the same JSON
/// tree compare equal in either mode, unless that tree cannot be printed.
pub proof fn lemma_same_tree_compares_equal(generated: Seq<char>, expected: Seq<char>, accept: bool)
    requires
        json_tree(generated) is Some,
        json_tree(generated) == json_tree(expected),
    ensures
        compare_documents_spec(generated, expected, accept) == Ok::<ComparisonView, CompareError>(
            ComparisonView::Equal,
        ) || compare_documents_spec(generated, expected, accept) == Err::<
            ComparisonView,
            CompareError,
        >(CompareError::Unprintable),
{
}

/// When two canonical documents have different line counts, the comparison
/// reports exactly those two counts and lists no line.
pub proof fn lemma_line_count_short_circuit(generated: Seq<char>, expected: Seq<char>, accept: bool)
    requires
        lines_of(generated).len() != lines_of(expected).len(),
    ensures
        compare_canonical_spec(generated, expected, accept) == (ComparisonView::LineCount {
            expected: lines_of(expected).len(),
            generated: lines_of(generated).len(),
        }),
{
}

} // verus!
