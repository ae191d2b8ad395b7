use parse_test::{compare_canonical, compare_documents, CompareError, Comparison};

fn diffs(c: &Comparison) -> Vec<(usize, String, String)> {
    match c {
        Comparison::Lines(d) => d.iter().map(|x| (x.line, x.expected.clone(), x.generated.clone())).collect(),
        _ => panic!("expected a line diff, got {:?}", c),
    }
}

#[test]
fn identical_documents_are_equal() {
    let c = compare_documents("{\"a\": 1}", "{\"a\": 1}", false).unwrap();
    assert!(c.is_equal());
}

#[test]
fn formatting_and_key_order_do_not_matter() {
    let g = "{\"b\":1,\"a\":[1,2,{\"z\":null,\"y\":true}]}";
    let e = "{\n    \"a\" : [ 1, 2, { \"y\": true, \"z\": null } ],\n\t\"b\": 1\n}\n";
    assert!(compare_documents(g, e, false).unwrap().is_equal());
    assert!(compare_documents(g, e, true).unwrap().is_equal());
}

#[test]
fn one_differing_value_is_reported_with_its_line() {
    let g = "{\"a\": 1, \"value\": 3}";
    let e = "{\"a\": 1, \"value\": 4}";
    let c = compare_documents(g, e, false).unwrap();
    assert_eq!(diffs(&c), vec![(3, "\"value\": 4".to_string(), "\"value\": 3".to_string())]);
}

#[test]
fn mismatch_is_not_equal_in_accept_mode_either() {
    let c = compare_documents("{\"value\": 3}", "{\"value\": 4}", true).unwrap();
    assert!(!c.is_equal());
    assert_eq!(diffs(&c).len(), 1);
}

#[test]
fn different_line_counts_short_circuit() {
    let c = compare_documents("{\"a\": 1}", "{\"a\": 1, \"b\": 2}", false).unwrap();
    match c {
        Comparison::LineCount { expected, generated } => {
            assert_eq!(expected, 4);
            assert_eq!(generated, 3);
        }
        other => panic!("unexpected {:?}", other),
    }
}

#[test]
fn malformed_generated_snapshot() {
    assert_eq!(compare_documents("{", "{}", false).unwrap_err(), CompareError::MalformedGenerated);
    assert_eq!(compare_documents("{", "{", false).unwrap_err(), CompareError::MalformedGenerated);
}

#[test]
fn malformed_expected_snapshot() {
    assert_eq!(compare_documents("{}", "[1,", true).unwrap_err(), CompareError::MalformedExpected);
}

#[test]
fn canonical_lines_split_at_crlf_and_are_trimmed() {
    let c = compare_canonical("  a  \r\nb", "  a  \nc", false);
    assert_eq!(diffs(&c), vec![(2, "c".to_string(), "b".to_string())]);
}

#[test]
fn equal_lines_with_different_text() {
    let c = compare_canonical("a\n", "a", false);
    assert!(diffs(&c).is_empty());
    assert!(compare_canonical("a\n", "a", true).is_equal());
}
