use regex_workbench::report::{EvaluationReport, InputReport, PatternSpec};
use regex_workbench::eval::evaluate_pattern;

fn request(pattern: &str, ci: bool, ml: bool, dnl: bool) -> PatternSpec {
    PatternSpec {
        pattern: pattern.to_string(),
        case_insensitive: ci,
        multi_line: ml,
        dot_matches_new_line: dnl,
    }
}

fn batch(inputs: &[&str]) -> Vec<String> {
    inputs.iter().map(|s| s.to_string()).collect()
}

fn check_consistency(r: &InputReport) {
    assert_eq!(r.is_match, !r.all_matches.is_empty());
    assert_eq!(r.all_matches.len(), r.all_captures.len());
    if !r.all_matches.is_empty() {
        assert_eq!(r.first_match.as_ref().unwrap(), &r.all_matches[0]);
        assert_eq!(r.first_capture.as_ref().unwrap(), &r.all_captures[0]);
    } else {
        assert!(r.first_match.is_none());
        assert!(r.first_capture.is_none());
    }
    assert_eq!(r.split_parts.len(), r.all_matches.len() + 1);
    // the split parts with the matched texts reinserted rebuild the input
    let mut rebuilt = String::new();
    for (i, part) in r.split_parts.iter().enumerate() {
        rebuilt.push_str(part);
        if i < r.all_captures.len() {
            rebuilt.push_str(&r.all_captures[i].groups[0].as_ref().unwrap().text);
        }
    }
    assert_eq!(rebuilt, r.raw_input);
}

#[test]
fn reports_are_internally_consistent() {
    let cases: &[(&str, &str)] = &[
        ("a+", "baaab"),
        ("x*", "abc"),
        (r"(\d+)-(\d+)", "12-34 and 5-6"),
        ("x", "abc"),
        (",", "a,b,,c,"),
        ("^", "two\nlines"),
    ];
    for (pattern, input) in cases {
        let out = evaluate_pattern(&request(pattern, false, false, false), &batch(&[input]));
        match out {
            EvaluationReport::Success { input_reports } => {
                assert_eq!(input_reports.len(), 1);
                check_consistency(&input_reports[0]);
            },
            _ => panic!("expected a successful report"),
        }
    }
}

#[test]
fn success_reports_every_nonblank_input() {
    let out = evaluate_pattern(
        &request("a", false, false, false),
        &batch(&["a", "", "bab", "", "xyz"]),
    );
    match out {
        EvaluationReport::Success { input_reports } => {
            assert_eq!(input_reports.len(), 3);
        },
        _ => panic!("expected a successful report"),
    }
}

#[test]
fn evaluation_is_idempotent() {
    let req = request(r"(\w+)@(\w+)", false, false, false);
    let inputs = batch(&["mail me: someone@example", "", "no address here"]);
    let first = evaluate_pattern(&req, &inputs);
    let second = evaluate_pattern(&req, &inputs);
    assert_eq!(first, second);
}

#[test]
fn case_insensitive_flag_changes_matching() {
    let inputs = batch(&["ABC"]);
    let plain = evaluate_pattern(&request("abc", false, false, false), &inputs);
    match plain {
        EvaluationReport::Success { input_reports } => assert!(!input_reports[0].is_match),
        _ => panic!("expected a successful report"),
    }
    let folded = evaluate_pattern(&request("abc", true, false, false), &inputs);
    match folded {
        EvaluationReport::Success { input_reports } => assert!(input_reports[0].is_match),
        _ => panic!("expected a successful report"),
    }
}

#[test]
fn multi_line_flag_changes_anchors() {
    let inputs = batch(&["a\nb"]);
    let plain = evaluate_pattern(&request("^b", false, false, false), &inputs);
    match plain {
        EvaluationReport::Success { input_reports } => assert!(!input_reports[0].is_match),
        _ => panic!("expected a successful report"),
    }
    let lines = evaluate_pattern(&request("^b", false, true, false), &inputs);
    match lines {
        EvaluationReport::Success { input_reports } => assert!(input_reports[0].is_match),
        _ => panic!("expected a successful report"),
    }
}

#[test]
fn dot_matches_new_line_flag_changes_wildcard() {
    let inputs = batch(&["a\nb"]);
    let plain = evaluate_pattern(&request("a.b", false, false, false), &inputs);
    match plain {
        EvaluationReport::Success { input_reports } => assert!(!input_reports[0].is_match),
        _ => panic!("expected a successful report"),
    }
    let wide = evaluate_pattern(&request("a.b", false, false, true), &inputs);
    match wide {
        EvaluationReport::Success { input_reports } => assert!(input_reports[0].is_match),
        _ => panic!("expected a successful report"),
    }
}

#[test]
fn captured_text_matches_span_slice() {
    let req = request(r"[a-z]+", false, false, false);
    let input = "one two three";
    let out = evaluate_pattern(&req, &batch(&[input]));
    match out {
        EvaluationReport::Success { input_reports } => {
            let r = &input_reports[0];
            assert_eq!(r.all_matches.len(), 3);
            for (span, caps) in r.all_matches.iter().zip(r.all_captures.iter()) {
                let whole = caps.groups[0].as_ref().unwrap();
                assert_eq!(whole.text, &input[span.start..span.end]);
            }
        },
        _ => panic!("expected a successful report"),
    }
}
