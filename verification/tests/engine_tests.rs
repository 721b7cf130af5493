use regex_workbench::engine::compile;
use regex_workbench::eval::{evaluate, evaluate_pattern};
use regex_workbench::report::{EvaluationReport, PatternSpec};

fn request(pattern: &str, ci: bool, ml: bool, dnl: bool) -> PatternSpec {
    PatternSpec {
        pattern: pattern.to_string(),
        case_insensitive: ci,
        multi_line: ml,
        dot_matches_new_line: dnl,
    }
}

fn batch(inputs: &[&str]) -> Vec<String> {
    inputs.iter().map(|s| s.to_string()).collect()
}

#[test]
fn scenario_repeated_letter() {
    let req = request("a+", false, false, false);
    let out = evaluate_pattern(&req, &batch(&["baaab"]));
    match out {
        EvaluationReport::Success { input_reports } => {
            assert_eq!(input_reports.len(), 1);
            let r = &input_reports[0];
            assert_eq!(r.index, 1);
            assert_eq!(r.raw_input, "baaab");
            assert!(r.is_match);
            let fm = r.first_match.as_ref().unwrap();
            assert_eq!((fm.start, fm.end), (1, 4));
            assert_eq!(r.all_matches.len(), 1);
            assert_eq!((r.all_matches[0].start, r.all_matches[0].end), (1, 4));
            assert_eq!(r.split_parts, vec!["b".to_string(), "b".to_string()]);
        },
        _ => panic!("expected a successful report"),
    }
}

#[test]
fn scenario_two_number_groups() {
    let req = request(r"(\d+)-(\d+)", false, false, false);
    let out = evaluate_pattern(&req, &batch(&["12-34"]));
    match out {
        EvaluationReport::Success { input_reports } => {
            let r = &input_reports[0];
            let caps = r.first_capture.as_ref().unwrap();
            assert_eq!(caps.groups.len(), 3);
            let whole = caps.groups[0].as_ref().unwrap();
            assert_eq!(whole.text, "12-34");
            assert_eq!((whole.span.start, whole.span.end), (0, 5));
            let g1 = caps.groups[1].as_ref().unwrap();
            assert_eq!(g1.text, "12");
            assert_eq!((g1.span.start, g1.span.end), (0, 2));
            let g2 = caps.groups[2].as_ref().unwrap();
            assert_eq!(g2.text, "34");
            assert_eq!((g2.span.start, g2.span.end), (3, 5));
        },
        _ => panic!("expected a successful report"),
    }
}

#[test]
fn scenario_invalid_pattern() {
    let req = request("(", false, false, false);
    let compiled = compile(&req);
    let err = compiled.err().unwrap();
    assert!(!err.message.is_empty());
    let out = evaluate_pattern(&req, &batch(&["abc"]));
    match out {
        EvaluationReport::CompileError { message } => assert!(!message.is_empty()),
        _ => panic!("expected a compile error"),
    }
}

#[test]
fn scenario_no_inputs() {
    let req = request("a", false, false, false);
    let out = evaluate_pattern(&req, &batch(&[]));
    assert!(matches!(out, EvaluationReport::NoInputsAdvisory));
    let out_blank = evaluate_pattern(&req, &batch(&["", ""]));
    assert!(matches!(out_blank, EvaluationReport::NoInputsAdvisory));
}

#[test]
fn scenario_empty_matches_advance() {
    let req = request("x*", false, false, false);
    let out = evaluate_pattern(&req, &batch(&["abc"]));
    match out {
        EvaluationReport::Success { input_reports } => {
            let r = &input_reports[0];
            let spans: Vec<(usize, usize)> =
                r.all_matches.iter().map(|s| (s.start, s.end)).collect();
            assert_eq!(spans, vec![(0, 0), (1, 1), (2, 2), (3, 3)]);
            assert_eq!(
                r.split_parts,
                vec!["".to_string(), "a".to_string(), "b".to_string(), "c".to_string(),
                    "".to_string()],
            );
        },
        _ => panic!("expected a successful report"),
    }
}

#[test]
fn byte_offsets_after_multibyte_character() {
    let req = request("x", false, false, false);
    let out = evaluate_pattern(&req, &batch(&["\u{2603}x"]));
    match out {
        EvaluationReport::Success { input_reports } => {
            let r = &input_reports[0];
            let fm = r.first_match.as_ref().unwrap();
            // the snowman takes three bytes, so the match starts at byte 3, not char 1
            assert_eq!((fm.start, fm.end), (3, 4));
        },
        _ => panic!("expected a successful report"),
    }
}

#[test]
fn blank_inputs_keep_original_positions() {
    let req = request(".", false, false, false);
    let out = evaluate_pattern(&req, &batch(&["a", "", "b"]));
    match out {
        EvaluationReport::Success { input_reports } => {
            assert_eq!(input_reports.len(), 2);
            assert_eq!(input_reports[0].index, 1);
            assert_eq!(input_reports[0].raw_input, "a");
            assert_eq!(input_reports[1].index, 3);
            assert_eq!(input_reports[1].raw_input, "b");
        },
        _ => panic!("expected a successful report"),
    }
}

#[test]
fn no_match_yields_single_split_part() {
    let req = request("x", false, false, false);
    let out = evaluate_pattern(&req, &batch(&["abc"]));
    match out {
        EvaluationReport::Success { input_reports } => {
            let r = &input_reports[0];
            assert!(!r.is_match);
            assert!(r.first_match.is_none());
            assert!(r.all_matches.is_empty());
            assert!(r.first_capture.is_none());
            assert!(r.all_captures.is_empty());
            assert_eq!(r.split_parts, vec!["abc".to_string()]);
        },
        _ => panic!("expected a successful report"),
    }
}

#[test]
fn unmatched_alternative_group_is_absent() {
    let req = request("(a)|(b)", false, false, false);
    let out = evaluate_pattern(&req, &batch(&["b"]));
    match out {
        EvaluationReport::Success { input_reports } => {
            let caps = input_reports[0].first_capture.as_ref().unwrap();
            assert_eq!(caps.groups.len(), 3);
            assert!(caps.groups[0].is_some());
            assert!(caps.groups[1].is_none());
            let g2 = caps.groups[2].as_ref().unwrap();
            assert_eq!(g2.text, "b");
        },
        _ => panic!("expected a successful report"),
    }
}

#[test]
fn compile_then_evaluate_directly() {
    let req = request("b", false, false, false);
    let matcher = compile(&req).ok().unwrap();
    let out = evaluate(&matcher, &batch(&["abc"]));
    match out {
        EvaluationReport::Success { input_reports } => {
            assert_eq!(input_reports.len(), 1);
            assert!(input_reports[0].is_match);
            assert_eq!(
                input_reports[0].split_parts,
                vec!["a".to_string(), "c".to_string()],
            );
        },
        _ => panic!("expected a successful report"),
    }
}
