//! Evaluation: the fixed battery of operations for one input, and over a
//! whole batch of inputs.

use crate::engine::{
    compile, matcher_captures, matcher_captures_all, matcher_find, matcher_find_all,
    matcher_groups, matcher_is_match, matcher_spans, matcher_split, CompiledMatcher,
};
use crate::laws::{lemma_split_parts_count, lemma_split_reconstruction};
use crate::model::{
    capture_models, capture_set_model, capture_zero_texts, count_nonempty, evaluation_model,
    filtered_reports, full_model, group_model, input_report_model, matched_texts,
    report_consistent, spans_wf, EvaluationModel, InputReportModel,
};
use crate::report::{
    reports_view, strings_view, EvaluationReport, InputReport, PatternSpec,
};
use vstd::prelude::*;

verus! {

/// The report this matcher owes for the input at 1-based position `index`.
pub open spec fn matcher_report(m: CompiledMatcher, index: int, text: Seq<char>) -> InputReportModel {
    input_report_model(
        m.pattern_view(),
        m.case_insensitive_flag(),
        m.multi_line_flag(),
        m.dot_matches_new_line_flag(),
        index,
        text,
    )
}

/// Runs the six operations against one input and assembles its report.
pub fn report_for_input(m: &CompiledMatcher, index: usize, input: &String) -> (r: InputReport)
    ensures
        r@ == matcher_report(*m, index as int, input@),
        report_consistent(r@),
{
    let text = input.as_str();
    let is_match = matcher_is_match(m, text);
    let first_match = matcher_find(m, text);
    let all_matches = matcher_find_all(m, text);
    let first_capture = matcher_captures(m, text);
    let all_captures = matcher_captures_all(m, text);
    let split_parts = matcher_split(m, text);
    let r = InputReport {
        index,
        raw_input: input.clone(),
        is_match,
        first_match,
        all_matches,
        first_capture,
        all_captures,
        split_parts,
    };
    proof {
        let textv = input@;
        let spans = matcher_spans(*m, textv);
        let groups = matcher_groups(*m, textv);
        let model = matcher_report(*m, index as int, textv);
        assert(r@.first_match == model.first_match);
        assert(r@.first_capture == model.first_capture);
        assert(r@ == model);
        assert(spans_wf(textv.len() as int, spans));
        lemma_split_parts_count(textv, spans, 0);
        assert(capture_zero_texts(capture_models(textv, groups)) =~= matched_texts(textv, spans))
            by {
            assert forall|i: int|
                0 <= i < groups.len() implies capture_zero_texts(capture_models(textv, groups))[i]
                == matched_texts(textv, spans)[i] by {
                assert(capture_models(textv, groups)[i] == capture_set_model(textv, groups[i]));
                assert(capture_set_model(textv, groups[i])[0] == group_model(
                    textv,
                    groups[i][0],
                ));
                assert(groups[i][0] == Some(spans[i]));
            }
        }
        lemma_split_reconstruction(textv, spans);
        assert(report_consistent(r@));
    }
    r
}

/// Applies the battery to every input of the batch, in order. Blank inputs
/// are skipped without shifting the 1-based positions of later ones; when
/// every input is blank, the advisory is returned instead of reports.
pub fn evaluate(m: &CompiledMatcher, inputs: &Vec<String>) -> (r: EvaluationReport)
    ensures
        r@ == evaluation_model(
            m.pattern_view(),
            m.case_insensitive_flag(),
            m.multi_line_flag(),
            m.dot_matches_new_line_flag(),
            strings_view(inputs@),
        ),
        !(r@ is CompileError),
        (r@ matches EvaluationModel::Success { input_reports } ==> forall|i: int|
            0 <= i < input_reports.len() ==> report_consistent(#[trigger] input_reports[i])),
{
    let ghost all = strings_view(inputs@);
    let mut reports: Vec<InputReport> = Vec::new();
    let mut i: usize = 0;
    while i < inputs.len()
        invariant
            i <= inputs.len(),
            all == strings_view(inputs@),
            reports_view(reports@) == filtered_reports(
                m.pattern_view(),
                m.case_insensitive_flag(),
                m.multi_line_flag(),
                m.dot_matches_new_line_flag(),
                all.take(i as int),
            ),
            reports@.len() == count_nonempty(all.take(i as int)),
            forall|j: int|
                0 <= j < reports@.len() ==> report_consistent(
                    #[trigger] reports_view(reports@)[j],
                ),
        decreases inputs.len() - i,
    {
        let ghost prefix = all.take(i as int);
        let input = &inputs[i];
        if !input.as_str().is_empty() {
            let rep = report_for_input(m, i + 1, input);
            reports.push(rep);
        }
        i += 1;
        proof {
            let step = all.take(i as int);
            assert(step.drop_last() =~= prefix);
            assert(step.last() == inputs@[i - 1]@);
            assert(reports_view(reports@) =~= filtered_reports(
                m.pattern_view(),
                m.case_insensitive_flag(),
                m.multi_line_flag(),
                m.dot_matches_new_line_flag(),
                step,
            ));
        }
    }
    proof {
        assert(all.take(inputs@.len() as int) =~= all);
    }
    if reports.len() == 0 {
        EvaluationReport::NoInputsAdvisory
    } else {
        EvaluationReport::Success { input_reports: reports }
    }
}

/// Compiles the request and evaluates the batch in one step: the whole
/// outcome, whatever the pattern.
pub fn evaluate_pattern(request: &PatternSpec, inputs: &Vec<String>) -> (r: EvaluationReport)
    ensures
        r@ == full_model(
            request.pattern@,
            request.case_insensitive,
            request.multi_line,
            request.dot_matches_new_line,
            strings_view(inputs@),
        ),
        (r@ matches EvaluationModel::Success { input_reports } ==> forall|i: int|
            0 <= i < input_reports.len() ==> report_consistent(#[trigger] input_reports[i])),
{
    match compile(request) {
        Ok(m) => evaluate(&m, inputs),
        Err(e) => EvaluationReport::CompileError { message: e.message },
    }
}

} // verus!
