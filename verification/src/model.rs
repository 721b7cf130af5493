//! The mathematical model of one evaluation: what the matching engine finds
//! for a pattern, a flag set and a subject, and how the per-input report is
//! assembled from it.

use vstd::prelude::*;

verus! {

use vstd::utf8::encode_utf8;

/// What compiling a pattern under the three flags yields: `None` when the
/// pattern is valid, `Some(message)` with the engine's diagnostic text when it
/// is not. Compilation is a function of the pattern and the flags alone.
pub uninterp spec fn regex_compile_outcome(
    pattern: Seq<char>,
    case_insensitive: bool,
    multi_line: bool,
    dot_matches_new_line: bool,
) -> Option<Seq<char>>;

/// The successive non-overlapping matches that scanning the subject left to
/// right yields, each as a half-open character-offset range into the subject.
/// The scan is a function of the pattern, the flags and the subject alone.
pub uninterp spec fn regex_found_spans(
    pattern: Seq<char>,
    case_insensitive: bool,
    multi_line: bool,
    dot_matches_new_line: bool,
    text: Seq<char>,
) -> Seq<(int, int)>;

/// The capture sets of the same left-to-right scan: for each match, one
/// optional character-offset range per group, the whole match first, then the
/// parenthesized groups in declaration order, `None` for a group that did not
/// participate in the match.
pub uninterp spec fn regex_group_spans(
    pattern: Seq<char>,
    case_insensitive: bool,
    multi_line: bool,
    dot_matches_new_line: bool,
    text: Seq<char>,
) -> Seq<Seq<Option<(int, int)>>>;

/// The byte offset of the character boundary `i` characters into `text`.
pub open spec fn byte_offset(text: Seq<char>, i: int) -> int {
    encode_utf8(text.take(i)).len() as int
}

/// A match span as the report carries it: half-open byte offsets.
#[verifier::ext_equal]
pub ghost struct SpanModel {
    pub start: int,
    pub end: int,
}

/// The byte-offset span of the character-offset range `cs` into `text`.
pub open spec fn byte_span(text: Seq<char>, cs: (int, int)) -> SpanModel {
    SpanModel { start: byte_offset(text, cs.0), end: byte_offset(text, cs.1) }
}

/// All spans of a scan, as byte-offset spans.
pub open spec fn byte_spans(text: Seq<char>, spans: Seq<(int, int)>) -> Seq<SpanModel> {
    spans.map_values(|cs: (int, int)| byte_span(text, cs))
}

/// A captured group: the matched text and its byte-offset span.
#[verifier::ext_equal]
pub ghost struct GroupModel {
    pub text: Seq<char>,
    pub span: SpanModel,
}

/// One slot of a capture set.
pub open spec fn group_model(text: Seq<char>, g: Option<(int, int)>) -> Option<GroupModel> {
    match g {
        Option::None => Option::None,
        Option::Some(cs) => Option::Some(
            GroupModel { text: text.subrange(cs.0, cs.1), span: byte_span(text, cs) },
        ),
    }
}

/// A whole capture set: one optional group per slot.
pub open spec fn capture_set_model(text: Seq<char>, groups: Seq<Option<(int, int)>>) -> Seq<
    Option<GroupModel>,
> {
    groups.map_values(|g: Option<(int, int)>| group_model(text, g))
}

/// All capture sets of a scan.
pub open spec fn capture_models(text: Seq<char>, groups: Seq<Seq<Option<(int, int)>>>) -> Seq<
    Seq<Option<GroupModel>>,
> {
    groups.map_values(|g: Seq<Option<(int, int)>>| capture_set_model(text, g))
}

/// Well-formedness of the spans a scan yields: each lies within the subject,
/// consecutive matches do not overlap, and an empty match never starts where
/// an earlier match ended, so the scan always advances.
pub open spec fn spans_wf(text_len: int, spans: Seq<(int, int)>) -> bool {
    &&& forall|i: int|
        0 <= i < spans.len() ==> 0 <= (#[trigger] spans[i]).0 <= spans[i].1 <= text_len
    &&& forall|i: int| 0 <= i < spans.len() - 1 ==> (#[trigger] spans[i]).1 <= spans[i + 1].0
    &&& forall|i: int|
        0 <= i < spans.len() - 1 && (#[trigger] spans[i + 1]).0 == spans[i + 1].1 ==> spans[i].1
            < spans[i + 1].0
}

/// Well-formedness of one capture-group range: within the subject.
pub open spec fn group_wf(text_len: int, g: Option<(int, int)>) -> bool {
    match g {
        Option::None => true,
        Option::Some(cs) => 0 <= cs.0 <= cs.1 <= text_len,
    }
}

/// The parts of `text` from position `from` on, split at the given spans:
/// the stretch before each match, and after the last match the rest of the
/// subject. Always one part more than there are spans.
pub open spec fn split_from(text: Seq<char>, spans: Seq<(int, int)>, from: int) -> Seq<Seq<char>>
    decreases spans.len(),
{
    if spans.len() == 0 {
        seq![text.subrange(from, text.len() as int)]
    } else {
        seq![text.subrange(from, spans[0].0)] + split_from(text, spans.drop_first(), spans[0].1)
    }
}

/// The subject split at every match.
pub open spec fn split_model(text: Seq<char>, spans: Seq<(int, int)>) -> Seq<Seq<char>> {
    split_from(text, spans, 0)
}

/// The text each span matched.
pub open spec fn matched_texts(text: Seq<char>, spans: Seq<(int, int)>) -> Seq<Seq<char>> {
    spans.map_values(|cs: (int, int)| text.subrange(cs.0, cs.1))
}

/// `parts` interleaved with `seps`: the first part, then by turns a separator
/// and the next part. With one more part than separators this rebuilds a
/// split subject.
pub open spec fn rejoin(parts: Seq<Seq<char>>, seps: Seq<Seq<char>>) -> Seq<char>
    decreases parts.len(),
{
    if parts.len() == 0 {
        Seq::empty()
    } else if parts.len() == 1 {
        parts[0]
    } else if seps.len() == 0 {
        parts[0] + rejoin(parts.drop_first(), seps)
    } else {
        parts[0] + seps[0] + rejoin(parts.drop_first(), seps.drop_first())
    }
}

/// The report for one input: the six operation results, the input itself and
/// its 1-based position in the original batch.
#[verifier::ext_equal]
pub ghost struct InputReportModel {
    pub index: int,
    pub raw_input: Seq<char>,
    pub is_match: bool,
    pub first_match: Option<SpanModel>,
    pub all_matches: Seq<SpanModel>,
    pub first_capture: Option<Seq<Option<GroupModel>>>,
    pub all_captures: Seq<Seq<Option<GroupModel>>>,
    pub split_parts: Seq<Seq<char>>,
}

/// The report a valid matcher owes for one input.
pub open spec fn input_report_model(
    pattern: Seq<char>,
    case_insensitive: bool,
    multi_line: bool,
    dot_matches_new_line: bool,
    index: int,
    text: Seq<char>,
) -> InputReportModel {
    let spans = regex_found_spans(pattern, case_insensitive, multi_line, dot_matches_new_line, text);
    let groups = regex_group_spans(pattern, case_insensitive, multi_line, dot_matches_new_line, text);
    InputReportModel {
        index: index,
        raw_input: text,
        is_match: spans.len() > 0,
        first_match: if spans.len() == 0 {
            Option::None
        } else {
            Option::Some(byte_span(text, spans[0]))
        },
        all_matches: byte_spans(text, spans),
        first_capture: if groups.len() == 0 {
            Option::None
        } else {
            Option::Some(capture_set_model(text, groups[0]))
        },
        all_captures: capture_models(text, groups),
        split_parts: split_model(text, spans),
    }
}

/// The text of the whole-match slot of a capture set.
pub open spec fn group_zero_text(c: Seq<Option<GroupModel>>) -> Seq<char> {
    match c[0] {
        Option::None => Seq::empty(),
        Option::Some(g) => g.text,
    }
}

/// The whole-match texts of a list of capture sets.
pub open spec fn capture_zero_texts(cs: Seq<Seq<Option<GroupModel>>>) -> Seq<Seq<char>> {
    Seq::new(cs.len(), |i: int| group_zero_text(cs[i]))
}

/// The internal consistency every report owes: the match test agrees with the
/// match list, matches and capture sets pair up, the first of each heads its
/// list, there is one split part more than there are matches, and the split
/// parts with the matched texts reinserted between them rebuild the input.
pub open spec fn report_consistent(r: InputReportModel) -> bool {
    &&& r.is_match == (r.all_matches.len() > 0)
    &&& r.all_matches.len() == r.all_captures.len()
    &&& (r.all_matches.len() > 0 ==> r.first_match == Option::Some(r.all_matches[0]))
    &&& (r.all_captures.len() > 0 ==> r.first_capture == Option::Some(r.all_captures[0]))
    &&& (r.all_matches.len() == 0 ==> r.first_match is None)
    &&& (r.all_captures.len() == 0 ==> r.first_capture is None)
    &&& r.split_parts.len() == r.all_matches.len() + 1
    &&& (forall|i: int|
        0 <= i < r.all_captures.len() ==> (#[trigger] r.all_captures[i]).len() >= 1
            && r.all_captures[i][0] is Some)
    &&& rejoin(r.split_parts, capture_zero_texts(r.all_captures)) == r.raw_input
}

/// The whole outcome of one evaluation.
#[verifier::ext_equal]
pub ghost enum EvaluationModel {
    CompileError { message: Seq<char> },
    NoInputsAdvisory,
    Success { input_reports: Seq<InputReportModel> },
}

/// How many inputs of the batch are not blank.
pub open spec fn count_nonempty(inputs: Seq<Seq<char>>) -> int
    decreases inputs.len(),
{
    if inputs.len() == 0 {
        0
    } else {
        count_nonempty(inputs.drop_last()) + if inputs.last().len() == 0 {
            0int
        } else {
            1int
        }
    }
}

/// The reports for a batch: blank inputs are skipped, every other input gets
/// one report carrying its 1-based position in the original batch.
pub open spec fn filtered_reports(
    pattern: Seq<char>,
    case_insensitive: bool,
    multi_line: bool,
    dot_matches_new_line: bool,
    inputs: Seq<Seq<char>>,
) -> Seq<InputReportModel>
    decreases inputs.len(),
{
    if inputs.len() == 0 {
        Seq::empty()
    } else {
        let front = filtered_reports(
            pattern,
            case_insensitive,
            multi_line,
            dot_matches_new_line,
            inputs.drop_last(),
        );
        if inputs.last().len() == 0 {
            front
        } else {
            front + seq![
                input_report_model(
                    pattern,
                    case_insensitive,
                    multi_line,
                    dot_matches_new_line,
                    inputs.len() as int,
                    inputs.last(),
                ),
            ]
        }
    }
}

/// What evaluating a batch against a valid matcher yields: an advisory when
/// every input is blank, otherwise the reports.
pub open spec fn evaluation_model(
    pattern: Seq<char>,
    case_insensitive: bool,
    multi_line: bool,
    dot_matches_new_line: bool,
    inputs: Seq<Seq<char>>,
) -> EvaluationModel {
    if count_nonempty(inputs) == 0 {
        EvaluationModel::NoInputsAdvisory
    } else {
        EvaluationModel::Success {
            input_reports: filtered_reports(
                pattern,
                case_insensitive,
                multi_line,
                dot_matches_new_line,
                inputs,
            ),
        }
    }
}

/// What compiling and then evaluating yields, for any pattern.
pub open spec fn full_model(
    pattern: Seq<char>,
    case_insensitive: bool,
    multi_line: bool,
    dot_matches_new_line: bool,
    inputs: Seq<Seq<char>>,
) -> EvaluationModel {
    match regex_compile_outcome(pattern, case_insensitive, multi_line, dot_matches_new_line) {
        Option::Some(msg) => EvaluationModel::CompileError { message: msg },
        Option::None => evaluation_model(
            pattern,
            case_insensitive,
            multi_line,
            dot_matches_new_line,
            inputs,
        ),
    }
}

} // verus!
