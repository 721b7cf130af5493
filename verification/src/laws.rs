//! General laws of the evaluation model: the split operation rebuilds its
//! subject, a successful evaluation reports every non-blank input, the match
//! test agrees with the match list, and evaluation is deterministic.

use crate::model::{
    byte_offset, byte_span, count_nonempty, evaluation_model, filtered_reports, input_report_model,
    matched_texts, rejoin, spans_wf, split_from, split_model, EvaluationModel,
};
use vstd::prelude::*;

verus! {

use vstd::utf8::{encode_scalar, encode_utf8, is_ascii_chars, is_ascii_chars_encode_utf8};

/// Encoding distributes over concatenation of character sequences.
proof fn lemma_encode_utf8_concat(a: Seq<char>, b: Seq<char>)
    ensures
        encode_utf8(a + b) == encode_utf8(a) + encode_utf8(b),
    decreases a.len(),
{
    if a.len() == 0 {
        assert(a + b =~= b);
        assert(encode_utf8(a) + encode_utf8(b) =~= encode_utf8(b));
    } else {
        assert((a + b).drop_first() =~= a.drop_first() + b);
        lemma_encode_utf8_concat(a.drop_first(), b);
        assert(encode_scalar(a[0] as u32) + (encode_utf8(a.drop_first()) + encode_utf8(b)) =~= (
        encode_scalar(a[0] as u32) + encode_utf8(a.drop_first())) + encode_utf8(b));
    }
}

/// Byte offsets grow with character offsets.
pub proof fn lemma_byte_offset_monotone(text: Seq<char>, i: int, j: int)
    requires
        0 <= i <= j <= text.len(),
    ensures
        byte_offset(text, i) <= byte_offset(text, j),
{
    assert(text.take(j) =~= text.take(i) + text.subrange(i, j));
    lemma_encode_utf8_concat(text.take(i), text.subrange(i, j));
}

/// Law: every span of a scan that lies within the subject yields a reported
/// byte span with `start <= end`, ending within the subject's byte length.
pub proof fn lemma_byte_span_bounds(text: Seq<char>, cs: (int, int))
    requires
        0 <= cs.0 <= cs.1 <= text.len(),
    ensures
        byte_span(text, cs).start <= byte_span(text, cs).end,
        byte_span(text, cs).end <= encode_utf8(text).len(),
{
    lemma_byte_offset_monotone(text, cs.0, cs.1);
    lemma_byte_offset_monotone(text, cs.1, text.len() as int);
    assert(text.take(text.len() as int) =~= text);
}

/// Law: over an all-ASCII subject the reported byte offsets coincide with the
/// character offsets; only a multi-byte character ahead of a match can make
/// them differ.
pub proof fn lemma_ascii_byte_offset(text: Seq<char>, i: int)
    requires
        is_ascii_chars(text),
        0 <= i <= text.len(),
    ensures
        byte_offset(text, i) == i,
{
    let front = text.take(i);
    assert(is_ascii_chars(front));
    is_ascii_chars_encode_utf8(front);
}

/// Splitting always yields one part more than there are matches.
pub proof fn lemma_split_parts_count(text: Seq<char>, spans: Seq<(int, int)>, from: int)
    ensures
        split_from(text, spans, from).len() == spans.len() + 1,
    decreases spans.len(),
{
    if spans.len() > 0 {
        lemma_split_parts_count(text, spans.drop_first(), spans[0].1);
    }
}

/// Well-formedness of a scan's spans carries over to the tail of the scan.
proof fn lemma_spans_wf_drop_first(text_len: int, spans: Seq<(int, int)>)
    requires
        spans_wf(text_len, spans),
        spans.len() > 0,
    ensures
        spans_wf(text_len, spans.drop_first()),
{
    let rest = spans.drop_first();
    assert forall|i: int| 0 <= i < rest.len() implies 0 <= (#[trigger] rest[i]).0 <= rest[i].1
        <= text_len by {
        assert(rest[i] == spans[i + 1]);
    }
    assert forall|i: int| 0 <= i && i + 1 < rest.len() implies (#[trigger] rest[i]).1 <= rest[i + 1].0 by {
        assert(rest[i] == spans[i + 1]);
        assert(rest[i + 1] == spans[i + 2]);
    }
    assert forall|i: int|
        0 <= i && i + 1 < rest.len() && (#[trigger] rest[i + 1]).0 == rest[i + 1].1 implies rest[i].1
        < rest[i + 1].0 by {
        assert(rest[i] == spans[i + 1]);
        assert(rest[i + 1] == spans[i + 2]);
    }
}

/// The split parts from `from` on, interleaved with the matched texts, rebuild
/// the subject from `from` on.
proof fn lemma_split_rejoin_from(text: Seq<char>, spans: Seq<(int, int)>, from: int)
    requires
        spans_wf(text.len() as int, spans),
        0 <= from <= text.len(),
        spans.len() > 0 ==> from <= spans[0].0,
    ensures
        rejoin(split_from(text, spans, from), matched_texts(text, spans)) == text.subrange(
            from,
            text.len() as int,
        ),
    decreases spans.len(),
{
    if spans.len() > 0 {
        let cs = spans[0];
        let rest = spans.drop_first();
        lemma_spans_wf_drop_first(text.len() as int, spans);
        if rest.len() > 0 {
            assert(rest[0] == spans[1]);
        }
        lemma_split_rejoin_from(text, rest, cs.1);
        lemma_split_parts_count(text, rest, cs.1);
        let parts = split_from(text, spans, from);
        let sub_parts = split_from(text, rest, cs.1);
        let seps = matched_texts(text, spans);
        assert(parts[0] == text.subrange(from, cs.0));
        assert(parts.drop_first() =~= sub_parts);
        assert(seps[0] == text.subrange(cs.0, cs.1));
        assert(seps.drop_first() =~= matched_texts(text, rest));
        assert(rejoin(parts, seps) == text.subrange(from, cs.0) + text.subrange(cs.0, cs.1)
            + text.subrange(cs.1, text.len() as int));
        assert(text.subrange(from, cs.0) + text.subrange(cs.0, cs.1) + text.subrange(
            cs.1,
            text.len() as int,
        ) =~= text.subrange(from, text.len() as int));
    }
}

/// Law: concatenating the split parts with the matched texts reinserted
/// between them reconstructs the subject exactly, for any well-formed scan.
pub proof fn lemma_split_reconstruction(text: Seq<char>, spans: Seq<(int, int)>)
    requires
        spans_wf(text.len() as int, spans),
    ensures
        rejoin(split_model(text, spans), matched_texts(text, spans)) == text,
{
    lemma_split_rejoin_from(text, spans, 0);
    assert(text.subrange(0, text.len() as int) =~= text);
}

/// A filtered batch yields exactly one report per non-blank input.
proof fn lemma_filtered_len(
    pattern: Seq<char>,
    case_insensitive: bool,
    multi_line: bool,
    dot_matches_new_line: bool,
    inputs: Seq<Seq<char>>,
)
    ensures
        filtered_reports(pattern, case_insensitive, multi_line, dot_matches_new_line, inputs).len()
            == count_nonempty(inputs),
    decreases inputs.len(),
{
    if inputs.len() > 0 {
        lemma_filtered_len(
            pattern,
            case_insensitive,
            multi_line,
            dot_matches_new_line,
            inputs.drop_last(),
        );
    }
}

/// Law: whenever at least one input of the batch is non-blank, evaluation of a
/// valid matcher succeeds and reports exactly the non-blank inputs.
pub proof fn lemma_reports_per_input(
    pattern: Seq<char>,
    case_insensitive: bool,
    multi_line: bool,
    dot_matches_new_line: bool,
    inputs: Seq<Seq<char>>,
)
    ensures
        count_nonempty(inputs) > 0 ==> (evaluation_model(
            pattern,
            case_insensitive,
            multi_line,
            dot_matches_new_line,
            inputs,
        ) matches EvaluationModel::Success { input_reports } && input_reports.len()
            == count_nonempty(inputs)),
{
    lemma_filtered_len(pattern, case_insensitive, multi_line, dot_matches_new_line, inputs);
}

/// Law: a report flags a match exactly when its list of matches is non-empty.
pub proof fn lemma_is_match_agrees(
    pattern: Seq<char>,
    case_insensitive: bool,
    multi_line: bool,
    dot_matches_new_line: bool,
    index: int,
    text: Seq<char>,
)
    ensures
        input_report_model(
            pattern,
            case_insensitive,
            multi_line,
            dot_matches_new_line,
            index,
            text,
        ).is_match == (input_report_model(
            pattern,
            case_insensitive,
            multi_line,
            dot_matches_new_line,
            index,
            text,
        ).all_matches.len() > 0),
{
}

/// Law: the first match and the first capture set head their lists whenever
/// those are non-empty.
pub proof fn lemma_first_heads_list(
    pattern: Seq<char>,
    case_insensitive: bool,
    multi_line: bool,
    dot_matches_new_line: bool,
    index: int,
    text: Seq<char>,
)
    ensures
        (input_report_model(
            pattern,
            case_insensitive,
            multi_line,
            dot_matches_new_line,
            index,
            text,
        ).all_matches.len() > 0 ==> input_report_model(
            pattern,
            case_insensitive,
            multi_line,
            dot_matches_new_line,
            index,
            text,
        ).first_match == Option::Some(
            input_report_model(
                pattern,
                case_insensitive,
                multi_line,
                dot_matches_new_line,
                index,
                text,
            ).all_matches[0],
        )),
        (input_report_model(
            pattern,
            case_insensitive,
            multi_line,
            dot_matches_new_line,
            index,
            text,
        ).all_captures.len() > 0 ==> input_report_model(
            pattern,
            case_insensitive,
            multi_line,
            dot_matches_new_line,
            index,
            text,
        ).first_capture == Option::Some(
            input_report_model(
                pattern,
                case_insensitive,
                multi_line,
                dot_matches_new_line,
                index,
                text,
            ).all_captures[0],
        )),
{
}

/// Law: evaluation is a function of the pattern, the flags and the inputs
/// alone, so two evaluations of the same request are identical.
pub proof fn lemma_evaluation_deterministic(
    first: EvaluationModel,
    second: EvaluationModel,
    pattern: Seq<char>,
    case_insensitive: bool,
    multi_line: bool,
    dot_matches_new_line: bool,
    inputs: Seq<Seq<char>>,
)
    requires
        first == evaluation_model(
            pattern,
            case_insensitive,
            multi_line,
            dot_matches_new_line,
            inputs,
        ),
        second == evaluation_model(
            pattern,
            case_insensitive,
            multi_line,
            dot_matches_new_line,
            inputs,
        ),
    ensures
        first == second,
{
}

} // verus!
