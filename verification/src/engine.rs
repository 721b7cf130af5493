//! The compiled matcher and the trusted boundary around the `regex` crate:
//! one wrapper per engine call, each with the contract the crate's source
//! and documentation show, stated over the model.

use crate::model::{
    byte_span, byte_spans, capture_models, capture_set_model, group_wf, regex_compile_outcome,
    regex_found_spans, regex_group_spans, split_model,
};
use crate::report::{
    capture_sets_view, spans_view, strings_view, CaptureSet, CapturedGroup, CompileError,
    MatchSpan, PatternSpec,
};
use vstd::prelude::*;

verus! {

/// Declares `regex::Regex` so that a compiled engine object can sit in a
/// field; the value stays opaque, everything known about it is stated by the
/// wrappers below.
#[verifier::external_type_specification]
#[verifier::external_body]
pub struct ExRegex(regex::Regex);

/// A compiled pattern together with the flag set it was built with. The only
/// way to obtain one is `compile`, so the held engine object always belongs
/// to the held pattern and flags.
pub struct CompiledMatcher {
    regex: regex::Regex,
    pattern: String,
    case_insensitive: bool,
    multi_line: bool,
    dot_matches_new_line: bool,
}

impl CompiledMatcher {
    /// The pattern this matcher was compiled from.
    pub closed spec fn pattern_view(&self) -> Seq<char> {
        self.pattern@
    }

    /// Whether letter matching ignores case.
    pub closed spec fn case_insensitive_flag(&self) -> bool {
        self.case_insensitive
    }

    /// Whether the line anchors match at embedded line breaks.
    pub closed spec fn multi_line_flag(&self) -> bool {
        self.multi_line
    }

    /// Whether the wildcard also matches line breaks.
    pub closed spec fn dot_matches_new_line_flag(&self) -> bool {
        self.dot_matches_new_line
    }

    /// A matcher only ever holds a pattern that compiles under its flags.
    pub open spec fn wf(&self) -> bool {
        regex_compile_outcome(
            self.pattern_view(),
            self.case_insensitive_flag(),
            self.multi_line_flag(),
            self.dot_matches_new_line_flag(),
        ) is None
    }
}

/// The spans this matcher's scan finds in `text`.
pub open spec fn matcher_spans(m: CompiledMatcher, text: Seq<char>) -> Seq<(int, int)> {
    regex_found_spans(
        m.pattern_view(),
        m.case_insensitive_flag(),
        m.multi_line_flag(),
        m.dot_matches_new_line_flag(),
        text,
    )
}

/// The capture sets this matcher's scan finds in `text`.
pub open spec fn matcher_groups(m: CompiledMatcher, text: Seq<char>) -> Seq<
    Seq<Option<(int, int)>>,
> {
    regex_group_spans(
        m.pattern_view(),
        m.case_insensitive_flag(),
        m.multi_line_flag(),
        m.dot_matches_new_line_flag(),
        text,
    )
}

/// Relies on `regex::RegexBuilder`: `build` on the same pattern under the same
/// `case_insensitive`, `multi_line` and `dot_matches_new_line` settings always
/// yields the same outcome, and the error's display text (a formatted parse
/// error, or the fixed size-limit message) is never empty.
#[verifier::external_body]
fn build_matcher(
    pattern: &str,
    case_insensitive: bool,
    multi_line: bool,
    dot_matches_new_line: bool,
) -> (r: Result<CompiledMatcher, String>)
    ensures
        r is Ok <==> regex_compile_outcome(
            pattern@,
            case_insensitive,
            multi_line,
            dot_matches_new_line,
        ) is None,
        (r matches Ok(m) ==> m.pattern_view() == pattern@
            && m.case_insensitive_flag() == case_insensitive && m.multi_line_flag() == multi_line
            && m.dot_matches_new_line_flag() == dot_matches_new_line),
        (r matches Err(e) ==> regex_compile_outcome(
            pattern@,
            case_insensitive,
            multi_line,
            dot_matches_new_line,
        ) matches Some(msg) && e@ == msg && msg.len() > 0),
{
    let built = regex::RegexBuilder::new(pattern)
        .case_insensitive(case_insensitive)
        .multi_line(multi_line)
        .dot_matches_new_line(dot_matches_new_line)
        .build();
    match built {
        Ok(re) => Ok(CompiledMatcher {
            regex: re, pattern: pattern.to_string(),
            case_insensitive, multi_line, dot_matches_new_line,
        }),
        Err(e) => Err(e.to_string()),
    }
}

/// Relies on `regex::Regex::is_match`: true if and only if there is a match
/// anywhere in the subject, that is, iff the scan finds at least one match.
#[verifier::external_body]
pub(crate) fn matcher_is_match(m: &CompiledMatcher, text: &str) -> (r: bool)
    ensures
        r == (matcher_spans(*m, text@).len() > 0),
{
    m.regex.is_match(text)
}

/// Relies on `regex::Regex::find`: the first match of the scan, if any, with
/// its byte offsets.
#[verifier::external_body]
pub(crate) fn matcher_find(m: &CompiledMatcher, text: &str) -> (r: Option<MatchSpan>)
    ensures
        r is Some <==> matcher_spans(*m, text@).len() > 0,
        (r matches Some(s) ==> s@ == byte_span(text@, matcher_spans(*m, text@)[0])),
{
    m.regex.find(text).map(|f| MatchSpan { start: f.start(), end: f.end() })
}

/// Relies on `regex::Regex::find_iter`: the successive non-overlapping matches
/// of the scan, in order, with byte offsets on character boundaries; the scan
/// lies within the subject and always advances past an empty match.
#[verifier::external_body]
pub(crate) fn matcher_find_all(m: &CompiledMatcher, text: &str) -> (r: Vec<MatchSpan>)
    ensures
        spans_view(r@) == byte_spans(
            text@,
            regex_found_spans(
                m.pattern_view(),
                m.case_insensitive_flag(),
                m.multi_line_flag(),
                m.dot_matches_new_line_flag(),
                text@,
            ),
        ),
        r@.len() == matcher_spans(*m, text@).len(),
        forall|i: int|
            0 <= i < r@.len() ==> 0 <= (#[trigger] matcher_spans(*m, text@)[i]).0 <= matcher_spans(
                *m,
                text@,
            )[i].1 <= text@.len(),
        forall|i: int|
            0 <= i && i + 1 < r@.len() ==> (#[trigger] matcher_spans(*m, text@)[i]).1 <= matcher_spans(
                *m,
                text@,
            )[i + 1].0,
        forall|i: int|
            0 <= i && i + 1 < r@.len() && (#[trigger] matcher_spans(*m, text@)[i + 1]).0
                == matcher_spans(*m, text@)[i + 1].1 ==> matcher_spans(*m, text@)[i].1
                < matcher_spans(*m, text@)[i + 1].0,
{
    m.regex.find_iter(text).map(|f| MatchSpan { start: f.start(), end: f.end() }).collect()
}

/// Relies on `regex::Regex::captures`: the capture set of the first match of
/// the scan, if any; slot 0 is the whole match.
#[verifier::external_body]
pub(crate) fn matcher_captures(m: &CompiledMatcher, text: &str) -> (r: Option<CaptureSet>)
    ensures
        r is Some <==> matcher_groups(*m, text@).len() > 0,
        (r matches Some(c) ==> c@ == capture_set_model(text@, matcher_groups(*m, text@)[0])),
{
    m.regex.captures(text).map(|caps| CaptureSet {
        groups: caps.iter().map(|og| og.map(|g| CapturedGroup {
            text: g.as_str().to_string(),
            span: MatchSpan { start: g.start(), end: g.end() },
        })).collect(),
    })
}

/// Relies on `regex::Regex::captures_iter`: one capture set per match of the
/// scan, in the same order; each set has the whole match in slot 0 and every
/// participating group lies within the subject.
#[verifier::external_body]
pub(crate) fn matcher_captures_all(m: &CompiledMatcher, text: &str) -> (r: Vec<CaptureSet>)
    ensures
        capture_sets_view(r@) == capture_models(
            text@,
            regex_group_spans(
                m.pattern_view(),
                m.case_insensitive_flag(),
                m.multi_line_flag(),
                m.dot_matches_new_line_flag(),
                text@,
            ),
        ),
        r@.len() == matcher_groups(*m, text@).len(),
        r@.len() == matcher_spans(*m, text@).len(),
        forall|i: int|
            0 <= i < r@.len() ==> (#[trigger] matcher_groups(*m, text@)[i]).len() >= 1
                && matcher_groups(*m, text@)[i][0] == Some(matcher_spans(*m, text@)[i]),
        forall|i: int, j: int|
            0 <= i < r@.len() && 0 <= j < matcher_groups(*m, text@)[i].len() ==> group_wf(
                text@.len() as int,
                #[trigger] matcher_groups(*m, text@)[i][j],
            ),
{
    m.regex.captures_iter(text).map(|caps| CaptureSet {
        groups: caps.iter().map(|og| og.map(|g| CapturedGroup {
            text: g.as_str().to_string(),
            span: MatchSpan { start: g.start(), end: g.end() },
        })).collect(),
    }).collect()
}

/// Relies on `regex::Regex::split`: the stretch of the subject before each
/// match of the scan, and after the last match the rest of the subject.
#[verifier::external_body]
pub(crate) fn matcher_split(m: &CompiledMatcher, text: &str) -> (r: Vec<String>)
    ensures
        strings_view(r@) == split_model(text@, matcher_spans(*m, text@)),
{
    m.regex.split(text).map(|part| part.to_string()).collect()
}

/// Turns a pattern and its flags into a compiled matcher, or reports the
/// engine's diagnostic text when the pattern is invalid.
pub fn compile(request: &PatternSpec) -> (r: Result<CompiledMatcher, CompileError>)
    ensures
        r is Ok <==> regex_compile_outcome(
            request.pattern@,
            request.case_insensitive,
            request.multi_line,
            request.dot_matches_new_line,
        ) is None,
        (r matches Ok(m) ==> m.pattern_view() == request.pattern@
            && m.case_insensitive_flag() == request.case_insensitive && m.multi_line_flag()
            == request.multi_line && m.dot_matches_new_line_flag()
            == request.dot_matches_new_line && m.wf()),
        (r matches Err(e) ==> regex_compile_outcome(
            request.pattern@,
            request.case_insensitive,
            request.multi_line,
            request.dot_matches_new_line,
        ) matches Some(msg) && e.message@ == msg && msg.len() > 0),
{
    match build_matcher(
        request.pattern.as_str(),
        request.case_insensitive,
        request.multi_line,
        request.dot_matches_new_line,
    ) {
        Ok(m) => Ok(m),
        Err(message) => Err(CompileError { message }),
    }
}

} // verus!
