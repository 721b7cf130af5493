//! The data the engine takes and returns: the pattern request, the per-input
//! report and the whole evaluation outcome, each with its view onto the model.

use crate::model::{
    EvaluationModel, GroupModel, InputReportModel, SpanModel,
};
use vstd::prelude::*;

verus! {

/// A pattern together with the three matching flags, as a caller submits it.
#[derive(Clone, Debug, PartialEq, Eq)]
pub struct PatternSpec {
    pub pattern: String,
    pub case_insensitive: bool,
    pub multi_line: bool,
    pub dot_matches_new_line: bool,
}

/// A rejected pattern: the engine's diagnostic text, verbatim.
#[derive(Clone, Debug, PartialEq, Eq)]
pub struct CompileError {
    pub message: String,
}

/// Half-open byte-offset range `[start, end)` into the subject string.
#[derive(Clone, Copy, Debug, PartialEq, Eq)]
pub struct MatchSpan {
    pub start: usize,
    pub end: usize,
}

impl View for MatchSpan {
    type V = SpanModel;

    open spec fn view(&self) -> SpanModel {
        SpanModel { start: self.start as int, end: self.end as int }
    }
}

/// A captured group: the text it matched and where in the subject.
#[derive(Clone, Debug, PartialEq, Eq)]
pub struct CapturedGroup {
    pub text: String,
    pub span: MatchSpan,
}

impl View for CapturedGroup {
    type V = GroupModel;

    open spec fn view(&self) -> GroupModel {
        GroupModel { text: self.text@, span: self.span@ }
    }
}

/// The groups of one match: slot 0 is the whole match, the others are the
/// parenthesized groups in declaration order, `None` where a group did not
/// participate.
#[derive(Clone, Debug, PartialEq, Eq)]
pub struct CaptureSet {
    pub groups: Vec<Option<CapturedGroup>>,
}

/// The view of one capture-set slot.
pub open spec fn opt_group_view(g: Option<CapturedGroup>) -> Option<GroupModel> {
    match g {
        Option::None => Option::None,
        Option::Some(c) => Option::Some(c@),
    }
}

/// The view of a capture set's slots.
pub open spec fn groups_view(v: Seq<Option<CapturedGroup>>) -> Seq<Option<GroupModel>> {
    v.map_values(|g: Option<CapturedGroup>| opt_group_view(g))
}

impl View for CaptureSet {
    type V = Seq<Option<GroupModel>>;

    open spec fn view(&self) -> Seq<Option<GroupModel>> {
        groups_view(self.groups@)
    }
}

/// The view of an optional span.
pub open spec fn opt_span_view(s: Option<MatchSpan>) -> Option<SpanModel> {
    match s {
        Option::None => Option::None,
        Option::Some(sp) => Option::Some(sp@),
    }
}

/// The view of an optional capture set.
pub open spec fn opt_capture_view(c: Option<CaptureSet>) -> Option<Seq<Option<GroupModel>>> {
    match c {
        Option::None => Option::None,
        Option::Some(cs) => Option::Some(cs@),
    }
}

/// The view of a list of spans.
pub open spec fn spans_view(v: Seq<MatchSpan>) -> Seq<SpanModel> {
    v.map_values(|s: MatchSpan| s@)
}

/// The view of a list of capture sets.
pub open spec fn capture_sets_view(v: Seq<CaptureSet>) -> Seq<Seq<Option<GroupModel>>> {
    v.map_values(|c: CaptureSet| c@)
}

/// The view of a list of strings.
pub open spec fn strings_view(v: Seq<String>) -> Seq<Seq<char>> {
    v.map_values(|s: String| s@)
}

/// The report for one input string: its original 1-based position, the raw
/// input, and the six operation results, all as plain unescaped data.
#[derive(Clone, Debug, PartialEq, Eq)]
pub struct InputReport {
    pub index: usize,
    pub raw_input: String,
    pub is_match: bool,
    pub first_match: Option<MatchSpan>,
    pub all_matches: Vec<MatchSpan>,
    pub first_capture: Option<CaptureSet>,
    pub all_captures: Vec<CaptureSet>,
    pub split_parts: Vec<String>,
}

impl View for InputReport {
    type V = InputReportModel;

    open spec fn view(&self) -> InputReportModel {
        InputReportModel {
            index: self.index as int,
            raw_input: self.raw_input@,
            is_match: self.is_match,
            first_match: opt_span_view(self.first_match),
            all_matches: spans_view(self.all_matches@),
            first_capture: opt_capture_view(self.first_capture),
            all_captures: capture_sets_view(self.all_captures@),
            split_parts: strings_view(self.split_parts@),
        }
    }
}

/// The view of a list of input reports.
pub open spec fn reports_view(v: Seq<InputReport>) -> Seq<InputReportModel> {
    v.map_values(|r: InputReport| r@)
}

/// The outcome of one evaluation: the pattern did not compile, every input was
/// blank, or one report per non-blank input.
#[derive(Clone, Debug, PartialEq, Eq)]
pub enum EvaluationReport {
    CompileError { message: String },
    NoInputsAdvisory,
    Success { input_reports: Vec<InputReport> },
}

impl View for EvaluationReport {
    type V = EvaluationModel;

    open spec fn view(&self) -> EvaluationModel {
        match self {
            EvaluationReport::CompileError { message } => EvaluationModel::CompileError {
                message: message@,
            },
            EvaluationReport::NoInputsAdvisory => EvaluationModel::NoInputsAdvisory,
            EvaluationReport::Success { input_reports } => EvaluationModel::Success {
                input_reports: reports_view(input_reports@),
            },
        }
    }
}

} // verus!
