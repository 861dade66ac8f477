//! Payloads stored as JSON columns, and the string-valued enums of the
//! problem and contest tables.

use vstd::prelude::*;
use crate::text::text_eq;

verus! {

/// One sample input and output shown with a problem.
#[derive(Debug, Clone, PartialEq)]
pub struct ExampleEntry {
    pub input: String,
    pub output: String,
}

/// A compiler flag offered for languages whose name matches `lang_regexpr`.
#[derive(Debug, Clone, PartialEq)]
pub struct ExtraParameterEntry {
    pub lang_regexpr: String,
    pub parameter: String,
    pub force: bool,
}

/// The compiler flags offered with a problem.
#[derive(Debug, Clone, PartialEq)]
pub struct ExtraParameter(pub Vec<ExtraParameterEntry>);

/// One test case of a subtask.
#[derive(Debug, Clone, PartialEq)]
pub struct ProblemTestcaseEntry {
    pub input: String,
    pub output: String,
    pub full_score: i64,
}

/// How the scores of a subtask's test cases combine.
#[derive(Debug, Clone, Copy, PartialEq, Eq)]
pub enum SubtaskJudgingMethod {
    Min,
    Sum,
}

/// A subtask of a problem.
#[derive(Debug, Clone, PartialEq)]
pub struct ProblemSubtaskEntry {
    pub name: String,
    pub score: i64,
    pub testcases: Vec<ProblemTestcaseEntry>,
    pub time_limit: i64,
    pub memory_limit: i64,
    pub comment: String,
    pub method: SubtaskJudgingMethod,
}

/// A problem of another judge listed in a problem set.
#[derive(Debug, Clone, PartialEq)]
pub struct ForeignProblemEntry {
    pub name: String,
    pub url: String,
}

/// The judged result of one test case.
#[derive(Debug, Clone, PartialEq)]
pub struct SubmissionTestcaseResult {
    pub full_score: i32,
    pub input: String,
    pub output: String,
    pub status: String,
    pub score: i32,
    pub message: String,
    pub time_cost: i64,
    pub memory_cost: i64,
}

/// The judged result of one subtask.
#[derive(Debug, Clone, PartialEq)]
pub struct SubmissionSubtaskResult {
    pub score: i32,
    pub status: String,
    pub testcases: Vec<SubmissionTestcaseResult>,
}

/// An entry below a top-level wiki menu.
#[derive(Debug, Clone, PartialEq)]
pub struct SubMenu {
    pub title: String,
    pub target: i32,
    pub external_link: Option<String>,
}

/// A top-level wiki menu.
#[derive(Debug, Clone, PartialEq)]
pub struct WikiNavigationMenu {
    pub title: String,
    pub target: i32,
    pub external_link: Option<String>,
    pub children: Vec<SubMenu>,
}

/// A text that names no variant of a string-valued enum.
#[derive(Debug, Clone, PartialEq)]
pub struct UnknownVariant {
    /// What the value was meant to be, such as `rank criterion`.
    pub what: String,
    /// The text that was given.
    pub given: String,
}

impl UnknownVariant {
    /// The message `Invalid <what>: <given>`.
    pub fn message(&self) -> (res: String)
        ensures
            res@ == "Invalid "@ + self.what@ + ": "@ + self.given@,
    {
        let mut s = String::from_str("Invalid ");
        s.append(self.what.as_str());
        s.append(": ");
        s.append(self.given.as_str());
        s
    }
}

/// How the contest ranklist orders contestants.
#[derive(Debug, Clone, Copy, PartialEq, Eq)]
pub enum RankCriterion {
    MaxScore,
    LastSubmit,
    Penalty,
}

impl RankCriterion {
    /// The value stored in the database.
    pub open spec fn db_text(self) -> Seq<char> {
        match self {
            RankCriterion::MaxScore => "max_score"@,
            RankCriterion::LastSubmit => "last_submit"@,
            RankCriterion::Penalty => "penalty"@,
        }
    }

    /// Reads the stored value.
    pub fn from_str(s: &str) -> (res: Result<RankCriterion, UnknownVariant>)
        ensures
            match res {
                Ok(c) => c.db_text() == s@,
                Err(e) => e.what@ == "rank criterion"@ && e.given@ == s@
                    && !(s@ == "max_score"@ || s@ == "last_submit"@ || s@ == "penalty"@),
            },
    {
        if text_eq(s, "max_score") {
            Ok(RankCriterion::MaxScore)
        } else if text_eq(s, "last_submit") {
            Ok(RankCriterion::LastSubmit)
        } else if text_eq(s, "penalty") {
            Ok(RankCriterion::Penalty)
        } else {
            Err(UnknownVariant { what: String::from_str("rank criterion"), given: String::from_str(s) })
        }
    }
}

impl Default for RankCriterion {
    fn default() -> (res: RankCriterion)
        ensures
            res == RankCriterion::MaxScore,
    {
        RankCriterion::MaxScore
    }
}

/// How a problem is judged.
#[derive(Debug, Clone, Copy, PartialEq, Eq)]
pub enum ProblemType {
    Traditional,
    RemoteJudge,
    SubmitAnswer,
}

impl ProblemType {
    /// The value stored in the database.
    pub open spec fn db_text(self) -> Seq<char> {
        match self {
            ProblemType::Traditional => "traditional"@,
            ProblemType::RemoteJudge => "remote_judge"@,
            ProblemType::SubmitAnswer => "submit_answer"@,
        }
    }

    /// Reads the stored value.
    pub fn from_str(s: &str) -> (res: Result<ProblemType, UnknownVariant>)
        ensures
            match res {
                Ok(t) => t.db_text() == s@,
                Err(e) => e.what@ == "problem type"@ && e.given@ == s@
                    && !(s@ == "traditional"@ || s@ == "remote_judge"@ || s@ == "submit_answer"@),
            },
    {
        if text_eq(s, "traditional") {
            Ok(ProblemType::Traditional)
        } else if text_eq(s, "remote_judge") {
            Ok(ProblemType::RemoteJudge)
        } else if text_eq(s, "submit_answer") {
            Ok(ProblemType::SubmitAnswer)
        } else {
            Err(UnknownVariant { what: String::from_str("problem type"), given: String::from_str(s) })
        }
    }
}

impl Default for ProblemType {
    fn default() -> (res: ProblemType)
        ensures
            res == ProblemType::Traditional,
    {
        ProblemType::Traditional
    }
}

/// The state of a submission.
#[derive(Debug, Clone, Copy, PartialEq, Eq)]
pub enum SubmissionStatus {
    Waiting,
    Judging,
    Accepted,
    Unaccepted,
    Unknown,
    CompileError,
}

impl SubmissionStatus {
    /// The value stored in the database.
    pub open spec fn db_text(self) -> Seq<char> {
        match self {
            SubmissionStatus::Waiting => "waiting"@,
            SubmissionStatus::Judging => "judging"@,
            SubmissionStatus::Accepted => "accepted"@,
            SubmissionStatus::Unaccepted => "unaccepted"@,
            SubmissionStatus::Unknown => "unknown"@,
            SubmissionStatus::CompileError => "compile_error"@,
        }
    }

    /// The value stored in the database.
    pub fn db_value(&self) -> (res: String)
        ensures
            res@ == self.db_text(),
    {
        match self {
            SubmissionStatus::Waiting => String::from_str("waiting"),
            SubmissionStatus::Judging => String::from_str("judging"),
            SubmissionStatus::Accepted => String::from_str("accepted"),
            SubmissionStatus::Unaccepted => String::from_str("unaccepted"),
            SubmissionStatus::Unknown => String::from_str("unknown"),
            SubmissionStatus::CompileError => String::from_str("compile_error"),
        }
    }

    /// Reads the stored value.
    pub fn from_str(s: &str) -> (res: Result<SubmissionStatus, UnknownVariant>)
        ensures
            match res {
                Ok(t) => t.db_text() == s@,
                Err(e) => e.what@ == "submission status"@ && e.given@ == s@
                    && !(s@ == "waiting"@ || s@ == "judging"@ || s@ == "accepted"@
                        || s@ == "unaccepted"@ || s@ == "unknown"@ || s@ == "compile_error"@),
            },
    {
        if text_eq(s, "waiting") {
            Ok(SubmissionStatus::Waiting)
        } else if text_eq(s, "judging") {
            Ok(SubmissionStatus::Judging)
        } else if text_eq(s, "accepted") {
            Ok(SubmissionStatus::Accepted)
        } else if text_eq(s, "unaccepted") {
            Ok(SubmissionStatus::Unaccepted)
        } else if text_eq(s, "unknown") {
            Ok(SubmissionStatus::Unknown)
        } else if text_eq(s, "compile_error") {
            Ok(SubmissionStatus::CompileError)
        } else {
            Err(UnknownVariant { what: String::from_str("submission status"), given: String::from_str(s) })
        }
    }
}

/// The kind of a preliminary-round question.
#[derive(Debug, Clone, Copy, PartialEq, Eq)]
pub enum PreliminaryProblemType {
    Selection,
    FillBlank,
}

impl PreliminaryProblemType {
    /// The value stored in the database.
    pub open spec fn db_text(self) -> Seq<char> {
        match self {
            PreliminaryProblemType::Selection => "selection"@,
            PreliminaryProblemType::FillBlank => "fill_blank"@,
        }
    }

    /// The value stored in the database.
    pub fn db_value(&self) -> (res: String)
        ensures
            res@ == self.db_text(),
    {
        match self {
            PreliminaryProblemType::Selection => String::from_str("selection"),
            PreliminaryProblemType::FillBlank => String::from_str("fill_blank"),
        }
    }

    /// Reads the stored value.
    pub fn from_str(s: &str) -> (res: Result<PreliminaryProblemType, UnknownVariant>)
        ensures
            match res {
                Ok(t) => t.db_text() == s@,
                Err(e) => e.what@ == "preliminary problem type"@ && e.given@ == s@
                    && !(s@ == "selection"@ || s@ == "fill_blank"@),
            },
    {
        if text_eq(s, "selection") {
            Ok(PreliminaryProblemType::Selection)
        } else if text_eq(s, "fill_blank") {
            Ok(PreliminaryProblemType::FillBlank)
        } else {
            Err(UnknownVariant { what: String::from_str("preliminary problem type"), given: String::from_str(s) })
        }
    }
}

/// Whether an extra-parameter entry is the one with the given fields.
pub open spec fn is_entry(e: ExtraParameterEntry, lang: Seq<char>, parameter: Seq<char>) -> bool {
    e.lang_regexpr@ == lang && e.parameter@ == parameter && !e.force
}

fn entry(lang: &str, parameter: &str) -> (res: ExtraParameterEntry)
    ensures
        is_entry(res, lang@, parameter@),
{
    ExtraParameterEntry { lang_regexpr: String::from_str(lang), parameter: String::from_str(parameter), force: false }
}

impl Default for ExtraParameter {
    /// The four C++ standards and `-O2` for every language, none forced.
    fn default() -> (res: ExtraParameter)
        ensures
            res.0@.len() == 5,
            is_entry(res.0@[0], "cpp"@, "-std=c++98"@),
            is_entry(res.0@[1], "cpp"@, "-std=c++11"@),
            is_entry(res.0@[2], "cpp"@, "-std=c++14"@),
            is_entry(res.0@[3], "cpp"@, "-std=c++17"@),
            is_entry(res.0@[4], ".*"@, "-O2"@),
    {
        let mut v: Vec<ExtraParameterEntry> = Vec::new();
        v.push(entry("cpp", "-std=c++98"));
        v.push(entry("cpp", "-std=c++11"));
        v.push(entry("cpp", "-std=c++14"));
        v.push(entry("cpp", "-std=c++17"));
        v.push(entry(".*", "-O2"));
        ExtraParameter(v)
    }
}

} // verus!
