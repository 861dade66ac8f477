use hellojudge_core::entity_model::{
    ExtraParameter, PreliminaryProblemType, ProblemType, RankCriterion, SubmissionStatus, UnknownVariant,
};

#[test]
fn rank_criterion_reads_stored_values() {
    assert_eq!(RankCriterion::from_str("max_score"), Ok(RankCriterion::MaxScore));
    assert_eq!(RankCriterion::from_str("last_submit"), Ok(RankCriterion::LastSubmit));
    assert_eq!(RankCriterion::from_str("penalty"), Ok(RankCriterion::Penalty));
    let e = RankCriterion::from_str("Penalty").unwrap_err();
    assert_eq!(e.message(), "Invalid rank criterion: Penalty");
    assert_eq!(RankCriterion::default(), RankCriterion::MaxScore);
}

#[test]
fn problem_type_reads_stored_values() {
    assert_eq!(ProblemType::from_str("traditional"), Ok(ProblemType::Traditional));
    assert_eq!(ProblemType::from_str("remote_judge"), Ok(ProblemType::RemoteJudge));
    assert_eq!(ProblemType::from_str("submit_answer"), Ok(ProblemType::SubmitAnswer));
    assert_eq!(
        ProblemType::from_str(""),
        Err(UnknownVariant { what: "problem type".to_string(), given: String::new() })
    );
    assert_eq!(ProblemType::from_str("x").unwrap_err().message(), "Invalid problem type: x");
    assert_eq!(ProblemType::default(), ProblemType::Traditional);
}

#[test]
fn default_extra_parameters() {
    let p = ExtraParameter::default();
    let got: Vec<(&str, &str, bool)> =
        p.0.iter().map(|e| (e.lang_regexpr.as_str(), e.parameter.as_str(), e.force)).collect();
    assert_eq!(
        got,
        vec![
            ("cpp", "-std=c++98", false),
            ("cpp", "-std=c++11", false),
            ("cpp", "-std=c++14", false),
            ("cpp", "-std=c++17", false),
            (".*", "-O2", false),
        ]
    );
}

#[test]
fn submission_status_round_trips_through_stored_values() {
    let all = [
        (SubmissionStatus::Waiting, "waiting"),
        (SubmissionStatus::Judging, "judging"),
        (SubmissionStatus::Accepted, "accepted"),
        (SubmissionStatus::Unaccepted, "unaccepted"),
        (SubmissionStatus::Unknown, "unknown"),
        (SubmissionStatus::CompileError, "compile_error"),
    ];
    for (status, text) in all {
        assert_eq!(status.db_value(), text);
        assert_eq!(SubmissionStatus::from_str(text), Ok(status));
    }
    assert_eq!(SubmissionStatus::from_str("Accepted").unwrap_err().message(), "Invalid submission status: Accepted");
}

#[test]
fn preliminary_problem_type_round_trips_through_stored_values() {
    assert_eq!(PreliminaryProblemType::Selection.db_value(), "selection");
    assert_eq!(PreliminaryProblemType::FillBlank.db_value(), "fill_blank");
    assert_eq!(PreliminaryProblemType::from_str("selection"), Ok(PreliminaryProblemType::Selection));
    assert_eq!(PreliminaryProblemType::from_str("fill_blank"), Ok(PreliminaryProblemType::FillBlank));
    assert_eq!(
        PreliminaryProblemType::from_str("fill-blank"),
        Err(UnknownVariant { what: "preliminary problem type".to_string(), given: "fill-blank".to_string() })
    );
}
