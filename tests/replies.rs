use gmat_zalo_bot::catalog::{GmatDatabase, QuestionType};
use gmat_zalo_bot::command::Command;
use gmat_zalo_bot::handler::{
    failure_notice, plan_reply, Reply, HELP_TEXT, PROCESSING_FAILED_TEXT, PROCESSING_TEXT,
    REQUEST_FAILED_TEXT,
};
use gmat_zalo_bot::pipeline::{Action, DeliveryError, Outcome, Stage};

fn database() -> GmatDatabase {
    GmatDatabase {
        reading_comprehension: vec!["r1".to_string()],
        sentence_correction: vec![],
        critical_reasoning: vec!["c1".to_string()],
        problem_solving: vec!["p1".to_string(), "p2".to_string()],
        data_sufficiency: vec!["d1".to_string()],
    }
}

#[test]
fn number_requests_that_question_with_explanations() {
    match plan_reply("42", "chat", &database()) {
        Reply::Deliver { notice, job, first } => {
            assert_eq!(notice, "⏳ Fetching question #42...");
            assert_eq!(job.question_id, "42");
            assert_eq!(job.question_type, QuestionType::PS);
            assert!(job.show_explanations);
            assert_eq!(job.recipients, vec!["chat".to_string()]);
            assert_eq!(job.stage, Stage::Fetching);
            assert_eq!(first, Action::Fetch { id: "42".to_string(), delay_millis: 0 });
        }
        other => panic!("unexpected {:?}", other),
    }
}

#[test]
fn abbreviation_requests_a_random_question_without_explanations() {
    match plan_reply(" Ps ", "chat", &database()) {
        Reply::Deliver { notice, job, first } => {
            assert_eq!(notice, PROCESSING_TEXT);
            assert_eq!(job.question_type, QuestionType::PS);
            assert!(job.question_id == "p1" || job.question_id == "p2");
            assert!(!job.show_explanations);
            assert_eq!(first, Action::Fetch { id: job.question_id.clone(), delay_millis: 0 });
        }
        other => panic!("unexpected {:?}", other),
    }
}

#[test]
fn unsupported_or_empty_kind_gets_an_apology() {
    match plan_reply("rc", "chat", &database()) {
        Reply::Apologize { notice, apology } => {
            assert_eq!(notice, "⏳ Processing your request, please wait...");
            assert_eq!(
                apology,
                "⚠️ Sorry, no Reading Comprehension questions are available at the moment. Please try another type."
            );
        }
        other => panic!("unexpected {:?}", other),
    }
    match plan_reply("SC", "chat", &database()) {
        Reply::Apologize { notice, apology } => {
            assert_eq!(notice, PROCESSING_TEXT);
            assert!(apology.contains("no Sentence Correction questions"));
        }
        other => panic!("unexpected {:?}", other),
    }
}

#[test]
fn other_text_gets_the_help_text() {
    for text in ["", "hello", "xyz"] {
        match plan_reply(text, "chat", &database()) {
            Reply::Text(t) => {
                assert_eq!(t, HELP_TEXT);
                assert!(t.starts_with("Hello! 👋 I'm your GMAT practice bot."));
            }
            other => panic!("unexpected {:?}", other),
        }
    }
}

#[test]
fn failure_notices() {
    let by_id = Command::RequestById("42".to_string());
    let by_kind = Command::RequestByCategory(QuestionType::PS);
    assert_eq!(failure_notice(&by_id, &Outcome::Delivered(vec![])), None);
    assert_eq!(
        failure_notice(&by_id, &Outcome::Failed(DeliveryError::NotFound("42".to_string()))),
        Some("💁 We don't have the question #42 your are looking for. Please try another one.".to_string())
    );
    assert_eq!(
        failure_notice(&by_id, &Outcome::Failed(DeliveryError::Render("x".to_string()))),
        Some(PROCESSING_FAILED_TEXT.to_string())
    );
    assert_eq!(
        failure_notice(&by_kind, &Outcome::Failed(DeliveryError::Transport("x".to_string()))),
        Some(REQUEST_FAILED_TEXT.to_string())
    );
    assert_eq!(
        failure_notice(
            &by_kind,
            &Outcome::PartiallyDelivered { delivered: vec![], failed: vec!["a".to_string()] }
        ),
        Some(REQUEST_FAILED_TEXT.to_string())
    );
    assert_eq!(failure_notice(&Command::ShowHelp, &Outcome::Failed(DeliveryError::Api(String::new()))), None);
}
