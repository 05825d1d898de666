use gmat_zalo_bot::catalog::QuestionType;
use gmat_zalo_bot::hosting::{
    asset_file_name, asset_upload_url, check_release_answer, check_release_lookup, check_upload, latest_release_url, read_release_id, release_id_or_error,
    release_lookup_error, release_name,
    release_url, upload_base, upload_error, HostingError,
};
use gmat_zalo_bot::html::{
    generate_html_content, generate_html_content_impl, generate_html_content_without_explanations,
    QuestionContent,
};

fn content(answers: usize, explanations: usize) -> QuestionContent {
    QuestionContent {
        id: "314".to_string(),
        src: "https://gmatclub.example/t/314".to_string(),
        explanations: (0..explanations).map(|i| format!("why {}", i)).collect(),
        question_type: "PS".to_string(),
        question: "Is $x > 0$?".to_string(),
        answers: (0..answers).map(|i| format!("choice {}", i)).collect(),
    }
}

#[test]
fn page_holds_every_part() {
    let html = generate_html_content(&content(5, 2), &QuestionType::PS);
    assert!(html.starts_with("\n<!DOCTYPE html>\n<html lang=\"en\">"));
    assert!(html.contains("<title>GMAT Question 314</title>"));
    assert!(html.contains("<div class=\"question-id\">Question ID: 314</div>"));
    assert!(html.contains("<h1 class=\"question-type\">Problem Solving</h1>"));
    assert!(html.contains("Is $x > 0$?"));
    assert!(html.contains("<div class=\"answer-option\"><strong>A)</strong> choice 0</div>\n<div class=\"answer-option\"><strong>B)</strong> choice 1</div>"));
    assert!(html.contains("<strong>E)</strong> choice 4</div>"));
    assert!(html.contains("<div class=\"explanation\"><h4>Explanation 1:</h4>why 0</div>\n<div class=\"explanation\"><h4>Explanation 2:</h4>why 1</div>"));
    assert!(html.contains("<a href=\"https://gmatclub.example/t/314\" target=\"_blank\">https://gmatclub.example/t/314</a>"));
    assert!(html.contains("background: #0068ff;"));
    assert!(html.contains("function setReady() {"));
    assert!(html.ends_with("</body>\n</html>\n    "));
}

#[test]
fn labels_after_the_fifth_answer_are_numbers() {
    let html = generate_html_content(&content(7, 0), &QuestionType::DS);
    assert!(html.contains("<strong>6)</strong> choice 5</div>"));
    assert!(html.contains("<strong>7)</strong> choice 6</div>"));
}

#[test]
fn explanations_only_when_asked_for() {
    let without = generate_html_content_without_explanations(&content(2, 2), &QuestionType::SC);
    assert!(!without.contains("explanations-section\">"));
    assert!(!without.contains("why 0"));
    assert_eq!(without, generate_html_content_impl(&content(2, 2), &QuestionType::SC, false));
    let with = generate_html_content_impl(&content(2, 2), &QuestionType::SC, true);
    assert!(with.contains("<div class=\"explanations-section\">\n            <h3>Explanations:</h3>"));
}

#[test]
fn empty_sections_are_left_out() {
    let html = generate_html_content(&content(0, 0), &QuestionType::CR);
    assert!(!html.contains("<div class=\"answers-section\">"));
    assert!(!html.contains("<div class=\"explanations-section\">"));
}

#[test]
fn hosting_names_and_urls() {
    assert_eq!(
        upload_base("https://uploads.github.com/repos/o/r/releases/1/assets{?name,label}"),
        "https://uploads.github.com/repos/o/r/releases/1/assets"
    );
    assert_eq!(upload_base("no-template"), "no-template");
    assert_eq!(asset_file_name("question_42", 1700000000), "question_42__1700000000.png");
    assert_eq!(asset_upload_url("https://u/a", "f.png"), "https://u/a?name=f.png");
    assert_eq!(release_url("o/r", 77), "https://api.github.com/repos/o/r/releases/77");
    assert_eq!(latest_release_url("o/r"), "https://api.github.com/repos/o/r/releases/latest");
    assert_eq!(release_name("v1.0.0"), "GMAT Bot Images - v1.0.0");
}

#[test]
fn hosting_errors_by_status() {
    assert_eq!(
        release_lookup_error(404, "o/r".to_string(), 5, "nf".to_string()),
        HostingError::ReleaseNotFound { repo: "o/r".to_string(), release_id: 5 }
    );
    assert_eq!(
        release_lookup_error(500, "o/r".to_string(), 5, "boom".to_string()),
        HostingError::ReleaseLookup { status: 500, body: "boom".to_string() }
    );
    assert_eq!(
        upload_error(422, "f.png".to_string(), "exists".to_string()),
        HostingError::DuplicateAsset { file_name: "f.png".to_string(), detail: "exists".to_string() }
    );
    assert_eq!(
        upload_error(401, "f.png".to_string(), "auth".to_string()),
        HostingError::Upload { status: 401, body: "auth".to_string() }
    );
}

#[test]
fn release_id_is_read_from_the_answer() {
    assert_eq!(read_release_id("{\"id\": 77, \"name\": \"v1\"}"), Ok(77));
    assert_eq!(read_release_id("{\"name\": \"v1\"}"), Err(HostingError::MissingReleaseId));
    assert_eq!(read_release_id("{\"id\": \"77\"}"), Err(HostingError::MissingReleaseId));
    assert_eq!(read_release_id("not json"), Err(HostingError::MissingReleaseId));
    assert_eq!(release_id_or_error(Some(3)), Ok(3));
    assert_eq!(release_id_or_error(None), Err(HostingError::MissingReleaseId));
}

#[test]
fn hosting_answers_are_checked_by_status() {
    assert_eq!(check_release_answer(201, "{}".to_string()), Ok(()));
    assert_eq!(
        check_release_answer(403, "forbidden".to_string()),
        Err(HostingError::ReleaseRequest { status: 403, body: "forbidden".to_string() })
    );
    assert_eq!(check_release_lookup(200, "o/r".to_string(), 5, String::new()), Ok(()));
    assert_eq!(
        check_release_lookup(404, "o/r".to_string(), 5, "nf".to_string()),
        Err(HostingError::ReleaseNotFound { repo: "o/r".to_string(), release_id: 5 })
    );
    assert_eq!(
        check_release_lookup(500, "o/r".to_string(), 5, "boom".to_string()),
        Err(HostingError::ReleaseLookup { status: 500, body: "boom".to_string() })
    );
    assert_eq!(check_upload(201, "f.png".to_string(), String::new()), Ok(()));
    assert_eq!(
        check_upload(422, "f.png".to_string(), "exists".to_string()),
        Err(HostingError::DuplicateAsset { file_name: "f.png".to_string(), detail: "exists".to_string() })
    );
    assert_eq!(
        check_upload(500, "f.png".to_string(), "x".to_string()),
        Err(HostingError::Upload { status: 500, body: "x".to_string() })
    );
}
