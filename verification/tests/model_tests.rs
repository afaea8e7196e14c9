use concurrency::models::{validate_uuid, Answer, AnswerDetail, DBError, Question, QuestionDetail};

#[test]
fn accepts_a_hyphenated_uuid() {
    let id = "67e55044-10b1-426f-9247-bb680e5fe0c8".to_owned();
    assert!(validate_uuid(&id).is_ok());
}

#[test]
fn rejects_a_malformed_uuid() {
    let id = "not-a-uuid".to_owned();
    let err = validate_uuid(&id).unwrap_err();
    assert!(matches!(err, DBError::InvalidUUID(_)));
}

#[test]
fn rejects_an_empty_uuid() {
    let id = String::new();
    assert!(validate_uuid(&id).is_err());
}

#[test]
fn question_details_compare_by_fields() {
    let question = Question {
        title: "Toto title".to_owned(),
        description: "Toto description".to_owned(),
    };
    let detail = QuestionDetail {
        question_uuid: "67e55044-10b1-426f-9247-bb680e5fe0c8".to_owned(),
        title: question.title.clone(),
        description: question.description.clone(),
        created_at: "2024-01-01 00:00:00".to_owned(),
    };
    assert_eq!(detail, detail.clone());
}

#[test]
fn answer_details_compare_by_fields() {
    let answer = Answer {
        question_uuid: "67e55044-10b1-426f-9247-bb680e5fe0c8".to_owned(),
        content: "Answer content".to_owned(),
    };
    let detail = AnswerDetail {
        answer_uuid: "936da01f-9abd-4d9d-80c7-02af85c822a8".to_owned(),
        question_uuid: answer.question_uuid.clone(),
        content: answer.content.clone(),
        created_at: "2024-01-01 00:00:00".to_owned(),
    };
    assert_eq!(detail, detail.clone());
}
