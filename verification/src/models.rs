//! The data model of the question-and-answer service: questions,
//! answers, their stored details, and the store's error type, together
//! with the identifier validation that every store operation performs
//! before touching the database.
//!
//! Identifiers are UUID strings. Whether a string is acceptable is
//! decided by the uuid crate's parser; its verdict is named
//! [`uuid_wf`] and the validation functions are specified against it.
use vstd::prelude::*;

verus! {

/// A question as submitted: a title and a description.
pub struct Question {
    /// The question's title.
    pub title: String,
    /// The question's description.
    pub description: String,
}

/// A stored question, as the store returns it.
#[derive(Debug, PartialEq, Clone)]
pub struct QuestionDetail {
    /// The identifier the store assigned.
    pub question_uuid: String,
    /// The question's title.
    pub title: String,
    /// The question's description.
    pub description: String,
    /// When the question was recorded, rendered as text.
    pub created_at: String,
}

/// Names one question by its identifier.
pub struct QuestionId {
    /// The identifier of the question.
    pub question_uuid: String,
}

/// An answer as submitted: the question it answers and its content.
pub struct Answer {
    /// The identifier of the question being answered.
    pub question_uuid: String,
    /// The answer's content.
    pub content: String,
}

/// A stored answer, as the store returns it.
#[derive(Debug, Clone, PartialEq)]
pub struct AnswerDetail {
    /// The identifier the store assigned to the answer.
    pub answer_uuid: String,
    /// The identifier of the question being answered.
    pub question_uuid: String,
    /// The answer's content.
    pub content: String,
    /// When the answer was recorded, rendered as text.
    pub created_at: String,
}

/// Names one answer by its identifier.
pub struct AnswerId {
    /// The identifier of the answer.
    pub answer_uuid: String,
}

/// What can go wrong in the store.
#[derive(Debug)]
pub enum DBError {
    /// The given identifier is not a valid UUID; holds the parser's
    /// description of the fault.
    InvalidUUID(String),
    /// Any other database fault, rendered as text.
    Other(String),
}

/// Whether the uuid crate's parser accepts this string. It depends on
/// the string alone.
pub uninterp spec fn uuid_wf(s: Seq<char>) -> bool;

/// Relies on `Uuid::parse_str`: acceptance depends on the string alone;
/// on refusal the parser's error is rendered as text.
#[verifier::external_body]
fn parse_uuid(s: &str) -> (r: Option<String>)
    ensures
        r is None <==> uuid_wf(s@),
{
    match uuid::Uuid::parse_str(s) {
        Ok(_) => None,
        Err(e) => Some(e.to_string()),
    }
}

/// Checks an identifier the way every store operation does: accepted
/// exactly when the uuid crate's parser accepts it, refused with
/// [`DBError::InvalidUUID`] otherwise.
pub fn validate_uuid(s: &String) -> (r: Result<(), DBError>)
    ensures
        r is Ok <==> uuid_wf(s@),
        r is Err ==> r->Err_0 is InvalidUUID,
{
    match parse_uuid(s.as_str()) {
        None => Ok(()),
        Some(e) => Err(DBError::InvalidUUID(e)),
    }
}

} // verus!
