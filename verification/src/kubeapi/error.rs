//! A short error answer: status, message, reason and code.
use vstd::prelude::*;

use crate::ext::status::{message, message_spec};
use crate::model::ResourceType;

verus! {

#[derive(Clone, Copy, Debug, PartialEq, Eq)]
pub enum Status {
    Success,
    Failure,
}

#[derive(Clone, Copy, Debug, PartialEq, Eq)]
pub enum Reason {
    NotFound,
}

/// An error answer.
#[derive(Debug)]
pub struct ErrorResponse {
    status: Status,
    message: String,
    reason: Reason,
    code: u16,
}

pub struct ErrorResponseView {
    pub status: Status,
    pub message: Seq<char>,
    pub reason: Reason,
    pub code: u16,
}

impl View for ErrorResponse {
    type V = ErrorResponseView;

    closed spec fn view(&self) -> ErrorResponseView {
        ErrorResponseView {
            status: self.status,
            message: self.message@,
            reason: self.reason,
            code: self.code,
        }
    }
}

/// `http::StatusCode::NOT_FOUND` as a number.
#[verifier::external_body]
fn status_not_found() -> (res: u16)
    ensures
        res == 404,
{
    http::StatusCode::NOT_FOUND.as_u16()
}

impl ErrorResponse {
    /// Object `name` of the resource does not exist.
    pub fn not_found(resource: &ResourceType, name: &str) -> (res: Self)
        ensures
            res@ == (ErrorResponseView {
                status: Status::Failure,
                message: message_spec(resource@, name@, "not found"@),
                reason: Reason::NotFound,
                code: 404,
            }),
    {
        ErrorResponse {
            status: Status::Failure,
            message: message(resource, name, "not found"),
            reason: Reason::NotFound,
            code: status_not_found(),
        }
    }

    pub fn status(&self) -> (res: Status)
        ensures
            res == self@.status,
    {
        self.status
    }

    pub fn message(&self) -> (res: &str)
        ensures
            res@ == self@.message,
    {
        self.message.as_str()
    }

    pub fn reason(&self) -> (res: Reason)
        ensures
            res == self@.reason,
    {
        self.reason
    }

    pub fn code(&self) -> (res: u16)
        ensures
            res == self@.code,
    {
        self.code
    }
}

} // verus!
