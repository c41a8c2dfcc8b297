//! What the HTTP endpoints answer.
use vstd::prelude::*;

use crate::services::{ServiceError, ServiceErrorView};

verus! {

/// An HTTP answer with a plain-text body.
#[derive(Clone, Debug, PartialEq, Eq)]
pub struct HttpReply {
    pub status: u16,
    pub body: String,
}

/// Status 200.
pub open spec fn status_ok() -> u16 {
    200
}

/// Status 400.
pub open spec fn status_bad_request() -> u16 {
    400
}

/// Status 404.
pub open spec fn status_not_found() -> u16 {
    404
}

/// Status 500.
pub open spec fn status_internal_error() -> u16 {
    500
}

/// The body of the answer to a request for an unknown item.
pub open spec fn item_not_found_text() -> Seq<char> {
    "Item not found"@
}

/// The answer to a failed request: 404 for an unknown item, 400 with the
/// reason for a refused request, 500 with the database's message otherwise.
pub open spec fn error_reply(err: ServiceErrorView, status: u16, body: Seq<char>) -> bool {
    match err {
        ServiceErrorView::NotFound => status == status_not_found() && body
            == item_not_found_text(),
        ServiceErrorView::BadRequest(m) => status == status_bad_request() && body == m,
        ServiceErrorView::Db(m) => status == status_internal_error() && body == m,
    }
}

/// Turns a service error into its HTTP answer.
pub fn service_error_to_response(err: ServiceError) -> (reply: HttpReply)
    ensures
        error_reply(err@, reply.status, reply.body@),
{
    match err {
        ServiceError::NotFound => HttpReply { status: 404, body: "Item not found".to_owned() },
        ServiceError::BadRequest(message) => HttpReply { status: 400, body: message },
        ServiceError::Db(message) => HttpReply { status: 500, body: message },
    }
}

/// The three operations on reserved stock.
#[derive(Clone, Copy, Debug, PartialEq, Eq, Structural)]
pub enum StockAction {
    Reserve,
    Release,
    Commit,
}

/// The body of the answer to a stock operation that went through.
pub open spec fn success_text(action: StockAction) -> Seq<char> {
    match action {
        StockAction::Reserve => "Reserved successfully"@,
        StockAction::Release => "Released successfully"@,
        StockAction::Commit => "Committed successfully"@,
    }
}

/// The answer to a stock operation: 200 with a confirmation when it went
/// through, the error's answer when it did not.
pub fn stock_action_response(action: StockAction, result: Result<(), ServiceError>) -> (reply:
    HttpReply)
    ensures
        match result {
            Ok(()) => reply.status == status_ok() && reply.body@ == success_text(action),
            Err(e) => error_reply(e@, reply.status, reply.body@),
        },
{
    match result {
        Ok(()) => {
            let body = match action {
                StockAction::Reserve => "Reserved successfully".to_owned(),
                StockAction::Release => "Released successfully".to_owned(),
                StockAction::Commit => "Committed successfully".to_owned(),
            };
            HttpReply { status: 200, body }
        },
        Err(e) => service_error_to_response(e),
    }
}

} // verus!
