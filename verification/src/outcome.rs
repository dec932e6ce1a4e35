//! What an operation ends in, and how that is put into a reply.

use vstd::prelude::*;
use crate::models::Response;
use crate::status::HttpStatus;

verus! {

/// Label of a reply that carries what was looked up or computed.
pub const LABEL_FOUND: &'static str = "Success";

/// Label of a reply that carries a newly created row.
pub const LABEL_CREATED: &'static str = "success";

/// Label of a reply to a delete that went through: the same word as for
/// any other success that creates nothing.
pub const LABEL_DELETED: &'static str = "Success";

/// Label of a reply to a request that the service turned down.
pub const LABEL_REJECTED: &'static str = "Bad Request";

/// Label of a reply that found nothing.
pub const LABEL_MISSING: &'static str = "Data not found";

/// Label of a reply to a request that failed inside the service.
pub const LABEL_FAILED: &'static str = "Internal Server Error";

/// The outcome of one operation.
#[derive(Clone, Debug, PartialEq, Eq)]
pub enum Outcome<T> {
    /// Success with the data that was asked for.
    Found(T),
    /// Success with the row that was created.
    Created(T),
    /// Success of a delete: the envelope comes without a payload.
    Deleted,
    /// The request cannot be served as it stands.
    Rejected,
    /// Nothing matched.
    Missing,
    /// The store, or the service itself, failed.
    Failed,
}

/// What goes over the wire: a status and the envelope. Every outcome has an
/// envelope, also the one that has nothing to hand back.
#[derive(Clone, Debug, PartialEq, Eq)]
pub struct Reply<T> {
    pub status: HttpStatus,
    pub body: Response<T>,
}

impl<T> Outcome<T> {
    /// The transport status of the outcome.
    pub open spec fn status(self) -> HttpStatus {
        match self {
            Outcome::Found(_) => HttpStatus::Success,
            Outcome::Created(_) => HttpStatus::Created,
            Outcome::Deleted => HttpStatus::NoContent,
            Outcome::Rejected => HttpStatus::BadRequest,
            Outcome::Missing => HttpStatus::NotFound,
            Outcome::Failed => HttpStatus::InternalServerError,
        }
    }

    /// The payload, present exactly for a success that produces one.
    pub open spec fn payload(self) -> Option<T> {
        match self {
            Outcome::Found(data) => Some(data),
            Outcome::Created(data) => Some(data),
            _ => None,
        }
    }

    /// The envelope's label.
    pub open spec fn label(self) -> Seq<char> {
        match self {
            Outcome::Found(_) => LABEL_FOUND@,
            Outcome::Created(_) => LABEL_CREATED@,
            Outcome::Deleted => LABEL_DELETED@,
            Outcome::Rejected => LABEL_REJECTED@,
            Outcome::Missing => LABEL_MISSING@,
            Outcome::Failed => LABEL_FAILED@,
        }
    }

    /// `reply` is the reply that stands for this outcome: its status, and an
    /// envelope with the outcome's label, the status line and the payload.
    pub open spec fn is_rendered_by(self, reply: Reply<T>) -> bool {
        &&& reply.status == self.status()
        &&& reply.body.status@ == self.label()
        &&& reply.body.status_code@ == self.status().line()
        &&& reply.body.data == self.payload()
    }

    /// Puts the outcome into a reply.
    pub fn into_reply(self) -> (reply: Reply<T>)
        ensures
            self.is_rendered_by(reply),
    {
        match self {
            Outcome::Found(data) => envelope(HttpStatus::Success, LABEL_FOUND, Some(data)),
            Outcome::Created(data) => envelope(HttpStatus::Created, LABEL_CREATED, Some(data)),
            Outcome::Deleted => envelope(HttpStatus::NoContent, LABEL_DELETED, None),
            Outcome::Rejected => envelope(HttpStatus::BadRequest, LABEL_REJECTED, None),
            Outcome::Missing => envelope(HttpStatus::NotFound, LABEL_MISSING, None),
            Outcome::Failed => envelope(HttpStatus::InternalServerError, LABEL_FAILED, None),
        }
    }
}

/// The reply with the given status, label and payload.
fn envelope<T>(status: HttpStatus, label: &str, data: Option<T>) -> (reply: Reply<T>)
    ensures
        reply.status == status,
        reply.body.status@ == label@,
        reply.body.status_code@ == status.line(),
        reply.body.data == data,
{
    Reply { status, body: Response { status: label.to_owned(), status_code: status.text(), data } }
}

} // verus!
