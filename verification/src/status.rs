//! The transport statuses that the service answers with.

use vstd::prelude::*;

verus! {

/// A transport status of the service.
#[derive(Clone, Copy, Debug, PartialEq, Eq, Structural)]
pub enum HttpStatus {
    Success,
    Created,
    NoContent,
    BadRequest,
    NotFound,
    InternalServerError,
}

impl HttpStatus {
    /// The numeric status code.
    pub open spec fn spec_code(self) -> u16 {
        match self {
            HttpStatus::Success => 200,
            HttpStatus::Created => 201,
            HttpStatus::NoContent => 204,
            HttpStatus::BadRequest => 400,
            HttpStatus::NotFound => 404,
            HttpStatus::InternalServerError => 500,
        }
    }

    /// The status that has the code `code`, where the service has one.
    pub open spec fn of_code(code: u16) -> Option<HttpStatus> {
        if code == 200 {
            Some(HttpStatus::Success)
        } else if code == 201 {
            Some(HttpStatus::Created)
        } else if code == 204 {
            Some(HttpStatus::NoContent)
        } else if code == 400 {
            Some(HttpStatus::BadRequest)
        } else if code == 404 {
            Some(HttpStatus::NotFound)
        } else if code == 500 {
            Some(HttpStatus::InternalServerError)
        } else {
            None
        }
    }

    /// The status line: the code, a space and the canonical reason phrase.
    pub open spec fn line(self) -> Seq<char> {
        match self {
            HttpStatus::Success => "200 OK"@,
            HttpStatus::Created => "201 Created"@,
            HttpStatus::NoContent => "204 No Content"@,
            HttpStatus::BadRequest => "400 Bad Request"@,
            HttpStatus::NotFound => "404 Not Found"@,
            HttpStatus::InternalServerError => "500 Internal Server Error"@,
        }
    }

    /// The status line of the code `code`, where the service has that code.
    pub open spec fn line_of(code: u16) -> Option<Seq<char>> {
        match HttpStatus::of_code(code) {
            Some(status) => Some(status.line()),
            None => None,
        }
    }

    /// The numeric status code.
    #[verifier::when_used_as_spec(spec_code)]
    pub fn code(self) -> (code: u16)
        ensures
            code == self.spec_code(),
            HttpStatus::of_code(code) == Some(self),
    {
        match self {
            HttpStatus::Success => 200,
            HttpStatus::Created => 201,
            HttpStatus::NoContent => 204,
            HttpStatus::BadRequest => 400,
            HttpStatus::NotFound => 404,
            HttpStatus::InternalServerError => 500,
        }
    }

    /// The status as text: its status line.
    pub fn text(self) -> (text: String)
        ensures
            text@ == self.line(),
    {
        status_text(self.code())
    }
}

/// Calls `actix_web::http::StatusCode::from_u16` and renders the status with
/// its `Display` impl, which writes the code, a space and the canonical
/// reason phrase. Trusted: for the six codes of the service the text is the
/// line that `HttpStatus::line` spells out. Other codes are left out;
/// `from_u16` refuses those outside `100..=999`.
#[verifier::external_body]
fn status_text(code: u16) -> (text: String)
    requires
        HttpStatus::of_code(code) is Some,
    ensures
        Some(text@) == HttpStatus::line_of(code),
{
    match actix_web::http::StatusCode::from_u16(code) {
        Ok(status) => status.to_string(),
        Err(_) => String::new(),
    }
}

} // verus!
