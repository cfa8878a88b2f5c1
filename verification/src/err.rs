//! Internal faults, as the client sees them.

use crate::id::SessionId;
use crate::store::Fault;
use vstd::prelude::*;

verus! {

/// Status of a response that carries what was asked for.
pub const OK: u16 = 200;

/// Status of a response that refuses a malformed request.
pub const BAD_REQUEST: u16 = 400;

/// Status of a response for a session that is unknown or gone.
pub const NOT_FOUND: u16 = 404;

/// Status of a response that reports an internal fault.
pub const INTERNAL_SERVER_ERROR: u16 = 500;

/// A response to the client: a status code and a plain-text body.
#[derive(Clone, Debug, PartialEq, Eq)]
pub struct Response {
    pub status: u16,
    pub body: String,
}

impl Response {
    /// Whether the response has this status and this body.
    pub open spec fn shows(self, status: u16, body: Seq<char>) -> bool {
        self.status == status && self.body@ == body
    }

    /// Whether the response reports an internal fault under some reference,
    /// a UUID of version 4.
    pub open spec fn is_opaque_error(self) -> bool {
        exists|ray: SessionId|
            ray.version() == 4 && ray.is_rfc4122() && self.shows(
                INTERNAL_SERVER_ERROR,
                opaque_body(ray),
            )
    }
}

/// The body of the response that reports an internal fault: a fixed text
/// and the reference under which the fault was logged. It holds nothing of
/// the fault itself.
pub open spec fn opaque_body(ray: SessionId) -> Seq<char> {
    "Internal server error; ray="@ + ray.text()
}

/// What is logged for a fault.
pub open spec fn fault_text(fault: Fault) -> Seq<char> {
    match fault {
        Fault::MetadataTooLarge => "metadata too large"@,
        Fault::SessionFailed => "session failed"@,
        Fault::Unavailable => "session store unavailable"@,
    }
}

/// An internal fault on its way to the client. The detail is for the log;
/// the client is shown a reference, never the detail.
#[derive(Clone, Debug, PartialEq, Eq)]
pub struct WebReport {
    pub detail: String,
}

impl WebReport {
    /// A report with the given detail.
    pub fn new(detail: String) -> (report: WebReport)
        ensures
            report.detail == detail,
    {
        WebReport { detail }
    }

    /// The report of a fault of the session store.
    pub fn from_fault(fault: Fault) -> (report: WebReport)
        ensures
            report.detail@ == fault_text(fault),
    {
        let detail = match fault {
            Fault::MetadataTooLarge => "metadata too large",
            Fault::SessionFailed => "session failed",
            Fault::Unavailable => "session store unavailable",
        };
        WebReport { detail: detail.to_owned() }
    }

    /// The response for a fault that was logged under the reference `ray`.
    pub fn response_for(&self, ray: SessionId) -> (response: Response)
        ensures
            response.shows(INTERNAL_SERVER_ERROR, opaque_body(ray)),
    {
        let text = ray.to_text();
        let body = "Internal server error; ray=".to_owned().concat(text.as_str());
        Response { status: INTERNAL_SERVER_ERROR, body }
    }

    /// The response for the fault, under a reference drawn at random, a UUID
    /// of version 4.
    pub fn into_response(self) -> (response: Response)
        ensures
            response.is_opaque_error(),
    {
        let ray = SessionId::random();
        let response = self.response_for(ray);
        assert(ray.version() == 4 && ray.is_rfc4122() && response.shows(
            INTERNAL_SERVER_ERROR,
            opaque_body(ray),
        ));
        response
    }
}

} // verus!
