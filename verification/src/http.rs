//! HTTP status codes in the bot's messages.

use vstd::prelude::*;

verus! {

/// How the `http` crate writes a status code: the number and its reason
/// phrase (`204 No Content`).
pub uninterp spec fn status_display(code: u16) -> Seq<char>;

/// The `Display` text of a status code, through reqwest's `StatusCode`; the
/// text is named `status_display`. The code must lie in 100..=999, which
/// `StatusCode::from_u16` accepts.
#[verifier::external_body]
pub(crate) fn status_text(code: u16) -> (r: String)
    requires
        100 <= code <= 999,
    ensures
        r@ == status_display(code),
{
    match reqwest::StatusCode::from_u16(code) {
        Ok(s) => s.to_string(),
        Err(_) => String::new(),
    }
}

/// A status of the success class 2xx.
pub open spec fn is_success(code: u16) -> bool {
    200 <= code <= 299
}

/// Reads the status of the bot's activity report to supinic.com.
pub fn activity_outcome(code: u16) -> (r: Result<(), String>)
    requires
        100 <= code <= 999,
    ensures
        if is_success(code) {
            r is Ok
        } else {
            r matches Err(e) && e@ == "Bad response - status="@ + status_display(code)
        },
{
    if 200 <= code && code <= 299 {
        Ok(())
    } else {
        let mut s = String::from_str("Bad response - status=");
        s.append(status_text(code).as_str());
        Err(s)
    }
}

/// The message of a failed request to api.ivr.fi: the service's own
/// message when its error body could be read, and the status either way.
pub open spec fn ivr_failure_of(code: u16, message: Option<Seq<char>>) -> Seq<char> {
    match message {
        Some(m) => "IVR Error - "@ + m + " ("@ + status_display(code) + ")"@,
        None => "IVR error "@ + status_display(code) + " + failed to decode error response"@,
    }
}

/// Words a failed request to api.ivr.fi.
pub fn ivr_failure(code: u16, message: Option<&str>) -> (r: String)
    requires
        100 <= code <= 999,
    ensures
        r@ == ivr_failure_of(
            code,
            match message {
                Some(m) => Some(m@),
                None => None,
            },
        ),
{
    match message {
        Some(m) => {
            let mut s = String::from_str("IVR Error - ");
            s.append(m);
            s.append(" (");
            s.append(status_text(code).as_str());
            s.append(")");
            s
        },
        None => {
            let mut s = String::from_str("IVR error ");
            s.append(status_text(code).as_str());
            s.append(" + failed to decode error response");
            s
        },
    }
}

} // verus!
