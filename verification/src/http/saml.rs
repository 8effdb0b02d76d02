//! Whether the server signs users in through SAML.
use vstd::prelude::*;
use crate::errors::{DeliveryError, DeliveryResult, Kind, opt_view};
use crate::text::owned;

verus! {

/// The reply of the SAML lookup.
#[derive(Debug, Clone, Copy)]
pub struct LookupResponse {
    pub enabled: bool,
}

/// What the reply to the SAML lookup means. `parsed` is whether the body
/// of a `200` says SAML is enabled; `raw` is the body as it came (`Err`
/// of the read error's text when unread). A server without the endpoint
/// (`404`) has SAML disabled.
pub fn enabled_outcome(status: u16, status_text: &str, parsed: DeliveryResult<bool>, raw: Result<String, String>) -> (r: DeliveryResult<bool>)
    ensures
        status == 200 ==> r == parsed,
        status == 404 ==> r == Ok::<bool, DeliveryError>(false),
        status != 200 && status != 404 ==> (r matches Err(e) && e.kind == Kind::ApiError(status, raw)
            && opt_view(e.detail) == Some("lookup of SAML authentication returned "@ + status_text@)),
{
    if status == 200 {
        parsed
    } else if status == 404 {
        Ok(false)
    } else {
        let mut msg = owned("lookup of SAML authentication returned ");
        msg.append(status_text);
        Err(DeliveryError { kind: Kind::ApiError(status, raw), detail: Some(msg) })
    }
}

} // verus!
