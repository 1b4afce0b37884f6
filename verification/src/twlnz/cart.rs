//! The basket and the wishlist: controllers that answer typed JSON, and
//! refuse with a 200 whose envelope says so.
use vstd::prelude::*;

use crate::twlnz::error::Error;
use crate::twlnz::wire::Envelope;
use crate::text;
use crate::netkit::jwt::{json_parsed, json_valid, json_value};
use crate::text::{cat, contains_str, to_lowercase};

verus! {

/// Whether a refusal's message is an expired page token: it mentions a
/// verify token or expiry, and is not about stock.
pub open spec fn stale_token_message(message: Seq<char>) -> bool {
    let m = text::unicode_lower(message);
    (text::contains(m, "verify"@) || text::contains(m, "token"@) || text::contains(m, "expired"@))
        && !text::contains(m, "out of stock"@)
}

pub fn is_stale_token(message: &str) -> (r: bool)
    ensures
        r == stale_token_message(message@),
{
    let m = to_lowercase(message);
    let m = m.as_str();
    (contains_str(m, "verify") || contains_str(m, "token") || contains_str(m, "expired"))
        && !contains_str(m, "out of stock")
}

/// What an action's envelope comes to: nothing for an answer, an expired
/// page token -- whose fix is to re-read the page -- or a refusal with the
/// site's reason.
pub fn refusal(action: &'static str, envelope: &Envelope) -> (r: Result<(), Error>)
    ensures
        !envelope.error ==> r is Ok,
        envelope.error ==> ({
            let message = match envelope.msg {
                Some(m) => m@,
                None => "the site gave no reason"@,
            };
            if stale_token_message(message) {
                r matches Err(Error::TokenExpired { action: a }) && a == action
            } else {
                r matches Err(Error::Refused { action: a, message: m }) && a == action && m@ == message
            }
        }),
{
    if !envelope.error {
        return Ok(());
    }
    let message = match &envelope.msg {
        Some(m) => m.clone(),
        None => "the site gave no reason".to_owned(),
    };
    if is_stale_token(message.as_str()) {
        return Err(Error::TokenExpired { action });
    }
    Err(Error::Refused { action, message })
}

/// Read an action's answer, turning the site's own refusal into an error.
///
/// The site answers a refused action with HTTP 200 and `error: true`, so the
/// status code says nothing and the body has to be inspected either way. A
/// body that is not JSON is a `Decode` error in `parsing <action>`; a JSON
/// body comes back whole unless its envelope -- what the body reads as,
/// handed in by the caller -- refuses, which goes as `refusal` says.
pub fn checked(action: &'static str, body: &str, envelope: &Envelope) -> (r: Result<
    serde_json::Value,
    Error,
>)
    ensures
        !json_valid(vstd::utf8::encode_utf8(body@)) ==> (r matches Err(Error::Decode { context, .. })
            && context@ == "parsing "@ + action@),
        json_valid(vstd::utf8::encode_utf8(body@)) && !envelope.error ==> (r matches Ok(v) && v
            == json_parsed(vstd::utf8::encode_utf8(body@))),
        json_valid(vstd::utf8::encode_utf8(body@)) && envelope.error ==> ({
            let message = match envelope.msg {
                Some(m) => m@,
                None => "the site gave no reason"@,
            };
            if stale_token_message(message) {
                r matches Err(Error::TokenExpired { action: a }) && a == action
            } else {
                r matches Err(Error::Refused { action: a, message: m }) && a == action && m@ == message
            }
        }),
{
    let value = match json_value(body.as_bytes()) {
        Ok(v) => v,
        Err(detail) => {
            return Err(Error::Decode { context: cat("parsing ", action), detail });
        },
    };
    match refusal(action, envelope) {
        Ok(()) => Ok(value),
        Err(e) => Err(e),
    }
}

} // verus!
