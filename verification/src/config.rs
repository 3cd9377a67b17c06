//! Settings of the service: the port it listens on, the tick interval of the
//! advancers, and the content types whose bodies it reads.

use crate::text::{has_prefix, same_text, starts_with};
use vstd::prelude::*;
use vstd::string::StringExecFns;

verus! {

/// The port that is used where none is configured.
pub open spec fn default_port() -> Seq<char> {
    "5050"@
}

/// The tick interval, in seconds, that is used where none is configured or
/// the configured text is no number.
pub open spec fn default_tick_secs() -> u64 {
    5
}

/// The number that `str::parse::<u64>` reads from a text, `None` where it
/// reads none.
pub uninterp spec fn parsed_u64(text: Seq<char>) -> Option<u64>;

/// Calls `str::parse::<u64>` of std and drops the error, which says only why
/// the text is no number.
#[verifier::external_body]
fn parse_u64(text: &str) -> (parsed: Option<u64>)
    ensures
        parsed == parsed_u64(text@),
{
    text.parse::<u64>().ok()
}

/// The tick interval for a configured text: the number it holds, else the
/// default.
pub open spec fn tick_secs_for(parsed: Option<u64>) -> u64 {
    match parsed {
        Some(secs) => secs,
        None => default_tick_secs(),
    }
}

/// Whether a request body of this media type is read: the type is
/// `application` and the subtype begins with `x-amz-json-`.
pub open spec fn is_accepted_content_type(kind: Seq<char>, subtype: Seq<char>) -> bool {
    kind == "application"@ && has_prefix(subtype, "x-amz-json-"@)
}

/// The port to listen on: the configured one, else the default.
pub fn port_or_default(configured: Option<&str>) -> (port: String)
    ensures
        port@ == match configured {
            Some(text) => text@,
            None => default_port(),
        },
{
    match configured {
        Some(text) => String::from_str(text),
        None => String::from_str("5050"),
    }
}

/// The address to bind: the loopback interface and the given port.
pub fn bind_address(port: &str) -> (address: String)
    ensures
        address@ == "127.0.0.1:"@ + port@,
{
    String::from_str("127.0.0.1:").concat(port)
}

/// The tick interval in seconds, given what parsing the configured text gave.
pub fn tick_secs_or_default(parsed: Option<u64>) -> (secs: u64)
    ensures
        secs == tick_secs_for(parsed),
{
    match parsed {
        Some(secs) => secs,
        None => 5,
    }
}

/// The tick interval in seconds for the configured text, if any.
pub fn tick_secs(configured: Option<&str>) -> (secs: u64)
    ensures
        secs == match configured {
            Some(text) => tick_secs_for(parsed_u64(text@)),
            None => default_tick_secs(),
        },
{
    match configured {
        Some(text) => tick_secs_or_default(parse_u64(text)),
        None => tick_secs_or_default(None),
    }
}

/// Whether a request body of this media type is read.
pub fn accepts_content_type(kind: &str, subtype: &str) -> (accepted: bool)
    ensures
        accepted == is_accepted_content_type(kind@, subtype@),
{
    same_text(kind, "application") && starts_with(subtype, "x-amz-json-")
}

} // verus!
