//! Where the service runs and what it says of itself.

use crate::text::{join2, join3};
use vstd::prelude::*;
use vstd::string::*;

verus! {

/// The port to listen on: the one that is set, else 80.
pub fn port(set: Option<String>) -> (port: String)
    ensures
        port@ == match set {
            Some(value) => value@,
            None => "80"@,
        },
{
    match set {
        Some(value) => value,
        None => String::from_str("80"),
    }
}

/// The name under which the service hands out addresses: the one that is
/// set, else `api`.
pub fn hostname(set: Option<String>) -> (hostname: String)
    ensures
        hostname@ == match set {
            Some(value) => value@,
            None => "api"@,
        },
{
    match set {
        Some(value) => value,
        None => String::from_str("api"),
    }
}

/// Where the service listens: every address of the machine, on `port`.
pub fn bind_address(port: &str) -> (address: String)
    ensures
        address@ == "0.0.0.0:"@ + port@,
{
    join2("0.0.0.0:", port)
}

/// The region of the store where none is set from outside.
pub fn fallback_region() -> (region: String)
    ensures
        region@ == "us-east-1"@,
{
    String::from_str("us-east-1")
}

/// The address of a store that runs on the host `hostname`.
pub fn endpoint(hostname: &str) -> (url: String)
    ensures
        url@ == "http://"@ + hostname@ + ":8000"@,
{
    join3("http://", hostname, ":8000")
}

/// What the service says of itself at its root: its own address, and those
/// of its parts.
pub open spec fn hateos_text(x: Seq<char>) -> Seq<char> {
    "{\n    \"id\": \"http://"@ + x + "/\",\n    \"properties\": {\n        \"rooms\": \"http://"@ + x
        + "/rooms,\n        \"sign_in\": \"http://"@ + x
        + "/sign-in\",\n        \"sign_up\": \"http://"@ + x
        + "/sign-up\",\n        \"status\": \"http://"@ + x + "/status\"\n    }\n}"@
}

/// What the service says of itself at its root.
pub fn hateos(hostname: &str) -> (text: String)
    ensures
        text@ == hateos_text(hostname@),
{
    let mut text = join3(
        "{\n    \"id\": \"http://",
        hostname,
        "/\",\n    \"properties\": {\n        \"rooms\": \"http://",
    );
    text.append(hostname);
    text.append("/rooms,\n        \"sign_in\": \"http://");
    text.append(hostname);
    text.append("/sign-in\",\n        \"sign_up\": \"http://");
    text.append(hostname);
    text.append("/sign-up\",\n        \"status\": \"http://");
    text.append(hostname);
    text.append("/status\"\n    }\n}");
    text
}

} // verus!
