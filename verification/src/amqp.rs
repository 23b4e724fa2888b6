//! The connection URL of the message bus.

use vstd::prelude::*;
use crate::text::{decimal, push_decimal};

verus! {

/// `amqp://<user>:<password>@<host>:<port>`, the port in decimal. The parts
/// are taken as they are: nothing is escaped or validated.
pub open spec fn spec_amqp_url(
    user: Seq<char>,
    password: Seq<char>,
    host: Seq<char>,
    port: u16,
) -> Seq<char> {
    "amqp://"@ + user + ":"@ + password + "@"@ + host + ":"@ + decimal(port as nat)
}

/// Composes the connection URL from its four components.
pub fn amqp_url(user: &str, password: &str, host: &str, port: u16) -> (url: String)
    ensures
        url@ == spec_amqp_url(user@, password@, host@, port),
{
    let mut url = String::new();
    url.push_str("amqp://");
    url.push_str(user);
    url.push_str(":");
    url.push_str(password);
    url.push_str("@");
    url.push_str(host);
    url.push_str(":");
    push_decimal(&mut url, port);
    assert(url@ =~= spec_amqp_url(user@, password@, host@, port));
    url
}

} // verus!
