//! Startup configuration, handed in as opaque values.

use vstd::prelude::*;
use crate::amqp::{amqp_url, spec_amqp_url};

verus! {

/// What the service is started with. The core uses these values as lookup
/// keys and connection parameters; it neither parses nor validates them.
#[derive(Debug, Clone)]
pub struct Cfg {
    /// Port to bind the server to.
    pub port: u16,
    /// Bus host.
    pub amqp_host: String,
    /// Bus port.
    pub amqp_port: u16,
    /// Bus user.
    pub amqp_user: String,
    /// Bus password.
    pub amqp_password: String,
    /// Exchange name.
    pub rabbitmq_exchange: String,
    /// Routing key of outgoing prompts.
    pub rabbitmq_request_routing_key: String,
    /// Routing key of incoming results.
    pub rabbitmq_response_routing_key: String,
    /// Queue on which results arrive.
    pub rabbitmq_response_queue: String,
}

impl Cfg {
    /// The bus URL that these components spell.
    pub open spec fn spec_rabbitmq_url(&self) -> Seq<char> {
        spec_amqp_url(self.amqp_user@, self.amqp_password@, self.amqp_host@, self.amqp_port)
    }

    /// Composes the bus connection URL from the AMQP components.
    pub fn rabbitmq_url(&self) -> (url: String)
        ensures
            url@ == self.spec_rabbitmq_url(),
    {
        amqp_url(
            self.amqp_user.as_str(),
            self.amqp_password.as_str(),
            self.amqp_host.as_str(),
            self.amqp_port,
        )
    }
}

} // verus!
