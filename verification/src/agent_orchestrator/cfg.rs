//! Startup configuration, handed in as opaque values.

use vstd::prelude::*;
use crate::amqp::{amqp_url, spec_amqp_url};

verus! {

/// What the service is started with. The core uses these values as lookup
/// keys and connection parameters; it neither parses nor validates them.
#[derive(Debug, Clone)]
pub struct Cfg {
    /// Port of the health endpoint.
    pub port: u16,
    /// Bus host.
    pub amqp_host: String,
    /// Bus port.
    pub amqp_port: u16,
    /// Bus user.
    pub amqp_user: String,
    /// Bus password.
    pub amqp_password: String,
    /// Exchange name.
    pub rabbitmq_exchange: String,
    /// Queue on which prompts arrive.
    pub rabbitmq_queue: String,
    /// Routing key of incoming prompts.
    pub rabbitmq_routing_key: String,
    /// Routing key of outgoing progress events.
    pub rabbitmq_progress_routing_key: String,
    /// Key for the language-model service.
    pub openai_api_key: String,
    /// Model to ask.
    pub openai_model: String,
}

impl Cfg {
    /// The bus URL that these components spell.
    pub open spec fn spec_rabbitmq_url(&self) -> Seq<char> {
        spec_amqp_url(self.amqp_user@, self.amqp_password@, self.amqp_host@, self.amqp_port)
    }

    /// Composes the bus connection URL from the AMQP components.
    pub fn rabbitmq_url(&self) -> (url: String)
        ensures
            url@ == self.spec_rabbitmq_url(),
    {
        amqp_url(
            self.amqp_user.as_str(),
            self.amqp_password.as_str(),
            self.amqp_host.as_str(),
            self.amqp_port,
        )
    }
}

} // verus!
