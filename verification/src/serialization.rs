//! The wire formats that a transport can ask for.

use vstd::prelude::*;

verus! {

/// A wire format for messages. JSON is the one format there is.
#[derive(Debug, Clone, Copy, PartialEq, Eq, Structural)]
pub enum SerializationType {
    JSON,
}

impl SerializationType {
    /// The name under which a WebSocket peer asks for this format.
    pub open spec fn spec_subprotocol(self) -> Seq<char> {
        match self {
            SerializationType::JSON => "wamp.2.json"@,
        }
    }

    /// The name of the WebSocket subprotocol that carries messages in this
    /// format.
    pub fn subprotocol(self) -> (name: &'static str)
        ensures
            name@ == self.spec_subprotocol(),
    {
        match self {
            SerializationType::JSON => "wamp.2.json",
        }
    }
}

} // verus!
