//! The echo probe served over the control channel.

use vstd::prelude::*;

verus! {

use vstd::string::StringExecFns;
use crate::errors::DaemonError;

/// A validated probe message: never empty.
#[derive(Debug, Clone)]
pub struct PingMessage {
    value: String,
}

impl View for PingMessage {
    type V = Seq<char>;

    closed spec fn view(&self) -> Seq<char> {
        self.value@
    }
}

impl PingMessage {
    /// Accepts exactly the non-empty messages.
    pub fn new(value: String) -> (r: Result<PingMessage, DaemonError>)
        ensures
            value@.len() > 0 ==> (r matches Ok(m) && m@ == value@),
            value@.len() == 0 ==> (r matches Err(e) && e == DaemonError::EmptyMessage),
    {
        if value.as_str().is_empty() {
            return Err(DaemonError::EmptyMessage);
        }
        Ok(PingMessage { value })
    }

    /// The message text.
    pub fn value(&self) -> (r: &str)
        ensures
            r@ == self@,
    {
        self.value.as_str()
    }

    /// The reply to this message: the text with the reply prefix in front.
    pub fn to_pong(&self) -> (r: PingMessage)
        ensures
            r@ == "pong: "@ + self@,
    {
        let mut reply = String::from_str("pong: ");
        reply.append(self.value.as_str());
        PingMessage { value: reply }
    }
}

/// The probe operation: validate the request text and build the reply.
#[derive(Default)]
pub struct PingUseCase;

impl PingUseCase {
    pub fn new() -> (r: PingUseCase) {
        PingUseCase
    }

    /// An empty message is rejected; any other text is answered with the
    /// same text behind the reply prefix.
    pub fn ping(&self, message: String) -> (r: Result<String, DaemonError>)
        ensures
            message@.len() > 0 ==> (r matches Ok(s) && s@ == "pong: "@ + message@),
            message@.len() == 0 ==> (r matches Err(e) && e == DaemonError::EmptyMessage),
    {
        let ping = match PingMessage::new(message) {
            Ok(p) => p,
            Err(e) => {
                return Err(e);
            },
        };
        let pong = ping.to_pong();
        Ok(String::from_str(pong.value()))
    }
}

/// The request handler handed to the RPC router; it owns the probe
/// operation and is shared across accepted connections.
pub struct PingHandler {
    pub use_case: PingUseCase,
}

impl PingHandler {
    pub fn new(use_case: PingUseCase) -> (r: PingHandler) {
        PingHandler { use_case }
    }
}

/// The daemon's service wiring: the handlers shared across listeners.
pub struct Container {
    pub ping_handler: std::sync::Arc<PingHandler>,
}

impl Container {
    pub fn new() -> (r: Container) {
        let ping_use_case = PingUseCase;
        let ping_handler = std::sync::Arc::new(PingHandler::new(ping_use_case));
        Container { ping_handler }
    }
}

impl Default for Container {
    fn default() -> Self {
        Self::new()
    }
}

} // verus!
