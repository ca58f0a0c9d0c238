use vstd::prelude::*;

verus! {

/// A failure surfaced by the session client. Every failure reaches the
/// immediate caller as one of these kinds; nothing is retried,
/// swallowed, or replaced by a default.
#[derive(Debug)]
pub enum ClientError {
    /// Connectivity, parsing, or provider-construction failure in the
    /// underlying transport, carrying the transport's own description.
    Transport(String),
    /// The wallet answered a switch request with a non-success HTTP
    /// status; carries the raw response body as diagnostic detail.
    NetworkSwitch(String),
    /// A submitted transaction resolved to no receipt.
    TransactionFailed,
}

impl ClientError {
    /// What the diagnostic line says: the transport's own words for a
    /// transport failure, the response body behind a fixed prefix for
    /// a refused switch, and a fixed sentence for a lost transaction.
    pub open spec fn spec_message(self) -> Seq<char> {
        match self {
            ClientError::Transport(detail) => detail@,
            ClientError::NetworkSwitch(body) => "Failed to switch network: "@ + body@,
            ClientError::TransactionFailed => "Tx failed to send"@,
        }
    }

    /// The diagnostic line for this failure.
    pub fn message(&self) -> (r: String)
        ensures
            r@ == self.spec_message(),
    {
        match self {
            ClientError::Transport(detail) => detail.clone(),
            ClientError::NetworkSwitch(body) => {
                let mut s = String::from_str("Failed to switch network: ");
                s.append(body.as_str());
                s
            },
            ClientError::TransactionFailed => String::from_str("Tx failed to send"),
        }
    }
}

} // verus!
