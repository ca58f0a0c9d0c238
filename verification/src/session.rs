use vstd::prelude::*;
use crate::error::ClientError;
use crate::hex::chain_id_hex;
use crate::hex::spec_chain_id_hex;
use crate::types::Address;
use crate::types::TxHash;
use crate::uint::Uint256;

verus! {

/// The host used when the caller names none: the wallet daemon
/// normally listens on the loopback address.
pub open spec fn spec_default_host() -> Seq<char> {
    "127.0.0.1"@
}

/// The base URL of the wallet endpoint for a host: the scheme and the
/// service port are fixed, only the host varies.
pub open spec fn spec_rpc_url(host: Seq<char>) -> Seq<char> {
    "http://"@ + host + ":1248"@
}

/// The JSON-RPC body of a network-switch request: method
/// `wallet_switchEthereumChain` with a single parameter object whose
/// `chainId` is the hex rendering of the target identifier.
pub open spec fn spec_switch_request_body(chain_id: Uint256) -> Seq<char> {
    "{\"id\":\"1\",\"jsonrpc\":\"2.0\",\"method\":\"wallet_switchEthereumChain\",\"params\":[{\"chainId\":\""@
        + spec_chain_id_hex(chain_id) + "\"}]}"@
}

/// A session bound to one wallet endpoint. The base URL is fixed at
/// construction and no operation mutates it. The target network is
/// not stored: the wallet's active network is shared, ambient state
/// that can change out of band, so every read is a live query.
#[derive(Clone)]
pub struct Session {
    rpc_url: String,
}

impl Session {
    /// The bound endpoint.
    pub closed spec fn url(self) -> Seq<char> {
        self.rpc_url@
    }

    /// Binds a session to the wallet endpoint of `host`, or of the
    /// loopback address when none is given. The port is fixed and not
    /// configurable. Asking the wallet to actually switch is a
    /// separate exchange, described by `switch_request` and judged by
    /// `switch_outcome`.
    pub fn open(host: Option<&str>) -> (s: Session)
        ensures
            s.url() == spec_rpc_url(
                match host {
                    Some(h) => h@,
                    None => spec_default_host(),
                },
            ),
    {
        let h: &str = match host {
            Some(h) => h,
            None => "127.0.0.1",
        };
        let mut url = String::from_str("http://");
        url.append(h);
        url.append(":1248");
        Session { rpc_url: url }
    }

    /// The endpoint this session posts to.
    pub fn rpc_url(&self) -> (r: &String)
        ensures
            r@ == self.url(),
    {
        &self.rpc_url
    }

    /// The wire form of a switch request for `chain_id`: where to post
    /// and what body to post. Any identifier is accepted and rendered
    /// verbatim; no registry of real networks is consulted.
    pub fn switch_request(&self, chain_id: &Uint256) -> (r: (String, String))
        ensures
            r.0@ == self.url(),
            r.1@ == spec_switch_request_body(*chain_id),
    {
        let url = self.rpc_url.clone();
        let mut body = String::from_str(
            "{\"id\":\"1\",\"jsonrpc\":\"2.0\",\"method\":\"wallet_switchEthereumChain\",\"params\":[{\"chainId\":\"",
        );
        let rendered = chain_id_hex(chain_id);
        body.append(rendered.as_str());
        body.append("\"}]}");
        (url, body)
    }
}

/// Judges a switch response by its HTTP status alone, as the protocol
/// prescribes: a success status accepts the switch, anything else is a
/// `NetworkSwitch` failure carrying the raw response body. The
/// JSON-RPC envelope inside a success response is not inspected, and
/// nothing here confirms the switch took effect: a caller wanting
/// certainty re-queries the live chain id and compares.
pub fn switch_outcome(status: u16, body: String) -> (r: Result<(), ClientError>)
    ensures
        200 <= status < 300 ==> r == Ok::<(), ClientError>(()),
        !(200 <= status < 300) ==> r == Err::<(), ClientError>(ClientError::NetworkSwitch(body)),
{
    if 200 <= status && status < 300 {
        Ok(())
    } else {
        Err(ClientError::NetworkSwitch(body))
    }
}

/// Passes a fetched chain id through untouched; a transport failure
/// becomes a `Transport` error carrying the transport's words.
pub fn chain_id_outcome(fetched: Result<Uint256, String>) -> (r: Result<Uint256, ClientError>)
    ensures
        fetched matches Ok(c) ==> r == Ok::<Uint256, ClientError>(c),
        fetched matches Err(d) ==> r == Err::<Uint256, ClientError>(ClientError::Transport(d)),
{
    match fetched {
        Ok(c) => Ok(c),
        Err(d) => Err(ClientError::Transport(d)),
    }
}

/// Passes a fetched account list through untouched, in the order the
/// wallet reported it; an empty list is a valid answer, not a failure.
/// A transport failure becomes a `Transport` error.
pub fn accounts_outcome(fetched: Result<Vec<Address>, String>) -> (r: Result<
    Vec<Address>,
    ClientError,
>)
    ensures
        fetched matches Ok(accounts) ==> r == Ok::<Vec<Address>, ClientError>(accounts),
        fetched matches Err(d) ==> r == Err::<Vec<Address>, ClientError>(
            ClientError::Transport(d),
        ),
{
    match fetched {
        Ok(accounts) => Ok(accounts),
        Err(d) => Err(ClientError::Transport(d)),
    }
}

/// The terminal judgment of one submission attempt, as a value.
pub open spec fn spec_send_outcome(receipt: Option<TxHash>) -> Result<TxHash, ClientError> {
    match receipt {
        Some(h) => Ok(h),
        None => Err(ClientError::TransactionFailed),
    }
}

/// Judges what a submission resolved to: a present receipt yields the
/// transaction hash it carries, whole; an absent receipt — dropped or
/// never mined within the transport's tracking window — is the fixed
/// `TransactionFailed` failure. One attempt per call; no resubmission.
pub fn send_outcome(receipt: Option<TxHash>) -> (r: Result<TxHash, ClientError>)
    ensures
        r == spec_send_outcome(receipt),
        r matches Ok(h) ==> h@.len() == 32,
{
    match receipt {
        Some(h) => Ok(h),
        None => Err(ClientError::TransactionFailed),
    }
}

} // verus!
