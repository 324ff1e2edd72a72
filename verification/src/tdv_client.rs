//! What the client computes before it talks to the server and the user interface.

use vstd::prelude::*;
use crate::tdv_msg::{Connect, WsMessage};

verus! {

/// The error type of `url::Url::parse`.
#[verifier::external_type_specification]
#[verifier::external_body]
pub struct ExParseError(url::ParseError);

/// The text of the URL that `url::Url::parse` makes of `input` (its serialization,
/// `Url::as_str`), or `None` where `url::Url::parse` refuses `input`.
pub uninterp spec fn url_serialization(input: Seq<char>) -> Option<Seq<char>>;

/// Calls `url::Url::parse` on `input` and hands back the parsed URL's text.
/// Trusted: the result is the name `url_serialization` applied to `input`, the text when
/// the parse succeeds and an error exactly when it fails.
#[verifier::external_body]
fn parse_url(input: &str) -> (r: Result<String, url::ParseError>)
    ensures
        match r {
            Ok(text) => url_serialization(input@) == Some(text@),
            Err(_) => url_serialization(input@) is None,
        },
{
    match url::Url::parse(input) {
        Ok(url) => Ok(String::from(url)),
        Err(e) => Err(e),
    }
}

/// Why an address cannot be used.
#[derive(Debug, Clone, Copy, PartialEq, Eq, Structural)]
pub enum ClientError {
    /// `ws://` followed by the address is not a URL.
    InvalidAddress,
}

/// The websocket URI of a host and port, `ws://` followed by the address.
pub open spec fn spec_ws_uri(address: Seq<char>) -> Seq<char> {
    "ws://"@ + address
}

/// The URI is the five characters `ws://` followed by the whole address: it is five longer,
/// and dropping its first five characters gives the address back.
pub proof fn law_ws_uri_keeps_address(address: Seq<char>)
    ensures
        spec_ws_uri(address).len() == address.len() + 5,
        spec_ws_uri(address).subrange(0, 5) == seq!['w', 's', ':', '/', '/'],
        spec_ws_uri(address).subrange(5, spec_ws_uri(address).len() as int) == address,
{
    reveal_strlit("ws://");
    let u = spec_ws_uri(address);
    assert(u.subrange(0, 5) =~= seq!['w', 's', ':', '/', '/']);
    assert(u.subrange(5, u.len() as int) =~= address);
}

/// The websocket URI of `address`, e.g. `ws://0.0.0.0:9001` for `0.0.0.0:9001`.
pub fn ws_uri(address: &String) -> (r: String)
    ensures
        r@ == spec_ws_uri(address@),
{
    let mut uri = String::from_str("ws://");
    uri.append(address.as_str());
    uri
}

/// The URL of the server at `address_server`, as `url::Url` writes it.
pub fn server_url(address_server: &String) -> (r: Result<String, ClientError>)
    ensures
        match r {
            Ok(url) => url_serialization(spec_ws_uri(address_server@)) == Some(url@),
            Err(ClientError::InvalidAddress) => url_serialization(spec_ws_uri(address_server@)) is None,
        },
{
    let uri = ws_uri(address_server);
    match parse_url(uri.as_str()) {
        Ok(url) => Ok(url),
        Err(_) => Err(ClientError::InvalidAddress),
    }
}

/// The request that asks the user interface to open a websocket to the client at
/// `address_client`.
pub fn connect_request<V>(address_client: &String) -> (r: WsMessage<V>)
    ensures
        r matches WsMessage::Connect(c) && c.address@ == address_client@,
{
    WsMessage::Connect(Connect { address: address_client.clone() })
}

} // verus!
