//! The opening request: where to connect and which headers to present.

use crate::error::GummyError;
use crate::request::word_or;
use crate::text::text_or;
use vstd::prelude::*;

verus! {

/// The mathematical value of a [`ConnectRequest`].
pub struct ConnectRequestView {
    pub url: Seq<char>,
    pub headers: Seq<(Seq<char>, Seq<char>)>,
}

/// What the transport needs to open the channel: the address and the
/// headers of the opening request, by name and value, in order.
#[derive(Debug)]
pub struct ConnectRequest {
    pub url: String,
    pub headers: Vec<(String, String)>,
}

impl View for ConnectRequest {
    type V = ConnectRequestView;

    open spec fn view(&self) -> ConnectRequestView {
        ConnectRequestView {
            url: self.url@,
            headers: self.headers@.map_values(|h: (String, String)| (h.0@, h.1@)),
        }
    }
}

/// Whether a character can stand in the value of a header: a tab, or
/// anything from the space upwards but the delete character.
pub open spec fn header_char(c: char) -> bool {
    c == '\t' || (c >= ' ' && c != '\u{7f}')
}

/// Whether a text can be the value of a header.
pub open spec fn header_text(text: Seq<char>) -> bool {
    forall|i: int| 0 <= i < text.len() ==> header_char(#[trigger] text[i])
}

/// The value of the authorization header for a credential.
pub open spec fn bearer(credential: Seq<char>) -> Seq<char> {
    "Bearer "@ + credential
}

/// The opening request for a credential and an optional address.
pub open spec fn connect_request_of(credential: Seq<char>, url: Option<&str>) -> ConnectRequestView {
    ConnectRequestView {
        url: word_or(url, "wss://dashscope.aliyuncs.com/api-ws/v1/inference"@),
        headers: seq![
            ("Authorization"@, bearer(credential)),
            ("user-agent"@, "app"@),
            ("X-DashScope-WorkSpace"@, "llm-hxfupix3oo63uw6d"@),
            ("X-DashScope-DataInspection"@, "enable"@),
        ],
    }
}

/// `http::HeaderValue::from_str`, as `tungstenite` hands it on: whether the
/// text is accepted as a header value. It is accepted when each of its bytes
/// is a tab or at least 32 and not 127; the bytes of a character beyond
/// ASCII are all above 127, so this is a condition on the characters.
#[verifier::external_body]
pub(crate) fn is_header_text(text: &str) -> (r: bool)
    ensures
        r == header_text(text@),
{
    tungstenite::http::HeaderValue::from_str(text).is_ok()
}

/// How the attempt to open the channel ended.
#[derive(Debug, Clone, Copy, PartialEq, Eq, Structural)]
pub enum Handshake {
    /// The channel is open.
    Opened,
    /// The connection could not be negotiated: the name was not resolved,
    /// the peer was not reached, or it refused the upgrade.
    Failed,
}

/// Whether the transport takes a text as the address of a service: whether
/// the text becomes a client request.
pub uninterp spec fn client_address(url: Seq<char>) -> bool;

/// `tungstenite::client::IntoClientRequest::into_client_request` for `&str`:
/// whether the address becomes a request. The request itself carries a
/// random key; whether there is one depends on the address alone.
#[verifier::external_body]
pub(crate) fn is_client_address(url: &str) -> (r: bool)
    ensures
        r == client_address(url@),
{
    tungstenite::client::IntoClientRequest::into_client_request(url).is_ok()
}

/// Whether the address of a connection is accepted: the service's own
/// always is, a caller's where the transport takes it.
pub open spec fn address_accepted(url: Option<&str>) -> bool {
    match url {
        Some(u) => client_address(u@),
        None => true,
    }
}

/// The value of a planning result.
pub open spec fn plan_view(r: Result<ConnectRequest, GummyError>) -> Result<
    ConnectRequestView,
    GummyError,
> {
    match r {
        Ok(request) => Ok(request@),
        Err(e) => Err(e),
    }
}

/// The opening request, or why none is made: an address that is not
/// accepted is a transport error, a credential that cannot stand in a
/// header an authentication error.
pub open spec fn planned(credential: Seq<char>, url: Option<&str>, accepted: bool) -> Result<
    ConnectRequestView,
    GummyError,
> {
    if !accepted {
        Err(GummyError::Transport)
    } else if !header_text(bearer(credential)) {
        Err(GummyError::Auth)
    } else {
        Ok(connect_request_of(credential, url))
    }
}

/// Plans a connection, given whether its address is accepted.
pub fn plan_connection(credential: &str, url: Option<&str>, accepted: bool) -> (r: Result<
    ConnectRequest,
    GummyError,
>)
    ensures
        plan_view(r) == planned(credential@, url, accepted),
{
    if !accepted {
        return Err(GummyError::Transport);
    }
    let authorization = "Bearer ".to_owned().concat(credential);
    if !is_header_text(authorization.as_str()) {
        return Err(GummyError::Auth);
    }
    let mut headers: Vec<(String, String)> = Vec::new();
    headers.push(("Authorization".to_owned(), authorization));
    headers.push(("user-agent".to_owned(), "app".to_owned()));
    headers.push(("X-DashScope-WorkSpace".to_owned(), "llm-hxfupix3oo63uw6d".to_owned()));
    headers.push(("X-DashScope-DataInspection".to_owned(), "enable".to_owned()));
    let request = ConnectRequest {
        url: text_or(url, "wss://dashscope.aliyuncs.com/api-ws/v1/inference"),
        headers,
    };
    assert(request@.headers =~= connect_request_of(credential@, url).headers);
    Ok(request)
}

/// Tells whether the address of a connection is accepted.
pub fn accepts_address(url: Option<&str>) -> (r: bool)
    ensures
        r == address_accepted(url),
{
    match url {
        Some(u) => is_client_address(u),
        None => true,
    }
}

} // verus!
