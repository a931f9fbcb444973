//! The feed negotiator: the bootstrap call that hands out a connection token
//! and the candidate realtime endpoints.
use vstd::prelude::*;
use crate::api::Method;
use crate::signer::{headers_of, sign, AuthHeaders, Credentials, SignError};
use crate::websocket::{InstanceServer, InstanceServers};

verus! {

/// Why a connection could not be negotiated.
#[derive(Copy, Clone, Debug, PartialEq, Eq, Structural)]
pub enum NegotiateError {
    /// Private access was asked for without credentials.
    MissingCredentials,
    /// The credentials cannot sign the bootstrap call.
    Credentials(SignError),
    /// The venue answered with no endpoint.
    NoEndpoint,
}

/// The bootstrap call to make: its path, and its headers when it is signed.
#[derive(Clone, Debug, PartialEq, Eq)]
pub struct BulletRequest {
    pub path: String,
    pub headers: Option<AuthHeaders>,
}

/// Path of the bootstrap endpoint for public or private access.
pub open spec fn bullet_path_of(private: bool) -> Seq<char> {
    if private {
        "/api/v1/bullet-private"@
    } else {
        "/api/v1/bullet-public"@
    }
}

pub fn bullet_path(private: bool) -> (r: &'static str)
    ensures
        r@ == bullet_path_of(private),
{
    if private {
        "/api/v1/bullet-private"
    } else {
        "/api/v1/bullet-public"
    }
}

/// The bootstrap call for the given access, made at `timestamp`
/// (milliseconds since the epoch). Public access is not signed; private
/// access is a POST with an empty body signed with the credentials.
pub fn bullet_request(private: bool, credentials: Option<&Credentials>, timestamp: u64) -> (r: Result<
    BulletRequest,
    NegotiateError,
>)
    ensures
        !private ==> (r matches Ok(b) && b.path@ == bullet_path_of(false) && b.headers.is_none()),
        private && credentials.is_none() ==> r == Err::<BulletRequest, NegotiateError>(NegotiateError::MissingCredentials),
        private && credentials.is_some() && !credentials.unwrap().usable() ==> r == Err::<BulletRequest, NegotiateError>(
            NegotiateError::Credentials(SignError::MalformedCredentials),
        ),
        private && credentials.is_some() && credentials.unwrap().usable() ==> (r matches Ok(b) && b.path@ == bullet_path_of(true)
            && (b.headers matches Some(h) && h.parts() == headers_of(
            *credentials.unwrap(),
            Method::POST,
            bullet_path_of(true),
            Seq::empty(),
            timestamp,
        ))),
{
    let path = bullet_path(private);
    if !private {
        return Ok(BulletRequest { path: String::from_str(path), headers: None });
    }
    match credentials {
        None => Err(NegotiateError::MissingCredentials),
        Some(c) => {
            let empty = String::new();
            match sign(c, Method::POST, path, empty.as_str(), timestamp) {
                Ok(h) => Ok(BulletRequest { path: String::from_str(path), headers: Some(h) }),
                Err(e) => Err(NegotiateError::Credentials(e)),
            }
        },
    }
}

/// Accepts the venue's answer: an empty list of endpoints is its own failure.
pub fn accept_bullet(answer: InstanceServers) -> (r: Result<InstanceServers, NegotiateError>)
    ensures
        answer.instance_servers@.len() == 0 <==> r == Err::<InstanceServers, NegotiateError>(NegotiateError::NoEndpoint),
        answer.instance_servers@.len() > 0 ==> r == Ok::<InstanceServers, NegotiateError>(answer),
{
    if answer.instance_servers.len() == 0 {
        Err(NegotiateError::NoEndpoint)
    } else {
        Ok(answer)
    }
}

/// The address to open: the endpoint, then the token and the connection's
/// own id as query parameters.
pub open spec fn connect_url_of(endpoint: Seq<char>, token: Seq<char>, connect_id: Seq<char>) -> Seq<char> {
    endpoint + "?token="@ + token + "&connectId="@ + connect_id
}

pub fn connect_url(server: &InstanceServer, token: &str, connect_id: &str) -> (r: String)
    ensures
        r@ == connect_url_of(server.endpoint@, token@, connect_id@),
{
    let mut s = server.endpoint.clone();
    s.append("?token=");
    s.append(token);
    s.append("&connectId=");
    s.append(connect_id);
    s
}

} // verus!
