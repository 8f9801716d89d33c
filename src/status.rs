//! The live-status check of a streaming channel: the token request, the
//! channel search that follows it, and the classification of its answer.
//! The two HTTP exchanges are made by the caller, which hands back what it
//! received (`None` where the call failed or its body could not be decoded).
use vstd::prelude::*;
use vstd::string::*;

verus! {

/// The client id and secret registered with the streaming platform.
pub struct Credentials {
    pub client_id: String,
    pub client_secret: String,
}

/// The client-credentials token exchange, sent with `POST`.
pub struct TokenRequest {
    pub url: String,
}

/// The channel search, sent with `GET` and the two headers below.
pub struct SearchRequest {
    pub url: String,
    /// Value of the `client-id` header.
    pub client_id: String,
    /// Value of the `Authorization` header.
    pub authorization: String,
}

/// Why a status check gave no answer.
#[derive(PartialEq, Eq, Structural, Clone, Copy, Debug)]
pub enum StatusError {
    /// The identity endpoint failed or sent an undecodable body.
    AuthFailure,
    /// The search endpoint failed or sent an undecodable body.
    FetchError,
    /// The search found no channel.
    NotFound,
}

/// Whether the queried channel is broadcasting.
#[derive(PartialEq, Eq, Debug)]
pub struct LiveStatus {
    pub username: String,
    pub is_live: bool,
}

pub open spec fn token_url(client_id: Seq<char>, client_secret: Seq<char>) -> Seq<char> {
    "https://id.twitch.tv/oauth2/token?client_id="@ + client_id + "&client_secret="@
        + client_secret + "&grant_type=client_credentials"@
}

pub open spec fn search_url(username: Seq<char>) -> Seq<char> {
    "https://api.twitch.tv/helix/search/channels?query="@ + username
}

pub open spec fn bearer(token: Seq<char>) -> Seq<char> {
    "Bearer "@ + token
}

/// The outcome owed to a search that returned `data` (the liveness flag of
/// each channel found, in order), or failed where `data` is `None`.
pub open spec fn outcome_for(username: Seq<char>, data: Option<Seq<bool>>) -> Result<
    (Seq<char>, bool),
    StatusError,
> {
    match data {
        None => Err(StatusError::FetchError),
        Some(d) => if d.len() == 0 {
            Err(StatusError::NotFound)
        } else {
            Ok((username, d[0]))
        },
    }
}

/// The mathematical form of a status check's result.
pub open spec fn outcome_view(r: &Result<LiveStatus, StatusError>) -> Result<(Seq<char>, bool), StatusError> {
    match r {
        Ok(s) => Ok((s.username@, s.is_live)),
        Err(e) => Err(*e),
    }
}

/// The token request for these credentials.
pub fn token_request(creds: &Credentials) -> (r: TokenRequest)
    ensures
        r.url@ == token_url(creds.client_id@, creds.client_secret@),
{
    let mut url = String::from_str("https://id.twitch.tv/oauth2/token?client_id=");
    url.append(creds.client_id.as_str());
    url.append("&client_secret=");
    url.append(creds.client_secret.as_str());
    url.append("&grant_type=client_credentials");
    TokenRequest { url }
}

/// The search to send once the token exchange answered with `token`; an
/// exchange that failed (`None`) ends the check with `AuthFailure`.
pub fn search_request(creds: &Credentials, username: &str, token: Option<String>) -> (r: Result<
    SearchRequest,
    StatusError,
>)
    ensures
        token is None <==> r == Err::<SearchRequest, StatusError>(StatusError::AuthFailure),
        token is None <==> r is Err,
        match (token, r) {
            (Some(t), Ok(q)) => {
                &&& q.url@ == search_url(username@)
                &&& q.client_id@ == creds.client_id@
                &&& q.authorization@ == bearer(t@)
            },
            _ => true,
        },
{
    match token {
        None => Err(StatusError::AuthFailure),
        Some(t) => {
            let mut url = String::from_str("https://api.twitch.tv/helix/search/channels?query=");
            url.append(username);
            let mut authorization = String::from_str("Bearer ");
            authorization.append(t.as_str());
            let client_id = creds.client_id.clone();
            Ok(SearchRequest { url, client_id, authorization })
        },
    }
}

/// Classifies the search answer for `username`: the first channel found
/// decides; none found is `NotFound`; a failed search is `FetchError`.
pub fn classify(username: &str, data: Option<Vec<bool>>) -> (r: Result<LiveStatus, StatusError>)
    ensures
        outcome_view(&r) == outcome_for(username@, match data {
            Some(d) => Some(d@),
            None => None,
        }),
{
    match data {
        None => Err(StatusError::FetchError),
        Some(d) => {
            if d.len() == 0 {
                Err(StatusError::NotFound)
            } else {
                Ok(LiveStatus { username: String::from_str(username), is_live: d[0] })
            }
        },
    }
}

} // verus!
