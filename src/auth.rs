use vstd::prelude::*;
use crate::error::SyncError;
use crate::types::TokenResponse;

verus! {

/// The settings that authorization needs. Each is absent until configured.
pub struct AuthConfig {
    pub client_id: Option<String>,
    pub client_secret: Option<String>,
    pub redirect_uri: Option<String>,
}

/// The credential of one account: a bearer token and, when the service gave one,
/// a refresh token.
#[derive(Clone, Debug)]
pub struct SpotifyAuth {
    pub access_token: String,
    pub refresh_token: Option<String>,
}

/// The permissions asked for: reading and changing the liked-songs library.
pub open spec fn scopes() -> Seq<char> {
    "user-library-read user-library-modify"@
}

/// The authorize URL for a client, its redirect URI and the slot to route back to.
pub open spec fn authorize_url(client_id: Seq<char>, redirect_uri: Seq<char>, state: Seq<char>) -> Seq<char> {
    "https://accounts.spotify.com/authorize?client_id="@ + client_id + "&response_type=code&redirect_uri="@
        + redirect_uri + "&scope="@ + scopes() + "&state="@ + state
}

/// The fields of a form, as pairs of texts.
pub open spec fn form_view(v: Seq<(String, String)>) -> Seq<(Seq<char>, Seq<char>)> {
    v.map_values(|p: (String, String)| (p.0@, p.1@))
}

/// The form that trades an authorization code for tokens.
pub open spec fn token_form_fields(
    code: Seq<char>,
    redirect_uri: Seq<char>,
    client_id: Seq<char>,
    client_secret: Seq<char>,
) -> Seq<(Seq<char>, Seq<char>)> {
    seq![
        ("grant_type"@, "authorization_code"@),
        ("code"@, code),
        ("redirect_uri"@, redirect_uri),
        ("client_id"@, client_id),
        ("client_secret"@, client_secret),
    ]
}

fn text_pair(a: &str, b: &str) -> (r: (String, String))
    ensures
        r.0@ == a@,
        r.1@ == b@,
{
    (String::from_str(a), String::from_str(b))
}

impl SpotifyAuth {
    /// A credential that holds no token yet.
    pub fn new() -> (r: SpotifyAuth)
        ensures
            r.access_token@ == Seq::<char>::empty(),
            r.refresh_token.is_none(),
    {
        SpotifyAuth { access_token: String::new(), refresh_token: None }
    }

    /// The URL that sends the user to authorize this client; `panel` is carried
    /// as the state so that the redirect can be routed back to its slot.
    pub fn get_auth_url(panel: &str, config: &AuthConfig) -> (r: Result<String, SyncError>)
        ensures
            r.is_err() <==> config.client_id.is_none() || config.redirect_uri.is_none(),
            r matches Err(e) ==> e == SyncError::Config,
            r matches Ok(u) ==> u@ == authorize_url(
                config.client_id->0@,
                config.redirect_uri->0@,
                panel@,
            ),
    {
        match (&config.client_id, &config.redirect_uri) {
            (Some(client_id), Some(redirect_uri)) => {
                let mut url = String::from_str("https://accounts.spotify.com/authorize?client_id=");
                url.append(client_id.as_str());
                url.append("&response_type=code&redirect_uri=");
                url.append(redirect_uri.as_str());
                url.append("&scope=");
                url.append("user-library-read user-library-modify");
                url.append("&state=");
                url.append(panel);
                Ok(url)
            },
            _ => Err(SyncError::Config),
        }
    }

    /// The form fields of the request that trades `code` for tokens.
    pub fn token_form(code: &str, config: &AuthConfig) -> (r: Result<Vec<(String, String)>, SyncError>)
        ensures
            r.is_err() <==> config.client_id.is_none() || config.client_secret.is_none()
                || config.redirect_uri.is_none(),
            r matches Err(e) ==> e == SyncError::Config,
            r matches Ok(v) ==> form_view(v@) == token_form_fields(
                code@,
                config.redirect_uri->0@,
                config.client_id->0@,
                config.client_secret->0@,
            ),
    {
        match (&config.client_id, &config.client_secret, &config.redirect_uri) {
            (Some(client_id), Some(client_secret), Some(redirect_uri)) => {
                let mut v: Vec<(String, String)> = Vec::new();
                v.push(text_pair("grant_type", "authorization_code"));
                v.push(text_pair("code", code));
                v.push(text_pair("redirect_uri", redirect_uri.as_str()));
                v.push(text_pair("client_id", client_id.as_str()));
                v.push(text_pair("client_secret", client_secret.as_str()));
                assert(form_view(v@) =~= token_form_fields(
                    code@,
                    redirect_uri@,
                    client_id@,
                    client_secret@,
                ));
                Ok(v)
            },
            _ => Err(SyncError::Config),
        }
    }

    /// Takes the tokens of the token endpoint's reply; the refresh token may be
    /// absent, and any earlier token is replaced.
    pub fn apply_token_response(&mut self, response: TokenResponse)
        ensures
            final(self).access_token == response.access_token,
            final(self).refresh_token == response.refresh_token,
    {
        self.access_token = response.access_token;
        self.refresh_token = response.refresh_token;
    }
}

} // verus!
