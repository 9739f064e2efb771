//! The decisions of an OAuth2 client-credentials session: when a cached token is
//! still good, when to refresh it and when to start over. Times are seconds on
//! a monotonic clock; the token exchanges run outside the library.
use vstd::prelude::*;

verus! {

/// How many seconds before its expiry a token is already treated as expired.
pub const EXPIRY_MARGIN: u64 = 30;

/// The lifetime assumed for a token whose response gives none.
pub const DEFAULT_LIFETIME: u64 = 3600;

/// The scopes asked for when a configuration names none.
pub open spec fn default_scopes() -> Seq<Seq<char>> {
    seq!["management-api:read"@, "management-api:write"@]
}

/// What is needed to obtain tokens: the client's credentials, the token
/// endpoint and the scopes to ask for.
pub struct OAuth2Config {
    pub client_id: String,
    pub client_secret: String,
    pub token_url: String,
    pub scopes: Vec<String>,
}

impl OAuth2Config {
    /// A configuration that asks for the default scopes.
    pub fn new(client_id: String, client_secret: String, token_url: String) -> (r: OAuth2Config)
        ensures
            r.client_id@ == client_id@,
            r.client_secret@ == client_secret@,
            r.token_url@ == token_url@,
            r.scopes@.map_values(|s: String| s@) == default_scopes(),
    {
        proof {
            reveal_strlit("management-api:read");
            reveal_strlit("management-api:write");
        }
        let mut scopes: Vec<String> = Vec::new();
        scopes.push(String::from_str("management-api:read"));
        scopes.push(String::from_str("management-api:write"));
        assert(scopes@.map_values(|s: String| s@) =~= default_scopes());
        OAuth2Config { client_id, client_secret, token_url, scopes }
    }
}

/// A token obtained from the authorization server, with its refresh token if
/// one came, and when it expires.
pub struct OAuthTokenSession {
    access_token: String,
    refresh_token: Option<String>,
    expires_at: u64,
}

/// What to do to hand out a token.
#[derive(PartialEq, Eq, Structural, Clone, Copy, Debug)]
pub enum TokenStep {
    /// The cached token is still good.
    UseCached,
    /// Exchange the cached refresh token for a new token.
    Refresh,
    /// Ask for a new token with the client's credentials.
    NewSession,
}

/// Whether a token expiring at `expires_at` counts as expired at `now`.
pub open spec fn expired(now: u64, expires_at: u64) -> bool {
    now + EXPIRY_MARGIN >= expires_at
}

/// When a token obtained at `now` expires, given the lifetime that came with it;
/// the largest time stands for never.
pub open spec fn expiry_of(now: u64, expires_in: Option<u64>) -> u64 {
    let life = match expires_in {
        Some(s) => s,
        None => DEFAULT_LIFETIME,
    };
    if now + life > u64::MAX {
        u64::MAX
    } else {
        (now + life) as u64
    }
}

impl OAuthTokenSession {
    pub closed spec fn spec_access_token(&self) -> Seq<char> {
        self.access_token@
    }

    pub closed spec fn spec_refresh_token(&self) -> Option<Seq<char>> {
        match self.refresh_token {
            Some(t) => Some(t@),
            None => None,
        }
    }

    pub closed spec fn spec_expires_at(&self) -> u64 {
        self.expires_at
    }

    pub fn new(access_token: String, refresh_token: Option<String>, expires_at: u64) -> (r: OAuthTokenSession)
        ensures
            r.spec_access_token() == access_token@,
            r.spec_refresh_token() == match refresh_token {
                Some(t) => Some(t@),
                None => None::<Seq<char>>,
            },
            r.spec_expires_at() == expires_at,
    {
        OAuthTokenSession { access_token, refresh_token, expires_at }
    }

    pub fn access_token(&self) -> (r: &str)
        ensures
            r@ == self.spec_access_token(),
    {
        self.access_token.as_str()
    }

    pub fn refresh_token(&self) -> (r: Option<&str>)
        ensures
            match r {
                Some(t) => self.spec_refresh_token() == Some(t@),
                None => self.spec_refresh_token() is None,
            },
    {
        match &self.refresh_token {
            Some(t) => Some(t.as_str()),
            None => None,
        }
    }

    pub fn expires_at(&self) -> (r: u64)
        ensures
            r == self.spec_expires_at(),
    {
        self.expires_at
    }

    /// Whether the token is expired at `now`, or will be within the margin.
    pub fn is_expired(&self, now: u64) -> (r: bool)
        ensures
            r == expired(now, self.spec_expires_at()),
    {
        now >= self.expires_at.saturating_sub(EXPIRY_MARGIN)
    }

    /// The session that a token response received at `now` opens: its access
    /// token, its refresh token or else `previous_refresh`, and its expiry.
    pub fn from_response(
        access_token: String,
        refresh_token: Option<String>,
        expires_in: Option<u64>,
        previous_refresh: Option<String>,
        now: u64,
    ) -> (r: OAuthTokenSession)
        ensures
            r.spec_access_token() == access_token@,
            r.spec_refresh_token() == match refresh_token {
                Some(t) => Some(t@),
                None => match previous_refresh {
                    Some(t) => Some(t@),
                    None => None::<Seq<char>>,
                },
            },
            r.spec_expires_at() == expiry_of(now, expires_in),
    {
        let life = match expires_in {
            Some(s) => s,
            None => DEFAULT_LIFETIME,
        };
        let kept = match refresh_token {
            Some(t) => Some(t),
            None => previous_refresh,
        };
        OAuthTokenSession { access_token, refresh_token: kept, expires_at: now.saturating_add(life) }
    }
}

/// The step that hands out a token at `now`, given the cached session.
pub open spec fn next_step_spec(session: Option<OAuthTokenSession>, now: u64) -> TokenStep {
    match session {
        None => TokenStep::NewSession,
        Some(s) => if !expired(now, s.spec_expires_at()) {
            TokenStep::UseCached
        } else if s.spec_refresh_token() is Some {
            TokenStep::Refresh
        } else {
            TokenStep::NewSession
        },
    }
}

/// Decides how to hand out a token at `now`: the cached one while it is good,
/// else a refresh where a refresh token is kept, else a new session.
pub fn next_step(session: Option<&OAuthTokenSession>, now: u64) -> (r: TokenStep)
    ensures
        r == next_step_spec(
            match session {
                Some(s) => Some(*s),
                None => None,
            },
            now,
        ),
{
    match session {
        None => TokenStep::NewSession,
        Some(s) => if !s.is_expired(now) {
            TokenStep::UseCached
        } else if s.refresh_token().is_some() {
            TokenStep::Refresh
        } else {
            TokenStep::NewSession
        },
    }
}

} // verus!
