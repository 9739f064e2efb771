//! Where requests to a connector's management API go and what JSON-LD context
//! their bodies carry; the requests themselves are sent outside the library.
use vstd::prelude::*;
use crate::auth::OAuth2Config;

verus! {

/// The version of the management API that a connector speaks.
#[derive(PartialEq, Eq, Structural, Clone, Copy, Debug)]
pub enum EdcConnectorApiVersion {
    V3,
    V4,
}

/// Which part of a participant-scoped API a request is for.
#[derive(PartialEq, Eq, Structural, Clone, Copy, Debug)]
pub enum ApiTarget {
    Participant,
    Admin,
}

/// The JSON-LD context that a request body is wrapped in.
#[derive(PartialEq, Eq, Structural, Clone, Copy, Debug)]
pub enum ContextKind {
    /// The connector's own vocabulary.
    Default,
    /// The ODRL context followed by the connector's vocabulary.
    Odrl,
    /// The context of the version 4 API.
    EdcV4,
}

pub open spec fn version_str(v: EdcConnectorApiVersion) -> Seq<char> {
    match v {
        EdcConnectorApiVersion::V3 => "v3"@,
        EdcConnectorApiVersion::V4 => "v4beta"@,
    }
}

impl EdcConnectorApiVersion {
    /// The path segment of the version.
    pub fn as_str(&self) -> (r: &'static str)
        ensures
            r@ == version_str(*self),
    {
        match self {
            EdcConnectorApiVersion::V3 => {
                proof {
                    reveal_strlit("v3");
                }
                "v3"
            },
            EdcConnectorApiVersion::V4 => {
                proof {
                    reveal_strlit("v4beta");
                }
                "v4beta"
            },
        }
    }
}

/// `parts` joined by `/`.
pub open spec fn joined(parts: Seq<Seq<char>>) -> Seq<char>
    decreases parts.len(),
{
    if parts.len() == 0 {
        Seq::empty()
    } else if parts.len() == 1 {
        parts[0]
    } else {
        joined(parts.drop_last()) + "/"@ + parts.last()
    }
}

/// Joins `parts` with `/` between each two.
pub fn join_path(parts: &Vec<&str>) -> (r: String)
    ensures
        r@ == joined(parts@.map_values(|p: &str| p@)),
{
    let ghost views = parts@.map_values(|p: &str| p@);
    let mut out = String::new();
    let mut i: usize = 0;
    proof {
        reveal_strlit("/");
        assert(views.take(0) =~= Seq::<Seq<char>>::empty());
    }
    while i < parts.len()
        invariant
            i <= parts@.len(),
            views == parts@.map_values(|p: &str| p@),
            out@ == joined(views.take(i as int)),
        decreases parts@.len() - i,
    {
        if i > 0 {
            out.append("/");
        }
        out.append(parts[i]);
        proof {
            let next = views.take(i + 1);
            assert(next.drop_last() =~= views.take(i as int));
            assert(next.last() == parts@[i as int]@);
            if i == 0 {
                assert(views.take(0) =~= Seq::<Seq<char>>::empty());
            }
        }
        i = i + 1;
    }
    proof {
        assert(views.take(parts@.len() as int) =~= views);
    }
    out
}

/// Where a connector's management API is and how to address it.
pub struct ManagementApi {
    pub management_url: String,
    pub version: EdcConnectorApiVersion,
    pub participant_context: Option<String>,
}

/// The segments a request path starts with.
pub open spec fn base_segments(api: ManagementApi, target: ApiTarget) -> Seq<Seq<char>> {
    match api.participant_context {
        Some(pc) => match target {
            ApiTarget::Participant => seq![api.management_url@, "v4alpha"@, "participants"@, pc@],
            ApiTarget::Admin => seq![api.management_url@, "v4alpha"@],
        },
        None => seq![api.management_url@, version_str(api.version)],
    }
}

/// The context for a body sent to a connector of version `v`.
pub open spec fn context_spec(v: EdcConnectorApiVersion, include_odrl: bool) -> ContextKind {
    match v {
        EdcConnectorApiVersion::V3 => if include_odrl {
            ContextKind::Odrl
        } else {
            ContextKind::Default
        },
        EdcConnectorApiVersion::V4 => ContextKind::EdcV4,
    }
}

impl ManagementApi {
    /// The URL of `paths` in the participant part of the API.
    pub fn path_for(&self, paths: &Vec<&str>) -> (r: String)
        ensures
            r@ == joined(base_segments(*self, ApiTarget::Participant) + paths@.map_values(|p: &str| p@)),
    {
        self.path_for_target(ApiTarget::Participant, paths)
    }

    /// The URL of `paths` in the `target` part of the API: under the participant
    /// context where one is set, else under the API version.
    pub fn path_for_target(&self, target: ApiTarget, paths: &Vec<&str>) -> (r: String)
        ensures
            r@ == joined(base_segments(*self, target) + paths@.map_values(|p: &str| p@)),
    {
        let mut parts: Vec<&str> = Vec::new();
        parts.push(self.management_url.as_str());
        match &self.participant_context {
            Some(pc) => {
                proof {
                    reveal_strlit("v4alpha");
                    reveal_strlit("participants");
                }
                parts.push("v4alpha");
                match target {
                    ApiTarget::Participant => {
                        parts.push("participants");
                        parts.push(pc.as_str());
                    },
                    ApiTarget::Admin => {},
                }
            },
            None => {
                parts.push(self.version.as_str());
            },
        }
        let ghost base = parts@;
        let mut i: usize = 0;
        while i < paths.len()
            invariant
                i <= paths@.len(),
                parts@ == base + paths@.take(i as int),
            decreases paths@.len() - i,
        {
            parts.push(paths[i]);
            proof {
                assert(paths@.take(i + 1) =~= paths@.take(i as int).push(paths@[i as int]));
            }
            i = i + 1;
        }
        proof {
            assert(paths@.take(paths@.len() as int) =~= paths@);
            assert(parts@.map_values(|p: &str| p@) =~= base_segments(*self, target) + paths@.map_values(
                |p: &str| p@,
            ));
        }
        join_path(&parts)
    }

    /// The context for a body, without the ODRL vocabulary.
    pub fn context_for(&self) -> (r: ContextKind)
        ensures
            r == context_spec(self.version, false),
    {
        self.context_for_with_opts(false)
    }

    /// The context for a body: by version, and with the ODRL vocabulary where
    /// asked for on version 3.
    pub fn context_for_with_opts(&self, include_odrl: bool) -> (r: ContextKind)
        ensures
            r == context_spec(self.version, include_odrl),
    {
        match self.version {
            EdcConnectorApiVersion::V3 => if include_odrl {
                ContextKind::Odrl
            } else {
                ContextKind::Default
            },
            EdcConnectorApiVersion::V4 => ContextKind::EdcV4,
        }
    }

    /// The URL of `paths` under the version 3 resource `resource`, which the
    /// EDR cache and transfer processes are always addressed by.
    pub fn v3_endpoint(&self, resource: &str, paths: &Vec<&str>) -> (r: String)
        ensures
            r@ == joined(seq![self.management_url@, "v3"@, resource@] + paths@.map_values(|p: &str| p@)),
    {
        let mut parts: Vec<&str> = Vec::new();
        parts.push(self.management_url.as_str());
        proof {
            reveal_strlit("v3");
        }
        parts.push("v3");
        parts.push(resource);
        let ghost base = parts@;
        let mut i: usize = 0;
        while i < paths.len()
            invariant
                i <= paths@.len(),
                parts@ == base + paths@.take(i as int),
            decreases paths@.len() - i,
        {
            parts.push(paths[i]);
            proof {
                assert(paths@.take(i + 1) =~= paths@.take(i as int).push(paths@[i as int]));
            }
            i = i + 1;
        }
        proof {
            assert(paths@.take(paths@.len() as int) =~= paths@);
            assert(parts@.map_values(|p: &str| p@) =~= seq![self.management_url@, "v3"@, resource@]
                + paths@.map_values(|p: &str| p@));
        }
        join_path(&parts)
    }
}

/// Whether an HTTP status code reports success (the 2xx range).
pub fn is_success(status: u16) -> (r: bool)
    ensures
        r == (200 <= status <= 299),
{
    200 <= status && status <= 299
}

/// A failure reported by the management API: the status code and the body's text.
#[derive(Clone, Debug)]
pub struct ManagementApiError {
    pub status_code: u16,
    pub detail: String,
}

pub open spec fn edr_not_found_text(id: Seq<char>) -> Seq<char> {
    "EDR entry with id "@ + id + " not found"@
}

/// The first of the EDR entries that a lookup by transfer process `id` found,
/// or a not-found failure naming `id` where there is none.
pub fn first_entry<E>(entries: Vec<E>, id: &str) -> (r: Result<E, ManagementApiError>)
    ensures
        entries@.len() > 0 ==> r == Result::<E, ManagementApiError>::Ok(entries@[0]),
        entries@.len() == 0 ==> (r matches Err(e) && e.status_code == 404 && e.detail@
            == edr_not_found_text(id@)),
{
    let mut entries = entries;
    if entries.len() > 0 {
        Ok(entries.remove(0))
    } else {
        proof {
            reveal_strlit("EDR entry with id ");
            reveal_strlit(" not found");
        }
        let mut detail = String::from_str("EDR entry with id ");
        detail.append(id);
        detail.append(" not found");
        Err(ManagementApiError { status_code: 404, detail })
    }
}

/// How requests authenticate: not at all, with an API key, or with OAuth2
/// tokens obtained with the given configuration.
pub enum Auth {
    NoAuth,
    ApiToken(String),
    OAuth2(OAuth2Config),
}

impl Auth {
    pub fn api_token(token: String) -> (r: Auth)
        ensures
            r matches Auth::ApiToken(t) && t@ == token@,
    {
        Auth::ApiToken(token)
    }

    pub fn oauth(cfg: OAuth2Config) -> (r: Auth)
        ensures
            r == Auth::OAuth2(cfg),
    {
        Auth::OAuth2(cfg)
    }
}

/// The header that authenticates a request: its name and its value.
pub struct AuthHeader {
    pub name: String,
    pub value: String,
}

/// The header for `auth`; `token` is the OAuth2 access token, needed only there.
pub open spec fn auth_header_spec(auth: Auth, token: Seq<char>) -> Option<(Seq<char>, Seq<char>)> {
    match auth {
        Auth::NoAuth => None,
        Auth::ApiToken(t) => Some(("X-Api-Key"@, t@)),
        Auth::OAuth2(_) => Some(("Authorization"@, "Bearer "@ + token)),
    }
}

/// The header that authenticates a request under `auth`, if any.
pub fn auth_header(auth: &Auth, token: &str) -> (r: Option<AuthHeader>)
    ensures
        match r {
            Some(h) => auth_header_spec(*auth, token@) == Some((h.name@, h.value@)),
            None => auth_header_spec(*auth, token@) is None,
        },
{
    match auth {
        Auth::NoAuth => None,
        Auth::ApiToken(t) => {
            proof {
                reveal_strlit("X-Api-Key");
            }
            Some(AuthHeader { name: String::from_str("X-Api-Key"), value: t.clone() })
        },
        Auth::OAuth2(_) => {
            proof {
                reveal_strlit("Authorization");
                reveal_strlit("Bearer ");
            }
            let mut value = String::from_str("Bearer ");
            value.append(token);
            Some(AuthHeader { name: String::from_str("Authorization"), value })
        },
    }
}

/// A client could not be built.
#[derive(Clone, Debug)]
pub enum BuilderError {
    /// A property that must be set was not.
    MissingProperty(String),
}

impl BuilderError {
    pub fn missing_property(name: &str) -> (r: BuilderError)
        ensures
            r matches BuilderError::MissingProperty(n) && n@ == name@,
    {
        BuilderError::MissingProperty(name.to_owned())
    }
}

/// What a client is built from: where the API is, how to authenticate.
pub struct ClientSettings {
    pub api: ManagementApi,
    pub auth: Auth,
}

/// Collects a client's settings; only the management URL must be given.
pub struct EdcClientConnectorBuilder {
    management_url: Option<String>,
    auth: Auth,
    version: EdcConnectorApiVersion,
    participant_context: Option<String>,
}

/// A builder's settings as plain values.
pub struct BuilderView {
    pub management_url: Option<Seq<char>>,
    pub auth: Auth,
    pub version: EdcConnectorApiVersion,
    pub participant_context: Option<Seq<char>>,
}

pub open spec fn opt_view(s: Option<String>) -> Option<Seq<char>> {
    match s {
        Some(t) => Some(t@),
        None => None,
    }
}

impl View for EdcClientConnectorBuilder {
    type V = BuilderView;

    closed spec fn view(&self) -> BuilderView {
        BuilderView {
            management_url: opt_view(self.management_url),
            auth: self.auth,
            version: self.version,
            participant_context: opt_view(self.participant_context),
        }
    }
}

impl Default for EdcClientConnectorBuilder {
    /// No URL, no authentication, version 3, no participant context.
    fn default() -> (r: EdcClientConnectorBuilder)
        ensures
            r@ == (BuilderView {
                management_url: None,
                auth: Auth::NoAuth,
                version: EdcConnectorApiVersion::V3,
                participant_context: None,
            }),
    {
        EdcClientConnectorBuilder {
            management_url: None,
            auth: Auth::NoAuth,
            version: EdcConnectorApiVersion::V3,
            participant_context: None,
        }
    }
}

impl EdcClientConnectorBuilder {
    pub fn management_url(self, url: String) -> (r: EdcClientConnectorBuilder)
        ensures
            r@ == (BuilderView { management_url: Some(url@), ..self@ }),
    {
        EdcClientConnectorBuilder { management_url: Some(url), ..self }
    }

    pub fn with_auth(self, auth: Auth) -> (r: EdcClientConnectorBuilder)
        ensures
            r@ == (BuilderView { auth, ..self@ }),
    {
        EdcClientConnectorBuilder { auth, ..self }
    }

    pub fn version(self, version: EdcConnectorApiVersion) -> (r: EdcClientConnectorBuilder)
        ensures
            r@ == (BuilderView { version, ..self@ }),
    {
        EdcClientConnectorBuilder { version, ..self }
    }

    pub fn participant_context(self, participant_context: String) -> (r: EdcClientConnectorBuilder)
        ensures
            r@ == (BuilderView { participant_context: Some(participant_context@), ..self@ }),
    {
        EdcClientConnectorBuilder { participant_context: Some(participant_context), ..self }
    }

    pub fn maybe_participant_context(self, participant_context: Option<String>) -> (r: EdcClientConnectorBuilder)
        ensures
            r@ == (BuilderView { participant_context: opt_view(participant_context), ..self@ }),
    {
        EdcClientConnectorBuilder { participant_context, ..self }
    }

    /// The settings, or the failure naming the management URL where none was given.
    pub fn build(self) -> (r: Result<ClientSettings, BuilderError>)
        ensures
            match self@.management_url {
                Some(u) => r matches Ok(s) && s.api.management_url@ == u && s.api.version == self@.version
                    && opt_view(s.api.participant_context) == self@.participant_context && s.auth
                    == self@.auth,
                None => r matches Err(BuilderError::MissingProperty(n)) && n@ == "management_url"@,
            },
    {
        match self.management_url {
            Some(url) => Ok(ClientSettings {
                api: ManagementApi {
                    management_url: url,
                    version: self.version,
                    participant_context: self.participant_context,
                },
                auth: self.auth,
            }),
            None => {
                proof {
                    reveal_strlit("management_url");
                }
                Err(BuilderError::missing_property("management_url"))
            },
        }
    }
}

} // verus!
