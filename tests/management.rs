use edc_tui::auth::{next_step, OAuth2Config, OAuthTokenSession, TokenStep};
use edc_tui::client::{
    auth_header, first_entry, is_success, join_path, ApiTarget, Auth, BuilderError, ContextKind,
    EdcClientConnectorBuilder, EdcConnectorApiVersion, ManagementApi,
};
use edc_tui::config::{app_config_path, default_file, join, Config, ConnectorConfig};
use edc_tui::query::{Criterion, Query, Sort, SortOrder};
use edc_tui::participants::{NewParticipantContext, ParticipantContextConfig};
use serde_json::Value;
use std::collections::HashMap;

fn api(url: &str, version: EdcConnectorApiVersion, pc: Option<&str>) -> ManagementApi {
    ManagementApi {
        management_url: url.to_string(),
        version,
        participant_context: pc.map(|s| s.to_string()),
    }
}

#[test]
fn default_query_is_first_page_of_fifty() {
    let q = Query::default();
    assert_eq!(q.offset(), 0);
    assert_eq!(q.limit(), 50);
    assert!(q.sort().is_none());
    assert!(q.filter_expression().is_empty());
}

#[test]
fn builder_sets_paging_sort_and_filters_in_order() {
    let q = Query::builder()
        .filter("assetId", "=", Value::String("a1".to_string()))
        .filter("size", ">", Value::from(3))
        .sort("createdAt", SortOrder::Asc)
        .sort("id", SortOrder::Desc)
        .limit(10)
        .offset(20)
        .build();
    assert_eq!(q.offset(), 20);
    assert_eq!(q.limit(), 10);
    let s = q.sort().unwrap();
    assert_eq!(s.field(), "id");
    assert_eq!(s.order(), SortOrder::Desc);
    let f = q.filter_expression();
    assert_eq!(f.len(), 2);
    assert_eq!(f[0].operand_left(), "assetId");
    assert_eq!(f[0].operator(), "=");
    assert_eq!(f[0].operand_right(), &Value::String("a1".to_string()));
    assert_eq!(f[1].operand_left(), "size");
    assert_eq!(f[1].operand_right(), &Value::from(3));
}

#[test]
fn sort_and_criterion_constructors() {
    let s = Sort::new("name".to_string(), SortOrder::Asc);
    assert_eq!(s.field(), "name");
    assert_eq!(s.order(), SortOrder::Asc);
    let c = Criterion::new("transferProcessId", "=", Value::String("t".to_string()));
    assert_eq!(c.operand_left(), "transferProcessId");
    assert_eq!(c.operator(), "=");
    assert_eq!(c.operand_right(), &Value::String("t".to_string()));
}

#[test]
fn version_path_segments() {
    assert_eq!(EdcConnectorApiVersion::V3.as_str(), "v3");
    assert_eq!(EdcConnectorApiVersion::V4.as_str(), "v4beta");
}

#[test]
fn join_path_puts_slashes_between() {
    assert_eq!(join_path(&vec!["a", "b", "c"]), "a/b/c");
    assert_eq!(join_path(&vec!["only"]), "only");
    assert_eq!(join_path(&vec![]), "");
}

#[test]
fn paths_under_the_version() {
    let a = api("http://localhost:29193/management", EdcConnectorApiVersion::V3, None);
    assert_eq!(a.path_for(&vec!["assets", "request"]), "http://localhost:29193/management/v3/assets/request");
    let b = api("http://h/m", EdcConnectorApiVersion::V4, None);
    assert_eq!(b.path_for(&vec!["assets", "a1"]), "http://h/m/v4beta/assets/a1");
    assert_eq!(b.path_for_target(ApiTarget::Admin, &vec![]), "http://h/m/v4beta");
}

#[test]
fn paths_under_a_participant_context() {
    let a = api("http://h/m", EdcConnectorApiVersion::V3, Some("pc-a"));
    assert_eq!(a.path_for(&vec!["assets"]), "http://h/m/v4alpha/participants/pc-a/assets");
    assert_eq!(
        a.path_for_target(ApiTarget::Admin, &vec!["participants"]),
        "http://h/m/v4alpha/participants"
    );
}

#[test]
fn v3_endpoints_ignore_version_and_context() {
    let a = api("http://h/m", EdcConnectorApiVersion::V4, Some("pc-a"));
    assert_eq!(a.v3_endpoint("edrs", &vec!["t1", "dataaddress"]), "http://h/m/v3/edrs/t1/dataaddress");
    assert_eq!(a.v3_endpoint("transferprocesses", &vec![]), "http://h/m/v3/transferprocesses");
}

#[test]
fn context_by_version() {
    let v3 = api("u", EdcConnectorApiVersion::V3, None);
    assert_eq!(v3.context_for(), ContextKind::Default);
    assert_eq!(v3.context_for_with_opts(true), ContextKind::Odrl);
    let v4 = api("u", EdcConnectorApiVersion::V4, None);
    assert_eq!(v4.context_for(), ContextKind::EdcV4);
    assert_eq!(v4.context_for_with_opts(true), ContextKind::EdcV4);
}

#[test]
fn success_statuses() {
    assert!(is_success(200));
    assert!(is_success(204));
    assert!(is_success(299));
    assert!(!is_success(199));
    assert!(!is_success(300));
    assert!(!is_success(404));
}

#[test]
fn first_entry_or_not_found() {
    assert_eq!(first_entry(vec![3, 4], "t").unwrap(), 3);
    let e = first_entry::<u8>(vec![], "t-42").unwrap_err();
    assert_eq!(e.status_code, 404);
    assert_eq!(e.detail, "EDR entry with id t-42 not found");
}

#[test]
fn oauth_config_default_scopes() {
    let c = OAuth2Config::new("id".to_string(), "SECRET-REDACTED".to_string(), "http://t".to_string());
    assert_eq!(c.client_id, "id");
    assert_eq!(c.token_url, "http://t");
    assert_eq!(c.scopes, vec!["management-api:read".to_string(), "management-api:write".to_string()]);
}

#[test]
fn token_expiry_margin() {
    let s = OAuthTokenSession::new("tok".to_string(), None, 100);
    assert_eq!(s.access_token(), "tok");
    assert!(s.refresh_token().is_none());
    assert_eq!(s.expires_at(), 100);
    assert!(!s.is_expired(69));
    assert!(s.is_expired(70));
    assert!(s.is_expired(100));
    let early = OAuthTokenSession::new("t".to_string(), None, 10);
    assert!(early.is_expired(0));
}

#[test]
fn sessions_from_responses() {
    let s = OAuthTokenSession::from_response("a".to_string(), None, Some(60), Some("old".to_string()), 1000);
    assert_eq!(s.access_token(), "a");
    assert_eq!(s.refresh_token(), Some("old"));
    assert_eq!(s.expires_at(), 1060);
    let t = OAuthTokenSession::from_response("b".to_string(), Some("new".to_string()), None, Some("old".to_string()), 5);
    assert_eq!(t.refresh_token(), Some("new"));
    assert_eq!(t.expires_at(), 3605);
    let u = OAuthTokenSession::from_response("c".to_string(), None, Some(u64::MAX), None, 5);
    assert_eq!(u.refresh_token(), None);
    assert_eq!(u.expires_at(), u64::MAX);
}

#[test]
fn token_steps() {
    assert_eq!(next_step(None, 0), TokenStep::NewSession);
    let fresh = OAuthTokenSession::new("a".to_string(), None, 1000);
    assert_eq!(next_step(Some(&fresh), 10), TokenStep::UseCached);
    assert_eq!(next_step(Some(&fresh), 990), TokenStep::NewSession);
    let refreshable = OAuthTokenSession::new("a".to_string(), Some("r".to_string()), 1000);
    assert_eq!(next_step(Some(&refreshable), 980), TokenStep::Refresh);
    assert_eq!(next_step(Some(&refreshable), 969), TokenStep::UseCached);
}

#[test]
fn config_paths() {
    assert_eq!(default_file("/home/u/.config/edc-tui"), "/home/u/.config/edc-tui/config.toml");
    assert_eq!(default_file("/tmp/"), "/tmp/config.toml");
    assert_eq!(default_file(""), "config.toml");
    assert_eq!(app_config_path(Some("/home/u/.config")).unwrap(), "/home/u/.config/edc-tui");
    assert_eq!(
        app_config_path(None).unwrap_err().message,
        "failed to find os config dir."
    );
}

#[test]
fn connector_config_fields() {
    let c = ConnectorConfig::new("provider".to_string(), "http://localhost:19193/management".to_string());
    assert_eq!(c.name(), "provider");
    assert_eq!(c.address(), "http://localhost:19193/management");
    let cfg = Config { connectors: vec![c.clone()] };
    assert_eq!(cfg.connectors[0].name(), "provider");
}

#[test]
fn builder_needs_a_management_url() {
    let missing = EdcClientConnectorBuilder::default().build();
    match missing {
        Err(BuilderError::MissingProperty(p)) => assert_eq!(p, "management_url"),
        Ok(_) => panic!("built without a management url"),
    }
    let built = EdcClientConnectorBuilder::default()
        .management_url("http://h/m".to_string())
        .version(EdcConnectorApiVersion::V4)
        .participant_context("p".to_string())
        .with_auth(Auth::api_token("k".to_string()))
        .build()
        .ok()
        .unwrap();
    assert_eq!(built.api.management_url, "http://h/m");
    assert_eq!(built.api.version, EdcConnectorApiVersion::V4);
    assert_eq!(built.api.participant_context.as_deref(), Some("p"));
    assert!(matches!(built.auth, Auth::ApiToken(ref t) if t == "k"));
    let cleared = EdcClientConnectorBuilder::default()
        .management_url("u".to_string())
        .participant_context("p".to_string())
        .maybe_participant_context(None)
        .build()
        .ok()
        .unwrap();
    assert!(cleared.api.participant_context.is_none());
    assert_eq!(cleared.api.version, EdcConnectorApiVersion::V3);
    assert!(matches!(cleared.auth, Auth::NoAuth));
}

#[test]
fn authentication_headers() {
    assert!(auth_header(&Auth::NoAuth, "").is_none());
    let k = auth_header(&Auth::api_token("key-1".to_string()), "").unwrap();
    assert_eq!((k.name.as_str(), k.value.as_str()), ("X-Api-Key", "key-1"));
    let cfg = OAuth2Config::new("id".to_string(), "SECRET-REDACTED".to_string(), "http://t".to_string());
    let b = auth_header(&Auth::oauth(cfg), "abc").unwrap();
    assert_eq!((b.name.as_str(), b.value.as_str()), ("Authorization", "Bearer abc"));
}

#[test]
fn joining_path_components() {
    assert_eq!(join("/home/u", ".config"), "/home/u/.config");
    assert_eq!(join("/", "etc"), "/etc");
    assert_eq!(join("", "rel"), "rel");
}

#[test]
fn participant_contexts_have_standard_types() {
    let p = NewParticipantContext::new("did:web:p".to_string(), Some("pc-a".to_string()));
    assert_eq!(p.identity, "did:web:p");
    assert_eq!(p.id.as_deref(), Some("pc-a"));
    assert_eq!(p.ty, "ParticipantContext");
    let mut entries = HashMap::new();
    entries.insert("k".to_string(), "v".to_string());
    let c = ParticipantContextConfig::new(entries.clone());
    assert_eq!(c.ty, "ParticipantContextConfig");
    assert_eq!(c.entries, entries);
    assert!(c.private_entries.is_empty());
    let mut private = HashMap::new();
    private.insert("secret".to_string(), "SECRET-REDACTED".to_string());
    let c = c.with_private_entries(private.clone());
    assert_eq!(c.private_entries, private);
    assert_eq!(c.entries, entries);
}
