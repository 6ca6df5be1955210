use matrix_app_services::config::Config;
use matrix_app_services::headers::HeaderField;
use matrix_app_services::proxy::{
    upstream_failure, ProxiedRequest, ProxyAction, ProxyContext, ProxyDirective, ProxyDirectiveTarget,
    ProxyResolver,
};
use matrix_app_services::user::UserRecord;

fn field(name: &str, value: &str) -> HeaderField {
    HeaderField { name: name.to_string(), value: value.to_string() }
}

fn context() -> ProxyContext {
    let config = Config::builder("bridge".to_string())
        .sender_localpart("bridge".to_string())
        .homeserver("example.org".to_string())
        .appservice_token("MASTER".to_string())
        .homeserver_token("HS".to_string())
        .build();
    config.proxy_context("PROXYSECRET".to_string()).unwrap()
}

fn alice() -> UserRecord {
    UserRecord {
        token: "S".to_string(),
        user_id: "@alice:example.org".to_string(),
        device_id: "DEV".to_string(),
    }
}

fn bot_request(host: &str, uri: &str, bot_token: &str) -> ProxiedRequest {
    let headers = vec![
        field("x-proxy-role", "BOT"),
        field("x-proxy-token", "PROXYSECRET"),
        field("x-proxy-bot-token", bot_token),
        field("x-proxy-bot-user", "alice"),
        field("accept", "application/json"),
    ];
    ProxiedRequest::from_parts("GET".to_string(), host, uri, headers).unwrap()
}

fn value_of(headers: &[HeaderField], name: &str) -> Option<String> {
    headers.iter().find(|h| h.name.eq_ignore_ascii_case(name)).map(|h| h.value.clone())
}

fn assert_no_internal(headers: &[HeaderField]) {
    for h in headers {
        assert!(!h.name.to_ascii_lowercase().starts_with("x-proxy-"), "{} forwarded", h.name);
    }
}

#[test]
fn bot_request_to_homeserver_is_masqueraded() {
    let ctx = context();
    let req = bot_request("example.org", "/_matrix/client/v3/whoami", "S");
    let record = alice();
    match req.handle(&ctx, Some(&record)) {
        ProxyAction::Forward(out) => {
            assert_eq!(
                out.url.to_url_string(),
                "https://example.org/_matrix/client/v3/whoami?user_id=%40alice%3Aexample.org"
            );
            assert_eq!(value_of(&out.headers, "authorization"), Some("Bearer MASTER".to_string()));
            assert_eq!(value_of(&out.headers, "accept"), Some("application/json".to_string()));
            assert_no_internal(&out.headers);
            assert_eq!(out.method, "GET");
        }
        ProxyAction::Respond(r) => panic!("refused with {}", r.status),
    }
}

#[test]
fn bot_request_with_wrong_secret_is_refused() {
    let ctx = context();
    let req = bot_request("example.org", "/_matrix/client/v3/whoami", "wrong");
    let record = alice();
    match req.handle(&ctx, Some(&record)) {
        ProxyAction::Respond(r) => {
            assert_eq!(r.status, 401);
            assert_eq!(r.body, "proxy.unauthorized");
        }
        ProxyAction::Forward(_) => panic!("forwarded"),
    }
}

#[test]
fn bot_request_without_record_is_refused() {
    let ctx = context();
    let req = bot_request("example.org", "/_matrix/client/v3/whoami", "S");
    assert!(matches!(req.handle(&ctx, None), ProxyAction::Respond(r) if r.status == 401));
}

#[test]
fn service_request_gets_master_secret() {
    let ctx = context();
    let headers = vec![
        field("X-Proxy-Role", "SERVICE"),
        field("x-proxy-token", "PROXYSECRET"),
        field("Authorization", "Bearer local"),
    ];
    let req = ProxiedRequest::from_parts("POST".to_string(), "example.org", "/_matrix/client/v3/sync?since=1", headers).unwrap();
    match req.handle(&ctx, None) {
        ProxyAction::Forward(out) => {
            assert_eq!(out.url.to_url_string(), "https://example.org/_matrix/client/v3/sync?since=1");
            assert_eq!(out.headers.len(), 1);
            assert_eq!(value_of(&out.headers, "authorization"), Some("Bearer MASTER".to_string()));
            assert_no_internal(&out.headers);
        }
        ProxyAction::Respond(r) => panic!("refused with {}", r.status),
    }
}

#[test]
fn missing_or_unknown_role_is_refused() {
    let ctx = context();
    let cases = vec![
        vec![field("x-proxy-token", "PROXYSECRET")],
        vec![field("x-proxy-role", "ADMIN"), field("x-proxy-token", "PROXYSECRET")],
        vec![field("x-proxy-role", "service"), field("x-proxy-token", "PROXYSECRET")],
        vec![field("x-proxy-role", "SERVICE"), field("x-proxy-token", "other")],
        vec![field("x-proxy-role", "SERVICE")],
        vec![field("x-proxy-role", "BOT"), field("x-proxy-token", "other"), field("x-proxy-bot-token", "S"), field("x-proxy-bot-user", "alice")],
        vec![field("x-proxy-role", "BOT"), field("x-proxy-token", "PROXYSECRET"), field("x-proxy-bot-user", "alice")],
    ];
    let record = alice();
    for headers in cases {
        let req = ProxiedRequest::from_parts("GET".to_string(), "example.org", "/", headers).unwrap();
        match req.handle(&ctx, Some(&record)) {
            ProxyAction::Respond(r) => {
                assert_eq!(r.status, 401);
                assert_eq!(r.body, "proxy.unauthorized");
            }
            ProxyAction::Forward(_) => panic!("forwarded"),
        }
    }
}

#[test]
fn other_hosts_pass_through_unchanged() {
    let ctx = context();
    let req = bot_request("media.example.net:8443", "/a/b?c=d", "S");
    let record = alice();
    match req.handle(&ctx, Some(&record)) {
        ProxyAction::Forward(out) => {
            assert_eq!(out.url.to_url_string(), "https://media.example.net:8443/a/b?c=d");
            assert_eq!(out.url.host.as_deref(), Some("media.example.net"));
            assert_eq!(out.url.port, Some(8443));
            assert_eq!(value_of(&out.headers, "authorization"), None);
            assert_eq!(value_of(&out.headers, "accept"), Some("application/json".to_string()));
            assert_no_internal(&out.headers);
        }
        ProxyAction::Respond(r) => panic!("refused with {}", r.status),
    }
}

#[test]
fn homeserver_scheme_replaces_request_scheme() {
    let config = Config::builder("bridge".to_string())
        .sender_localpart("bridge".to_string())
        .homeserver("http://example.org:8008".to_string())
        .appservice_token("MASTER".to_string())
        .build();
    let ctx = config.proxy_context("PROXYSECRET".to_string()).unwrap();
    assert_eq!(ctx.server_name, "example.org");
    let req = bot_request("example.org:8008", "/_matrix/client/v3/rooms?x=1", "S");
    let record = alice();
    match req.handle(&ctx, Some(&record)) {
        ProxyAction::Forward(out) => {
            assert_eq!(
                out.url.to_url_string(),
                "http://example.org:8008/_matrix/client/v3/rooms?x=1&user_id=%40alice%3Aexample.org"
            );
        }
        ProxyAction::Respond(r) => panic!("refused with {}", r.status),
    }
}

#[test]
fn header_lookup_ignores_case_and_rejects_binary() {
    let headers = vec![field("X-Proxy-Bot-User", "alice"), field("x-bin", "a\u{80}b")];
    let req = ProxiedRequest::from_parts("GET".to_string(), "example.org", "/", headers).unwrap();
    assert_eq!(req.header("x-proxy-bot-user"), Some("alice".to_string()));
    assert_eq!(req.bot_localpart(), Some("alice".to_string()));
    assert_eq!(req.header("x-bin"), None);
    assert_eq!(req.header("x-missing"), None);
}

#[test]
fn request_with_bad_host_is_rejected() {
    let r = ProxiedRequest::from_parts("GET".to_string(), "exa mple.org", "/", vec![]);
    assert!(r.is_err());
}

#[test]
fn upstream_failure_is_500() {
    let r = upstream_failure("connection refused");
    assert_eq!(r.status, 500);
    assert_eq!(r.body, "Internal error: connection refused");
}

#[test]
fn resolver_always_answers_localhost() {
    let r = ProxyResolver::new(9123);
    assert_eq!(r.resolve(), ([127, 0, 0, 1], 9123));
}

#[test]
fn directive_targets() {
    match ProxyDirectiveTarget::bot("/sync".to_string(), "tok".to_string()) {
        ProxyDirectiveTarget::Bot { token, path } => {
            assert_eq!(token, "tok");
            assert_eq!(path, "/sync");
        }
        other => panic!("{other:?}"),
    }
    assert!(matches!(ProxyDirectiveTarget::service("/a".to_string()), ProxyDirectiveTarget::Service { path } if path == "/a"));
    assert_eq!(ProxyDirective::DoNotModify, ProxyDirective::DoNotModify);
}
