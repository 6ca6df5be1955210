use matrix_app_services::registry::ClientRegistry;
use matrix_app_services::user::UserRecord;
use matrix_app_services::virtual_client::{client_kind, proxy_headers, BuildOptions, SessionSetup, VirtualClientKind};
use matrix_app_services::error::Error;

#[test]
fn cached_client_is_reused_unless_forced() {
    let mut reg: ClientRegistry<u32> = ClientRegistry::new();
    assert_eq!(reg.cached("alice", false), None);
    reg.store_client("alice".to_string(), 1);
    assert_eq!(reg.cached("alice", false), Some(&1));
    assert_eq!(reg.cached("alice", false), Some(&1));
    assert_eq!(reg.cached("alice", true), None);
    reg.store_client("alice".to_string(), 2);
    assert_eq!(reg.cached("alice", false), Some(&2));
    reg.store_client("bob".to_string(), 3);
    assert_eq!(reg.retrieve_client("alice"), Some(&2));
    assert_eq!(reg.retrieve_client("bob"), Some(&3));
    assert_eq!(reg.retrieve_client("carol"), None);
}

#[test]
fn kind_follows_sender_localpart() {
    assert_eq!(client_kind("bridge", "bridge"), VirtualClientKind::Service);
    assert_eq!(client_kind("alice", "bridge"), VirtualClientKind::Bot);
    assert_eq!(VirtualClientKind::default(), VirtualClientKind::Service);
}

#[test]
fn bot_without_record_is_unregistered() {
    let r = proxy_headers(VirtualClientKind::Bot, "PT", "alice", None);
    assert!(matches!(r, Err(Error::UnregisteredUser(l)) if l == "alice"));
    let opts = BuildOptions::new("alice".to_string());
    let r = opts.plan("@alice:example.org".to_string(), "bridge", "PT", "MASTER", None);
    assert!(matches!(r, Err(Error::UnregisteredUser(l)) if l == "alice"));
}

#[test]
fn client_headers_per_kind() {
    let h = proxy_headers(VirtualClientKind::Service, "PT", "bridge", None).unwrap();
    let pairs: Vec<(String, String)> = h.into_iter().map(|f| (f.name, f.value)).collect();
    assert_eq!(pairs, vec![
        ("x-proxy-role".to_string(), "SERVICE".to_string()),
        ("x-proxy-token".to_string(), "PT".to_string()),
    ]);
    let rec = UserRecord { token: "S".to_string(), user_id: "@alice:example.org".to_string(), device_id: "D".to_string() };
    let h = proxy_headers(VirtualClientKind::Bot, "PT", "alice", Some(&rec)).unwrap();
    let pairs: Vec<(String, String)> = h.into_iter().map(|f| (f.name, f.value)).collect();
    assert_eq!(pairs, vec![
        ("x-proxy-role".to_string(), "BOT".to_string()),
        ("x-proxy-token".to_string(), "PT".to_string()),
        ("x-proxy-bot-token".to_string(), "S".to_string()),
        ("x-proxy-bot-user".to_string(), "alice".to_string()),
    ]);
}

#[test]
fn session_plans() {
    let rec = UserRecord { token: "S".to_string(), user_id: "@alice:example.org".to_string(), device_id: "D".to_string() };
    let direct = BuildOptions::new("alice".to_string()).device_id(Some("DEV1".to_string()));
    let p = direct.plan("@alice:example.org".to_string(), "bridge", "PT", "MASTER", Some(&rec)).unwrap();
    assert_eq!(p.kind, VirtualClientKind::Bot);
    match p.session {
        SessionSetup::Direct { user_id, device_id, access_token } => {
            assert_eq!(user_id, "@alice:example.org");
            assert_eq!(device_id, "DEV1");
            assert_eq!(access_token, "MASTER");
        }
        other => panic!("{other:?}"),
    }
    let login = BuildOptions::new("alice".to_string()).login();
    let p = login.plan("@alice:example.org".to_string(), "bridge", "PT", "MASTER", Some(&rec)).unwrap();
    assert!(matches!(p.session, SessionSetup::Login { localpart, requested_device: None } if localpart == "alice"));
    let service_login = BuildOptions::new("bridge".to_string()).login();
    let p = service_login.plan("@bridge:example.org".to_string(), "bridge", "PT", "MASTER", None).unwrap();
    match p.session {
        SessionSetup::Direct { device_id, access_token, .. } => {
            assert!(!device_id.is_empty());
            assert_eq!(access_token, "MASTER");
        }
        other => panic!("{other:?}"),
    }
    let restored = BuildOptions::new("alice".to_string()).login().restored_session().create_new();
    assert!(restored.create_new);
    let p = restored.plan("@alice:example.org".to_string(), "bridge", "PT", "MASTER", Some(&rec)).unwrap();
    assert!(matches!(p.session, SessionSetup::Restore));
}
