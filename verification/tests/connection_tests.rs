use util_libs::client_types::Credentials;
use util_libs::connection::{
    check_connection, client_log_prefix, cluster_mongodb_url, configured_mongodb_url, default_client_connect_plan,
    default_mongodb_url, default_nats_url, js_client_connect_plan, mongodb_url_or_default, monitor,
    nats_client_creds, nats_url_or_default, publish_follow_up, subscription_reply, user_password,
    user_password_source, ConnectStep, ConnectionState, DefaultClientParams, JsClientParams,
    PublishFollowUp, TimeSpan, UserPasswordSource,
};
use util_libs::text::trim;

#[test]
fn disconnected_client_is_an_error() {
    assert!(check_connection(ConnectionState::Disconnected).is_err());
    assert_eq!(check_connection(ConnectionState::Connected).unwrap(), ConnectionState::Connected);
    assert_eq!(check_connection(ConnectionState::Pending).unwrap(), ConnectionState::Pending);
    let e = monitor(ConnectionState::Disconnected).unwrap_err();
    assert_eq!(e.message(), "Could not reach nats: connection closed");
    assert!(monitor(ConnectionState::Pending).is_ok());
}

fn js_params(scheme: &str) -> JsClientParams {
    JsClientParams {
        name: "host_agent".to_string(),
        inbox_prefix: "_INBOX_host".to_string(),
        credentials: Some(vec![
            Credentials::Token("tok".to_string()),
            Credentials::Path("/creds/a.creds".to_string()),
            Credentials::Password("u".to_string(), "p".to_string()),
        ]),
        ping_interval: None,
        request_timeout: None,
        nats_user: Some("admin".to_string()),
        nats_password_file: Some("/run/pw".to_string()),
        skip_tls_verification: true,
        url_scheme: scheme.to_string(),
    }
}

#[test]
fn js_client_plan_orders_steps() {
    let plan = js_client_connect_plan(&js_params("wss"));
    assert_eq!(plan.name, "host_agent");
    assert_eq!(plan.inbox_prefix, "_INBOX_host");
    assert_eq!(plan.ping_interval, TimeSpan { secs: 120, nanos: 0 });
    assert_eq!(plan.request_timeout, TimeSpan { secs: 1, nanos: 0 });
    assert_eq!(plan.log_prefix, "NATS-CLIENT-LOG::host_agent::");
    assert_eq!(plan.steps.len(), 6);
    assert!(matches!(&plan.steps[0], ConnectStep::UserAndPasswordFile { user, password_file } if user == "admin" && password_file == "/run/pw"));
    assert!(matches!(&plan.steps[1], ConnectStep::Token { token } if token == "tok"));
    assert!(matches!(&plan.steps[2], ConnectStep::CredentialsFile { path } if path == "/creds/a.creds"));
    assert!(matches!(&plan.steps[3], ConnectStep::UserAndPassword { user, password } if user == "u" && password == "p"));
    assert!(matches!(plan.steps[4], ConnectStep::SkipTlsVerification));
    assert!(matches!(plan.steps[5], ConnectStep::TlsFirst));
}

#[test]
fn js_client_plan_plain_nats() {
    let mut p = js_params("nats");
    p.credentials = None;
    p.nats_password_file = None;
    p.skip_tls_verification = false;
    p.ping_interval = Some(TimeSpan { secs: 10, nanos: 0 });
    p.request_timeout = Some(TimeSpan { secs: 5, nanos: 500 });
    let plan = js_client_connect_plan(&p);
    assert!(plan.steps.is_empty());
    assert_eq!(plan.ping_interval, TimeSpan { secs: 10, nanos: 0 });
    assert_eq!(plan.request_timeout, TimeSpan { secs: 5, nanos: 500 });
    let tls = js_client_connect_plan(&js_params("tls"));
    assert!(matches!(tls.steps.last(), Some(ConnectStep::TlsFirst)));
}

#[test]
fn default_client_plan() {
    let p = DefaultClientParams {
        nats_url: "localhost:4222".to_string(),
        name: "test_client".to_string(),
        inbox_prefix: "_UNIQUE_INBOX".to_string(),
        credentials_path: Some("/a/b.creds".to_string()),
        ping_interval: None,
        request_timeout: None,
    };
    let plan = default_client_connect_plan(&p);
    assert_eq!(plan.request_timeout, TimeSpan::from_secs(10));
    assert_eq!(plan.ping_interval, TimeSpan::from_secs(120));
    assert_eq!(plan.steps.len(), 1);
    assert!(matches!(&plan.steps[0], ConnectStep::CredentialsFile { path } if path == "/a/b.creds"));
    assert_eq!(client_log_prefix("x"), "NATS-CLIENT-LOG::x::");
}

#[test]
fn user_password_sources() {
    let s = user_password_source(None, Some("url_user".to_string()), None, Some("url_pw".to_string()), None);
    assert!(matches!(s, UserPasswordSource::Given { ref user, ref password } if user == "url_user" && password == "url_pw"));
    let s = user_password_source(
        Some("u".to_string()),
        Some("url_user".to_string()),
        Some("p".to_string()),
        None,
        Some("/pw".to_string()),
    );
    assert!(matches!(s, UserPasswordSource::PasswordFile { ref user, ref password_file } if user == "u" && password_file == "/pw"));
    let s = user_password_source(Some("u".to_string()), None, None, None, None);
    assert!(matches!(s, UserPasswordSource::Incomplete));
    let s = user_password_source(None, None, Some("p".to_string()), None, Some("/pw".to_string()));
    assert!(matches!(s, UserPasswordSource::Incomplete));
}

#[test]
fn user_password_trims_file_content() {
    let s = UserPasswordSource::PasswordFile { user: "u".to_string(), password_file: "/pw".to_string() };
    assert_eq!(user_password(s, Some("  secret\n".to_string())), Some(("u".to_string(), "secret".to_string())));
    let s = UserPasswordSource::Given { user: "u".to_string(), password: " p ".to_string() };
    assert_eq!(user_password(s, None), Some(("u".to_string(), " p ".to_string())));
    assert_eq!(user_password(UserPasswordSource::Incomplete, Some("x".to_string())), None);
}

#[test]
fn trim_removes_unicode_white_space() {
    assert_eq!(trim("\t a b \r\n"), "a b");
    assert_eq!(trim("\u{3000}x\u{2003}"), "x");
    assert_eq!(trim("   "), "");
    assert_eq!(trim(""), "");
    assert_eq!(trim("abc"), "abc");
}

#[test]
fn default_addresses() {
    assert_eq!(default_nats_url(), "127.0.0.1:4111");
    assert_eq!(nats_url_or_default(None), "127.0.0.1:4111");
    assert_eq!(nats_url_or_default(Some("nats://x:1".to_string())), "nats://x:1");
    assert_eq!(default_mongodb_url(), "mongodb://127.0.0.1:27017");
    assert_eq!(mongodb_url_or_default(Some("mongodb://db".to_string())), "mongodb://db");
    assert_eq!(
        nats_client_creds(None, "HOLO", "HPOS", "host"),
        "/.local/share/nats/nsc/keys/creds/HOLO/HPOS/host.creds"
    );
    assert_eq!(nats_client_creds(Some("/c.creds".to_string()), "HOLO", "HPOS", "host"), "/c.creds");
}

#[test]
fn cluster_url_uses_trimmed_files() {
    assert_eq!(
        cluster_mongodb_url("admin", "pw\n", " abc123 \n"),
        "mongodb+srv://admin:pw@allograph-dev-mongodb-abc123.mongo.ondigitalocean.com/?retryWrites=true&w=majority&authSource=admin"
    );
}

#[test]
fn publish_follow_ups() {
    assert_eq!(publish_follow_up(true, true, true), PublishFollowUp::Published);
    assert_eq!(publish_follow_up(true, false, true), PublishFollowUp::Nothing);
    assert_eq!(publish_follow_up(false, true, true), PublishFollowUp::Failed);
    assert_eq!(publish_follow_up(false, true, false), PublishFollowUp::Nothing);
}

#[test]
fn subscription_replies() {
    assert_eq!(subscription_reply(Ok(vec![7]), None), None);
    assert_eq!(
        subscription_reply(Ok(vec![7]), Some("r".to_string())),
        Some(("r".to_string(), vec![7]))
    );
    assert_eq!(
        subscription_reply(Err("oops".to_string()), Some("r".to_string())),
        Some(("r".to_string(), b"oops".to_vec()))
    );
}

#[test]
fn mongodb_url_prefers_mongo_uri() {
    let cluster = Some(("alice".to_string(), " c1 \n".to_string(), "pw\n".to_string()));
    assert_eq!(
        configured_mongodb_url(Some("mongodb://db:27017".to_string()), cluster.clone()),
        "mongodb://db:27017"
    );
    assert_eq!(
        configured_mongodb_url(None, cluster),
        "mongodb+srv://alice:pw@allograph-dev-mongodb-c1.mongo.ondigitalocean.com/?retryWrites=true&w=majority&authSource=admin"
    );
    assert_eq!(configured_mongodb_url(None, None), "mongodb://127.0.0.1:27017");
}
