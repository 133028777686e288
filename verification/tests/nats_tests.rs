use util_libs::claims::{NatsPermissions, NatsPermissionsMap};
use util_libs::client_types::{AddStreamOptions, JsServiceBuilder};
use util_libs::endpoint::GetSubjectTags;
use util_libs::hc_http_gw::{
    coordinator_mismatch_message, GwUrlError, HcHttpGwRequest, HcHttpGwResponse, HcHttpGwResponseMsg,
};
use util_libs::leaf_server::{
    JetStreamConfig, LeafNodeRemote, LeafNodeRemoteTlsConfig, LeafServer, LoggingOptions,
    LEAF_SERVER_DEFAULT_LISTEN_PORT,
};
use util_libs::microservice::{
    endpoint_reply, micro_service_log_prefix, EndpointReply, Version, VersionedEndpoints,
};
use util_libs::nats_names::{sanitize_nats_name, sanity_check_nats_name, NatsNameError};

fn gw_request() -> HcHttpGwRequest {
    HcHttpGwRequest {
        dna_hash: "uhC0kDNA".to_string(),
        coordinatior_identifier: "workload-1".to_string(),
        zome_name: "content".to_string(),
        zome_fn_name: "list_by_hive_link".to_string(),
        payload: "eyJ9".to_string(),
    }
}

#[test]
fn gw_subjects() {
    assert_eq!(HcHttpGwRequest::nats_subject_suffix("app"), "HC_HTTP_GW.app");
    let r = gw_request();
    assert_eq!(r.nats_destination_subject(), "WORKLOAD.HC_HTTP_GW.workload-1");
    assert_eq!(r.nats_reply_subject(), "WORKLOAD.HC_HTTP_GW.workload-1.reply");
    assert_eq!(r.nats_reply_subject(), format!("{}.reply", r.nats_destination_subject()));
}

#[test]
fn gw_url_on_default_base() {
    let r = gw_request();
    assert_eq!(r.url_path(), "/uhC0kDNA/workload-1/content/list_by_hive_link");
    assert_eq!(r.url_query(), "payload=eyJ9");
    let url = r.get_checked_url(None, "workload-1").unwrap();
    assert_eq!(
        url.as_str(),
        "http://127.0.0.1:8090/uhC0kDNA/workload-1/content/list_by_hive_link?payload=eyJ9"
    );
}

#[test]
fn gw_url_on_given_base() {
    let r = gw_request();
    let base = url::Url::parse("https://gw.example.org/ignored?x=1").unwrap();
    let url = r.get_checked_url(Some(base), "workload-1").unwrap();
    assert_eq!(
        url.as_str(),
        "https://gw.example.org/uhC0kDNA/workload-1/content/list_by_hive_link?payload=eyJ9"
    );
}

#[test]
fn gw_url_refuses_other_coordinator() {
    let r = gw_request();
    match r.get_checked_url(None, "workload-2") {
        Err(GwUrlError::CoordinatorMismatch { given, expected }) => {
            assert_eq!(given, "workload-2");
            assert_eq!(expected, "workload-1");
            assert_eq!(
                coordinator_mismatch_message(&given, &expected),
                "given coordinator identifier 'workload-2' doesn't match 'workload-1'"
            );
        }
        _ => panic!("expected a mismatch"),
    }
}

#[test]
fn gw_response_tags() {
    let response = HcHttpGwResponse { response_headers: vec![], response_bytes: vec![1, 2] };
    let msg = HcHttpGwResponseMsg { response_subject: Some("reply.subj".to_string()), response };
    let tags = msg.get_subject_tags();
    assert_eq!(tags, vec![("reply.subj".to_string(), String::new())]);
    let none = HcHttpGwResponseMsg {
        response_subject: None,
        response: HcHttpGwResponse { response_headers: vec![], response_bytes: vec![] },
    };
    assert!(none.get_subject_tags().is_empty());
}

#[test]
fn sanitize_replaces_prohibited_characters() {
    assert_eq!(sanitize_nats_name("my service/v1.2"), "my_service_v1_2");
    assert_eq!(sanitize_nats_name("a>b*c\td\\e"), "a_b_c_d_e");
    assert_eq!(sanitize_nats_name("plain-name"), "plain-name");
}

#[test]
fn sanitize_truncates_to_31_bytes() {
    let long = "abcdefghijklmnopqrstuvwxyz0123456789";
    let s = sanitize_nats_name(long);
    assert_eq!(s, "abcdefghijklmnopqrstuvwxyz01234");
    assert_eq!(s.len(), 31);
    assert!(sanity_check_nats_name(&s).is_ok());
}

#[test]
fn sanity_check_messages() {
    let long = "abcdefghijklmnopqrstuvwxyz0123456789";
    match sanity_check_nats_name(long) {
        Err(e @ NatsNameError::TooLong { .. }) => assert_eq!(
            e.message(),
            format!("'{long}' must not be equal to or longer than 31 characters")
        ),
        _ => panic!("expected too long"),
    }
    match sanity_check_nats_name("a.b c") {
        Err(e @ NatsNameError::ProhibitedChar { .. }) => {
            // A space is checked before a dot.
            assert_eq!(e.message(), "'a.b c' must not contain ' '")
        }
        _ => panic!("expected a prohibited character"),
    }
    assert!(sanity_check_nats_name("WORKLOAD_add").is_ok());
}

#[test]
fn sanitize_is_idempotent_example() {
    let once = sanitize_nats_name("x y/z.w");
    assert_eq!(sanitize_nats_name(&once), once);
}

#[test]
fn version_names_and_from_string() {
    assert_eq!(Version::V2.name(), "V2");
    assert_eq!(Version::from("V3".to_string()), Version::V3);
    assert_eq!(Version::from("v3".to_string()), Version::V1);
    for v in [Version::V1, Version::V2, Version::V3] {
        assert_eq!(Version::from(v.name().to_string()), v);
    }
}

#[test]
fn endpoint_reply_cases() {
    assert!(matches!(endpoint_reply(Ok(vec![1, 2, 3]), true), EndpointReply::Respond(b) if b == vec![1, 2, 3]));
    assert!(matches!(endpoint_reply(Ok(vec![1]), false), EndpointReply::Unanswerable));
    match endpoint_reply(Err("boom".to_string()), true) {
        EndpointReply::RespondError { status, code } => {
            assert_eq!(status, "Error: boom");
            assert_eq!(code, 500);
        }
        _ => panic!("expected an error reply"),
    }
    assert!(matches!(endpoint_reply(Err("boom".to_string()), false), EndpointReply::LogOnly));
}

#[test]
fn versioned_endpoints_register_only_in_known_versions() {
    let mut e: VersionedEndpoints<u32> = VersionedEndpoints::new();
    assert!(!e.add_endpoint("health".to_string(), "V1", 1));
    assert!(!e.has_version(Version::V1));
    e.add_versions(&vec![Version::V1]);
    assert!(e.has_version(Version::V1));
    assert!(!e.has_version(Version::V2));
    assert!(e.add_endpoint("health".to_string(), "V1", 1));
    assert!(e.add_endpoint("other".to_string(), "unknown", 2));
    assert_eq!(e.handler(Version::V1, "health"), Some(&1));
    assert_eq!(e.handler(Version::V1, "other"), Some(&2));
    assert_eq!(e.handler(Version::V2, "health"), None);
    e.add_versions(&vec![Version::V2, Version::V3]);
    assert!(e.add_endpoint("health".to_string(), "V2", 3));
    assert_eq!(e.handler(Version::V2, "health"), Some(&3));
    // Adding a version again starts it afresh.
    e.add_versions(&vec![Version::V1]);
    assert_eq!(e.handler(Version::V1, "health"), None);
}

#[test]
fn micro_service_prefix() {
    assert_eq!(micro_service_log_prefix("svc", "ID1"), "MS-LOG::svc::ID1: ");
}

#[test]
fn leaf_server_address_and_defaults() {
    let tls = LeafNodeRemoteTlsConfig::default();
    assert!(!tls.insecure);
    assert!(tls.handshake_first);
    let js = JetStreamConfig {
        store_dir: "/tmp/test".to_string(),
        max_memory_store: 1024 * 1024 * 1024,
        max_file_store: 1024 * 1024 * 1024,
        domain: Some("holo".to_string()),
    };
    let logging = LoggingOptions { debug: true, trace: false, logtime: false };
    let remote = LeafNodeRemote { url: "nats-leaf://hub:7422".to_string(), credentials: None, tls };
    let server = LeafServer::new(
        Some("leaf-1"),
        "leaf.conf",
        "127.0.0.1".to_string(),
        LEAF_SERVER_DEFAULT_LISTEN_PORT,
        None,
        js,
        logging,
        vec![remote],
    );
    assert_eq!(server.server_address(), "127.0.0.1:4222");
    assert_eq!(server.config_path, "leaf.conf");
    let c = server.nats_config();
    assert_eq!(c.server_name.as_deref(), Some("leaf-1"));
    assert_eq!(c.leafnodes.remotes.len(), 1);
    assert_eq!(c.jetstream.domain.as_deref(), Some("holo"));
}

#[test]
fn permissions_emptiness() {
    let mut p = NatsPermissions::default();
    assert!(p.is_empty());
    p.deny.push("secret.>".to_string());
    assert!(!p.is_empty());
    let m = NatsPermissionsMap::default();
    assert!(m.publish.is_empty() && m.subscribe.is_empty());
}

#[test]
fn add_stream_subjects() {
    let o = AddStreamOptions { stream_name: "WORKLOAD".to_string() };
    assert_eq!(o.subjects(), vec!["WORKLOAD.*".to_string()]);
    let b = JsServiceBuilder::default();
    assert!(b.name.is_empty() && b.service_subject.is_empty());
}

#[test]
fn gw_url_within_limits_matches_checked_url() {
    let r = gw_request();
    let url = r.get_checked_url_within_limits(None, "workload-1").unwrap().unwrap();
    assert_eq!(
        url.as_str(),
        "http://127.0.0.1:8090/uhC0kDNA/workload-1/content/list_by_hive_link?payload=eyJ9"
    );
    let base = url::Url::parse("https://gw.example.org/").unwrap();
    let url = r.get_checked_url_within_limits(Some(base), "workload-1").unwrap().unwrap();
    assert_eq!(url.path(), "/uhC0kDNA/workload-1/content/list_by_hive_link");
    assert_eq!(url.query(), Some("payload=eyJ9"));
    assert!(matches!(
        r.get_checked_url_within_limits(None, "workload-2"),
        Some(Err(GwUrlError::CoordinatorMismatch { .. }))
    ));
}
