use util_libs::collection::{
    handle_db_error, handle_internal_error, index_failure_error, mark_inserted, mark_inserted_at, Metadata,
};
use util_libs::errors::{ErrClientDisconnected, ServiceError};
use util_libs::indices::{collection_indices, field_index, indices_to_apply, CollectionKind};
use util_libs::metadata_update::{add_metadata_update_at, Entry, Field, UpdateModifications};
use util_libs::mocks::{test_db_name, MongodRunner, NatsMessage, TestResponse};
use util_libs::endpoint::GetSubjectTags;
use util_libs::registry::NameRegistry;
use util_libs::squashfs_paths::{archive_path, entry_name, find_file, is_dir_entry, replace, unpack_target};
use util_libs::stream_service::{
    answer_steps, consumer_log_info, error_payload, plan_consumer, reply_subject, response_subjects,
    stream_subject, AnswerStep,
};
use util_libs::text::{starts_with, u64_to_decimal};

type Doc = Vec<(String, Entry<Vec<(String, Entry<Vec<(String, Field<u8>)>, u8>)>, u8>)>;

fn set_field(doc: &Doc, key: &str) -> Option<Vec<(String, Entry<Vec<(String, Field<u8>)>, u8>)>> {
    for (k, v) in doc {
        if k == "$set" {
            if let Entry::Doc(d) = v {
                return Some(d.clone());
            }
        }
    }
    let _ = key;
    None
}

#[test]
fn metadata_update_adds_set_fields() {
    let doc: Doc = vec![];
    let u = add_metadata_update_at(UpdateModifications::Document(doc), false, "op", 1000).unwrap();
    let UpdateModifications::Document(d) = u else { panic!("expected a document") };
    let set = set_field(&d, "$set").unwrap();
    assert_eq!(set.len(), 1);
    assert_eq!(set[0].0, "metadata.updated_at");
    assert!(matches!(set[0].1, Entry::Field(Field::DateTime(1000))));
}

#[test]
fn metadata_update_marks_deleted_inside_metadata() {
    let meta: Vec<(String, Field<u8>)> = vec![("created_at".to_string(), Field::DateTime(5))];
    let set = vec![("metadata".to_string(), Entry::Doc(meta)), ("name".to_string(), Entry::Field(Field::Other(1)))];
    let doc: Doc = vec![("$set".to_string(), Entry::Doc(set))];
    let u = add_metadata_update_at(UpdateModifications::Document(doc), true, "op", 7).unwrap();
    let UpdateModifications::Document(d) = u else { panic!("expected a document") };
    let set = set_field(&d, "$set").unwrap();
    assert_eq!(set.len(), 2);
    let Entry::Doc(m) = &set[0].1 else { panic!("expected the metadata document") };
    let keys: Vec<&str> = m.iter().map(|(k, _)| k.as_str()).collect();
    assert_eq!(keys, vec!["created_at", "updated_at", "is_deleted", "deleted_at"]);
    assert!(matches!(m[2].1, Field::Boolean(true)));
    assert!(matches!(m[3].1, Field::DateTime(7)));
}

#[test]
fn metadata_update_pipeline_gets_set_stage() {
    let stage0: Doc = vec![("$match".to_string(), Entry::Field(Field::Other(0)))];
    let u = add_metadata_update_at(UpdateModifications::Pipeline(vec![stage0]), false, "op", 3).unwrap();
    let UpdateModifications::Pipeline(p) = u else { panic!("expected a pipeline") };
    assert_eq!(p.len(), 2);
    assert_eq!(p[1][0].0, "$set");
}

#[test]
fn metadata_update_unsupported_kind() {
    let e = add_metadata_update_at(UpdateModifications::<u8>::Unsupported, false, "update_one_within", 3)
        .unwrap_err();
    assert_eq!(
        e,
        ServiceError::Internal {
            message: "Unexpected UpdateModifications type".to_string(),
            context: Some("update_one_within".to_string()),
        }
    );
}

#[test]
fn registry_insert_get_remove() {
    let mut r: NameRegistry<u32> = NameRegistry::new();
    assert_eq!(r.insert("a".to_string(), 1), None);
    assert_eq!(r.insert("b".to_string(), 2), None);
    assert_eq!(r.insert("a".to_string(), 3), Some(1));
    assert_eq!(r.len(), 2);
    assert_eq!(r.get("a"), Some(&3));
    assert!(r.contains("b"));
    assert_eq!(r.remove("b"), Some(2));
    assert_eq!(r.get("b"), None);
    assert_eq!(r.len(), 1);
}

#[test]
fn indices_of_collections() {
    let job = collection_indices(CollectionKind::Job);
    let names: Vec<&str> = job.iter().map(|i| i.name.as_str()).collect();
    assert_eq!(names, vec!["owner_index", "workload_index", "host_index"]);
    let api = collection_indices(CollectionKind::ApiKey);
    assert!(api[0].unique && api[0].field == "api_key");
    assert!(collection_indices(CollectionKind::Developer).is_empty());
    let user = collection_indices(CollectionKind::User);
    let fields: Vec<&str> = user.iter().map(|i| i.field.as_str()).collect();
    assert_eq!(fields, vec!["public_key.role", "public_key.pubkey"]);
    assert_eq!(field_index("assigned_developer", false).name, "assigned_developer_index");
    assert!(indices_to_apply(vec![], vec![]).is_none());
    assert_eq!(indices_to_apply(vec![], job).unwrap().len(), 3);
}

#[test]
fn inserted_metadata() {
    let mut m = Metadata { is_deleted: true, deleted_at: Some(4), updated_at: None, created_at: None };
    mark_inserted_at(&mut m, 10, 11);
    assert_eq!(m, Metadata { is_deleted: false, deleted_at: Some(4), updated_at: Some(11), created_at: Some(10) });
    let mut n = Metadata::default();
    mark_inserted(&mut n);
    assert!(!n.is_deleted && n.created_at.is_some() && n.updated_at.is_some());
    assert!(n.created_at.unwrap() <= n.updated_at.unwrap());
}

#[test]
fn collection_errors() {
    let e = handle_db_error("insert_one_into", "connection reset".to_string());
    assert!(e.is_database());
    assert_eq!(e.message(), "connection reset");
    let e = handle_internal_error("aggregate deserialize", "bad doc".to_string());
    assert_eq!(e.to_display_string(), "Internal error: bad doc");
    let e = index_failure_error("holo", "job", "denied");
    assert_eq!(
        e,
        ServiceError::Internal {
            message: "Failed to apply indices: denied".to_string(),
            context: Some("Collection: holo.job".to_string()),
        }
    );
    assert_eq!(ServiceError::from_json_error("eof".to_string()), ServiceError::Request { message: "eof".to_string(), code: Some(10003) });
    assert!(ServiceError::from_bson_de_error("x".to_string()).is_internal());
    assert_eq!(ErrClientDisconnected.message(), "Could not reach nats: connection closed");
}

#[test]
fn service_error_display() {
    let e = ServiceError::request("no such workload".to_string(), Some(404));
    assert!(e.is_request());
    assert_eq!(e.to_display_string(), "Request error: no such workload");
    let e = ServiceError::nats("timeout".to_string(), None);
    assert_eq!(e.to_display_string(), "NATS error: timeout");
    assert!(e.is_nats() && !e.is_auth());
}

#[test]
fn squashfs_entry_paths() {
    assert_eq!(entry_name("/etc", false), "/etc/");
    assert_eq!(entry_name("/etc/hosts", true), "/etc/hosts");
    assert!(is_dir_entry("/etc/"));
    assert!(!is_dir_entry("/etc/hosts"));
    assert!(!is_dir_entry(""));
    assert_eq!(archive_path("/src/dir/a/b.txt", "/src/dir"), "/a/b.txt");
    assert_eq!(unpack_target("/out", "/a/b.txt"), "/out/a/b.txt");
    let nodes = vec![("/a".to_string(), false), ("/a".to_string(), true), ("/b".to_string(), true)];
    assert_eq!(find_file(&nodes, "/a"), Some(1));
    assert_eq!(find_file(&nodes, "/c"), None);
}

#[test]
fn replace_like_std() {
    for (s, from, to) in [("aaa", "aa", "b"), ("abcabc", "bc", "X"), ("abc", "", "-"), ("", "", "x"), ("xyz", "q", "r")] {
        assert_eq!(replace(s, from, to), s.replace(from, to));
    }
}

#[test]
fn mocks_and_text() {
    let m = NatsMessage::new("WORKLOAD.add".to_string(), b"{}".to_vec());
    assert_eq!(m.subject(), "WORKLOAD.add");
    assert_eq!(m.reply(), None);
    assert_eq!(m.payload(), &b"{}".to_vec());
    assert!(TestResponse { message: "hi".to_string() }.get_subject_tags().is_empty());
    assert_eq!(test_db_name("1234"), "test_db_1234");
    assert_eq!(u64_to_decimal(0), "0");
    assert_eq!(u64_to_decimal(4222), "4222");
    assert_eq!(u64_to_decimal(u64::MAX), u64::MAX.to_string());
    assert!(starts_with("https://x", "https://"));
    assert!(!starts_with("http", "https://"));
}

#[test]
fn stream_service_subjects() {
    assert_eq!(stream_subject("WORKLOAD"), "WORKLOAD.>");
    let c = plan_consumer("WORKLOAD", "add_workload", "add").unwrap();
    assert_eq!(c.durable_name, "add_workload");
    assert_eq!(c.filter_subject, "WORKLOAD.add");
    assert!(plan_consumer("WORKLOAD", "bad.name", "add").is_err());
    assert_eq!(reply_subject(Some("o".to_string()), Some("r".to_string())), Some("o".to_string()));
    assert_eq!(reply_subject(None, Some("r".to_string())), Some("r".to_string()));
    assert_eq!(response_subjects("WORKLOAD", &vec!["a".to_string()]), vec!["WORKLOAD.a".to_string()]);
    assert_eq!(error_payload("bad"), b"bad".to_vec());
    let l = consumer_log_info("p".to_string(), "s".to_string(), "S".to_string(), None, "S.x".to_string());
    assert_eq!(l.endpoint_name, "Consumer Name Not Found");
}

#[test]
fn tagged_service_answers() {
    use_tagged();
}

fn use_tagged() {
    assert_eq!(
        util_libs::stream_service::tagged_reply_subject("_INBOX.1", "WORKLOAD", "add"),
        "_INBOX.1.WORKLOAD.add"
    );
    let (b, t) = util_libs::stream_service::tagged_message_answer(Err("bad".to_string()));
    assert_eq!(b, b"bad".to_vec());
    assert!(t.is_none());
    let (b, t) = util_libs::stream_service::tagged_message_answer(Ok((vec![1], Some(vec!["x".to_string()]))));
    assert_eq!(b, vec![1]);
    assert_eq!(t, Some(vec!["x".to_string()]));
    let (b, t) = util_libs::stream_service::message_answer(Err("e".to_string()));
    assert_eq!(b, b"e".to_vec());
    assert!(t.is_empty());
}

#[test]
fn archive_relative_paths() {
    assert_eq!(archive_path("/tmp/squashfs/test1.txt", "/tmp/squashfs"), "/test1.txt");
    assert_eq!(unpack_target("/out", &archive_path("/tmp/squashfs/sub/", "/tmp/squashfs")), "/out/sub/");
}

#[test]
fn metadata_update_twice_is_once() {
    let meta: Vec<(String, Field<u8>)> = vec![("created_at".to_string(), Field::DateTime(5))];
    let set = vec![("metadata".to_string(), Entry::Doc(meta))];
    let doc: Doc = vec![("$set".to_string(), Entry::Doc(set)), ("$inc".to_string(), Entry::Field(Field::Other(2)))];
    let once = add_metadata_update_at(UpdateModifications::Document(doc), true, "op", 9).unwrap();
    let UpdateModifications::Document(d1) = once else { panic!("expected a document") };
    let twice = add_metadata_update_at(UpdateModifications::Document(d1.clone()), true, "op", 9).unwrap();
    let UpdateModifications::Document(d2) = twice else { panic!("expected a document") };
    let keys = |d: &Doc| -> Vec<String> {
        let set = set_field(d, "$set").unwrap();
        let Entry::Doc(m) = &set[0].1 else { panic!("expected the metadata document") };
        m.iter().map(|(k, _)| k.clone()).collect()
    };
    assert_eq!(keys(&d1), keys(&d2));
    assert_eq!(d1.len(), d2.len());
}

#[test]
fn document_insert_twice_is_once() {
    let mut once: Vec<(String, u8)> = vec![("a".to_string(), 1)];
    util_libs::documents::insert_entry(&mut once, "b".to_string(), 2);
    let mut twice = once.clone();
    util_libs::documents::insert_entry(&mut twice, "b".to_string(), 2);
    assert_eq!(once, twice);
    util_libs::documents::insert_entry(&mut twice, "a".to_string(), 3);
    assert_eq!(twice, vec![("a".to_string(), 3), ("b".to_string(), 2)]);
}

#[test]
fn key_value_round_trip_example() {
    let (k, v) = util_libs::schemas::parse_key_val(&format!("{}={}", "memproof", "a=b")).unwrap();
    assert_eq!(k, "memproof");
    assert_eq!(v, "a=b");
}

#[test]
fn service_error_kinds() {
    let e = ServiceError::auth("invalid signature".to_string(), Some("AUTH.validate".to_string()));
    assert!(e.is_auth());
    assert_eq!(e.to_display_string(), "Authentication error: invalid signature");
    let e = ServiceError::database("timeout".to_string(), Some("host".to_string()), None);
    assert_eq!(e.to_display_string(), "Database error: timeout");
    let e = ServiceError::Workload { message: "no host".to_string(), context: None };
    assert_eq!(e.message(), "no host");
    assert_eq!(e.to_display_string(), "Workload error: no host");
    let e = ServiceError::from_bson_ser_error("bad".to_string());
    assert_eq!(e, ServiceError::Internal { message: "bad".to_string(), context: Some("BSON serialization failed".to_string()) });
}

#[test]
fn mongod_runner_database_is_the_test_database() {
    let rt = tokio::runtime::Runtime::new().unwrap();
    let _guard = rt.enter();
    let options = mongodb::options::ClientOptions::builder()
        .hosts(vec![mongodb::options::ServerAddress::Tcp { host: "127.0.0.1".to_string(), port: Some(27017) }])
        .build();
    let client = mongodb::Client::with_options(options).unwrap();
    let runner = MongodRunner::from_parts(client, test_db_name("abc"));
    assert_eq!(runner.db_name(), "test_db_abc");
    assert_eq!(runner.database().name(), "test_db_abc");
}

fn step_text(s: &AnswerStep) -> String {
    match s {
        AnswerStep::PublishReply(r) => format!("reply {r}"),
        AnswerStep::PublishResponse(r) => format!("response {r}"),
        AnswerStep::Ack => "ack".to_string(),
    }
}

#[test]
fn answer_steps_reply_then_responses_then_ack() {
    let steps = answer_steps(
        Some("override.subject".to_string()),
        Some("_INBOX.1".to_string()),
        "WORKLOAD",
        Some(vec!["a".to_string(), "b".to_string()]),
    );
    let texts: Vec<String> = steps.iter().map(step_text).collect();
    assert_eq!(
        texts,
        vec!["reply override.subject", "response WORKLOAD.a", "response WORKLOAD.b", "ack"]
    );
    let steps = answer_steps(None, Some("_INBOX.2".to_string()), "WORKLOAD", None);
    let texts: Vec<String> = steps.iter().map(step_text).collect();
    assert_eq!(texts, vec!["reply _INBOX.2", "ack"]);
    let steps = answer_steps(None, None, "WORKLOAD", Some(vec![]));
    let texts: Vec<String> = steps.iter().map(step_text).collect();
    assert_eq!(texts, vec!["ack"]);
}
