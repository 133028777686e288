use util_libs::hosting_schemas::{Capacity, UserPermission as HostingPermission};
use util_libs::schemas::{
    api_key_default_expire_at, Manifest, ManifestType, PublicService, PublicServiceType,
    StaticContentParameters, FoundField, holochain_dht_parameters_from_fields, lenient_field,
};
use util_libs::schemas::{
    choose_happ_binary, default_instances, get_default_manifest_name, parse_happ_binary, parse_key_val,
    DbStates, ExecutionPolicy, ExecutionPolicyVisibility, HappBinaryError, HappBinaryFormat,
    HolochainDhtParameters, JobChangeRequest, JobState, Jurisdiction, PermissionAction, UserRole,
};

#[test]
fn default_manifest_name_is_default_manifest() {
    assert_eq!(get_default_manifest_name(), "default_manifest");
}

#[test]
fn default_instances_is_one() {
    assert_eq!(default_instances(), 1);
}

#[test]
fn parse_key_val_splits_at_first_equals() {
    let (k, v) = parse_key_val("key=value=more").unwrap();
    assert_eq!(k, "key");
    assert_eq!(v, "value=more");
}

#[test]
fn parse_key_val_empty_parts() {
    let (k, v) = parse_key_val("=x").unwrap();
    assert_eq!(k, "");
    assert_eq!(v, "x");
    let (k, v) = parse_key_val("x=").unwrap();
    assert_eq!(k, "x");
    assert_eq!(v, "");
}

#[test]
fn parse_key_val_without_equals_fails() {
    let e = parse_key_val("novalue").unwrap_err();
    assert_eq!(e.input, "novalue");
    assert_eq!(e.message(), "invalid KEY=value: no `=` found in `novalue`");
}

#[test]
fn permission_action_names_round_trip() {
    for a in [
        PermissionAction::All,
        PermissionAction::Read,
        PermissionAction::Create,
        PermissionAction::Update,
        PermissionAction::Delete,
    ] {
        assert_eq!(PermissionAction::from_name(a.name()), Some(a));
    }
    assert_eq!(PermissionAction::All.name(), "All");
    assert_eq!(PermissionAction::from_name("all"), None);
}

#[test]
fn user_role_names_round_trip() {
    for r in [UserRole::Admin, UserRole::User, UserRole::Support] {
        assert_eq!(UserRole::from_name(r.name()), Some(r));
    }
    assert_eq!(UserRole::Support.name(), "Support");
    assert_eq!(UserRole::from_name("Root"), None);
}

#[test]
fn job_state_defaults_to_created() {
    assert!(matches!(JobState::default(), JobState::Db(DbStates::Created)));
    assert_eq!(DbStates::default(), DbStates::Created);
    let requested = DbStates::Requested(JobChangeRequest::Pause);
    assert_ne!(requested, DbStates::Created);
}

#[test]
fn execution_policy_default_has_no_instances() {
    let p = ExecutionPolicy::default();
    assert!(p.jurisdictions.is_empty());
    assert!(p.regions.is_empty());
    assert_eq!(p.instances, 0);
    assert_eq!(p.visibility, ExecutionPolicyVisibility::Public);
}

#[test]
fn jurisdiction_defaults_to_unknown() {
    assert_eq!(Jurisdiction::default(), Jurisdiction::Unknown);
    assert_ne!(Jurisdiction::Zimbabwe, Jurisdiction::Unknown);
}

#[test]
fn hosting_capacity_default_is_zero() {
    let c = Capacity::default();
    assert_eq!(c.drive, 0);
    assert_eq!(c.cores, 0);
    assert_eq!(HostingPermission::Admin, HostingPermission::Admin);
}

#[test]
fn happ_binary_url_and_hash() {
    match parse_happ_binary("https://example.com/app.happ").unwrap() {
        HappBinaryFormat::HappBinaryUrl(u) => assert_eq!(u.as_str(), "https://example.com/app.happ"),
        _ => panic!("expected a URL"),
    }
    match parse_happ_binary("uhCkk1234").unwrap() {
        HappBinaryFormat::HappBinaryBlake3Hash(h) => assert_eq!(h, "uhCkk1234"),
        _ => panic!("expected a hash"),
    }
    // Text that starts like a URL must be one.
    assert!(parse_happ_binary("http://").is_err());
}

#[test]
fn happ_binary_field_precedence() {
    let url = url::Url::parse("https://example.com/a.happ").unwrap();
    let chosen = choose_happ_binary(None, Some(Ok(url)), Some(Ok("hash".to_string()))).unwrap();
    assert!(matches!(chosen, HappBinaryFormat::HappBinaryUrl(_)));
    let chosen = choose_happ_binary(
        Some(Ok(HappBinaryFormat::HappBinaryBlake3Hash("first".to_string()))),
        None,
        Some(Ok("hash".to_string())),
    )
    .unwrap();
    match chosen {
        HappBinaryFormat::HappBinaryBlake3Hash(h) => assert_eq!(h, "first"),
        _ => panic!("expected the first field"),
    }
    let chosen = choose_happ_binary(None, None, Some(Ok("hash".to_string()))).unwrap();
    assert!(matches!(chosen, HappBinaryFormat::HappBinaryBlake3Hash(h) if h == "hash"));
    let err = choose_happ_binary(None, Some(Err("bad url".to_string())), Some(Ok("h".to_string())))
        .unwrap_err();
    assert!(matches!(err, HappBinaryError::Invalid(m) if m == "bad url"));
    assert!(matches!(choose_happ_binary(None, None, None), Err(HappBinaryError::Missing)));
}

#[test]
fn holochain_parameters_with_defaults() {
    let p = HolochainDhtParameters::with_default_params(HappBinaryFormat::HappBinaryBlake3Hash(
        "placeholder_happ_hash".to_string(),
    ));
    assert!(p.holochain_version.is_none());
    assert!(p.memproofs.is_none());
    assert!(p.stun_server_urls.is_none());
}

#[test]
fn manifest_new_and_default_names() {
    let owner = bson::oid::ObjectId::new();
    let m = Manifest::new(owner, None, Some("holo-gateway@latest".to_string()), ManifestType::StaticContent(Box::new(StaticContentParameters::default())));
    assert_eq!(m.name, "");
    assert_eq!(m.owner, owner);
    assert_eq!(m.tag.as_deref(), Some("holo-gateway@latest"));
    let d = Manifest::default();
    assert_eq!(d.name, "default_manifest");
    assert!(d.tag.is_none());
    match d.manifest_type {
        ManifestType::HolochainDht(p) => {
            assert!(matches!(p.happ_binary, HappBinaryFormat::HappBinaryBlake3Hash(ref h) if h == "placeholder_happ_hash"))
        }
        _ => panic!("expected a Holochain manifest"),
    }
}

#[test]
fn public_service_defaults() {
    let p = PublicService::default_at(10, 20);
    assert!(p._id.is_none());
    assert_eq!(p.metadata.created_at, Some(10));
    assert_eq!(p.metadata.updated_at, Some(20));
    assert_eq!(p.service_type, PublicServiceType::Default);
    assert!(p.service_name.is_empty() && p.a_addrs.is_empty() && p.ns_addrs.is_empty());
    let now = PublicService::default();
    assert!(now.metadata.created_at.unwrap() <= now.metadata.updated_at.unwrap());
}

#[test]
fn api_key_expiry() {
    assert_eq!(api_key_default_expire_at(1_700_000_000), 1_700_000_000 + 30 * 24 * 60 * 60);
}

#[test]
fn dht_parameters_keep_only_fields_that_were_read() {
    let p = holochain_dht_parameters_from_fields(
        None,
        None,
        Some(Ok("uhCkkHash".to_string())),
        FoundField::Read(Some("0.4.2".to_string())),
        FoundField::Null,
        FoundField::Read(None),
        FoundField::Absent,
        FoundField::Read(Some(url::Url::parse("https://bootstrap.example.org/").unwrap())),
        FoundField::Read(Some(vec![("agent".to_string(), "proof".to_string())])),
    )
    .unwrap();
    match &p.happ_binary {
        HappBinaryFormat::HappBinaryBlake3Hash(h) => assert_eq!(h, "uhCkkHash"),
        _ => panic!("expected a hash"),
    }
    assert_eq!(p.holochain_version.as_deref(), Some("0.4.2"));
    assert!(p.holochain_feature_flags.is_none());
    assert!(p.stun_server_urls.is_none());
    assert!(p.signal_server_url.is_none());
    assert_eq!(p.bootstrap_server_url.unwrap().as_str(), "https://bootstrap.example.org/");
    assert_eq!(p.memproofs.unwrap(), vec![("agent".to_string(), "proof".to_string())]);
    assert_eq!(lenient_field::<u8>(FoundField::Read(Some(3))), Some(3));
    assert_eq!(lenient_field::<u8>(FoundField::Null), None);
}

#[test]
fn dht_parameters_need_a_binary() {
    let r = holochain_dht_parameters_from_fields(
        None,
        None,
        None,
        FoundField::Read(Some("0.4.2".to_string())),
        FoundField::Absent,
        FoundField::Absent,
        FoundField::Absent,
        FoundField::Absent,
        FoundField::Absent,
    );
    assert!(matches!(r, Err(HappBinaryError::Missing)));
    let r = holochain_dht_parameters_from_fields(
        Some(Err("bad binary".to_string())),
        None,
        Some(Ok("h".to_string())),
        FoundField::Absent,
        FoundField::Absent,
        FoundField::Absent,
        FoundField::Absent,
        FoundField::Absent,
        FoundField::Absent,
    );
    match r {
        Err(HappBinaryError::Invalid(m)) => assert_eq!(m, "bad binary"),
        _ => panic!("expected the binary's error"),
    }
}
