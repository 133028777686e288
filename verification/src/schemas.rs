use vstd::prelude::*;
use bson::oid::ObjectId;
use url::{ParseError, Url};

use crate::collection::Metadata;
use crate::metadata_update::bson_now_millis;

use crate::text::{push_char, starts_with, str_eq};
use crate::urls::{parse_url, url_parse_result, url_parses, url_text};

verus! {

/// Returns the name given to a manifest whose name was not set.
pub fn get_default_manifest_name() -> (name: String)
    ensures
        name@ == "default_manifest"@,
{
    String::from_str("default_manifest")
}

/// Default number of instances of an execution policy.
pub fn default_instances() -> (n: i32)
    ensures
        n == 1,
{
    1
}

// ---------------------------------------------------------------------------
// Key-value arguments
// ---------------------------------------------------------------------------

/// `p` is the position of the first `=` in `s`.
pub open spec fn first_equals_at(s: Seq<char>, p: int) -> bool {
    &&& 0 <= p < s.len()
    &&& s[p] == '='
    &&& !s.take(p).contains('=')
}

/// What `parse_key_val` gives for `s`: the text before the first `=` and the
/// text after it, or nothing when `s` holds no `=`.
pub open spec fn spec_key_val(s: Seq<char>) -> Option<(Seq<char>, Seq<char>)> {
    if s.contains('=') {
        let p = choose|p: int| first_equals_at(s, p);
        Some((s.take(p), s.skip(p + 1)))
    } else {
        None
    }
}

/// The argument given to `parse_key_val` held no `=`.
#[derive(Debug, Clone)]
pub struct KeyValError {
    pub input: String,
}

impl KeyValError {
    pub open spec fn spec_message(&self) -> Seq<char> {
        "invalid KEY=value: no `=` found in `"@ + self.input@ + "`"@
    }

    /// The error's text.
    pub fn message(&self) -> (m: String)
        ensures
            m@ == self.spec_message(),
    {
        let mut m = String::from_str("invalid KEY=value: no `=` found in `");
        m.append(self.input.as_str());
        m.append("`");
        m
    }
}

proof fn lemma_first_equals_unique(s: Seq<char>, p: int, q: int)
    requires
        first_equals_at(s, p),
        first_equals_at(s, q),
    ensures
        p == q,
{
    if p < q {
        assert(s.take(q)[p] == '=');
    } else if q < p {
        assert(s.take(p)[q] == '=');
    }
}

/// Splits `KEY=value` at its first `=`.
pub fn parse_key_val(s: &str) -> (r: Result<(String, String), KeyValError>)
    ensures
        match r {
            Ok((k, v)) => spec_key_val(s@) == Some((k@, v@)),
            Err(e) => spec_key_val(s@) is None && e.input@ == s@,
        },
{
    let mut key = String::new();
    let mut value = String::new();
    let mut found = false;
    let ghost mut pos: int = 0;
    for c in it: s.chars()
        invariant
            it.seq() == s@,
            !found ==> key@ == s@.take(it.index() as int) && !key@.contains('=') && value@
                == Seq::<char>::empty(),
            found ==> first_equals_at(s@, pos) && key@ == s@.take(pos) && pos < it.index()
                && value@ == s@.subrange(pos + 1, it.index() as int),
    {
        let ghost i = it.index() as int;
        if found {
            let ghost before = value@;
            push_char(&mut value, c);
            assert(value@ =~= s@.subrange(pos + 1, i + 1));
        } else if c == '=' {
            found = true;
            proof {
                pos = i;
                assert(s@.take(i) =~= key@);
            }
            assert(value@ =~= s@.subrange(pos + 1, i + 1));
        } else {
            push_char(&mut key, c);
            assert(key@ =~= s@.take(i + 1));
        }
    }
    if found {
        proof {
            assert(s@.contains('=')) by {
                assert(s@[pos] == '=');
            }
            let p = choose|p: int| first_equals_at(s@, p);
            lemma_first_equals_unique(s@, p, pos);
            assert(value@ =~= s@.skip(pos + 1));
        }
        Ok((key, value))
    } else {
        assert(key@ =~= s@);
        Err(KeyValError { input: s.to_owned() })
    }
}


/// A key without `=` and any value, joined by `=`, are read back as they were.
pub proof fn law_key_val_round_trip(k: Seq<char>, v: Seq<char>)
    requires
        !k.contains('='),
    ensures
        spec_key_val(k + "="@ + v) == Some((k, v)),
{
    reveal_strlit("=");
    let s = k + "="@ + v;
    let p = k.len() as int;
    assert(s[p] == '=');
    assert(s.take(p) =~= k);
    assert(first_equals_at(s, p));
    assert(s.contains('='));
    let q = choose|q: int| first_equals_at(s, q);
    lemma_first_equals_unique(s, q, p);
    assert(s.skip(p + 1) =~= v);
}

// ---------------------------------------------------------------------------
// Users and permissions
// ---------------------------------------------------------------------------

/// What a user may do with a resource.
#[derive(Debug, Clone, Copy, PartialEq, Eq, Structural)]
pub enum PermissionAction {
    All,
    Read,
    Create,
    Update,
    Delete,
}

/// The action named `s`, if any.
pub open spec fn spec_permission_action(s: Seq<char>) -> Option<PermissionAction> {
    if s == "All"@ {
        Some(PermissionAction::All)
    } else if s == "Read"@ {
        Some(PermissionAction::Read)
    } else if s == "Create"@ {
        Some(PermissionAction::Create)
    } else if s == "Update"@ {
        Some(PermissionAction::Update)
    } else if s == "Delete"@ {
        Some(PermissionAction::Delete)
    } else {
        None
    }
}

impl PermissionAction {
    pub open spec fn spec_name(self) -> Seq<char> {
        match self {
            PermissionAction::All => "All"@,
            PermissionAction::Read => "Read"@,
            PermissionAction::Create => "Create"@,
            PermissionAction::Update => "Update"@,
            PermissionAction::Delete => "Delete"@,
        }
    }

    /// The action's name, as it is displayed.
    pub fn name(&self) -> (s: &'static str)
        ensures
            s@ == self.spec_name(),
    {
        match self {
            PermissionAction::All => "All",
            PermissionAction::Read => "Read",
            PermissionAction::Create => "Create",
            PermissionAction::Update => "Update",
            PermissionAction::Delete => "Delete",
        }
    }

    /// The action whose name is `s`.
    pub fn from_name(s: &str) -> (r: Option<Self>)
        ensures
            r == spec_permission_action(s@),
    {
        if str_eq(s, "All") {
            Some(PermissionAction::All)
        } else if str_eq(s, "Read") {
            Some(PermissionAction::Read)
        } else if str_eq(s, "Create") {
            Some(PermissionAction::Create)
        } else if str_eq(s, "Update") {
            Some(PermissionAction::Update)
        } else if str_eq(s, "Delete") {
            Some(PermissionAction::Delete)
        } else {
            None
        }
    }
}

/// Reading back the name of an action gives the action.
pub proof fn law_permission_action_name_round_trip(a: PermissionAction)
    ensures
        spec_permission_action(a.spec_name()) == Some(a),
{
    reveal_strlit("All");
    reveal_strlit("Read");
    reveal_strlit("Create");
    reveal_strlit("Update");
    reveal_strlit("Delete");
    let names = seq!["All"@, "Read"@, "Create"@, "Update"@, "Delete"@];
    assert forall|i: int, j: int| 0 <= i < j < 5 implies names[i] != names[j] by {
        assert(names[i][0] != names[j][0]);
    }
}

/// A resource, what may be done with it, and whose it is.
#[derive(Debug, Clone)]
pub struct UserPermission {
    /// The kind of resource (user, api_key, workload, ...).
    pub resource: String,
    pub action: PermissionAction,
    /// The owner of the resource: a user id, `self` or `all`.
    pub owner: String,
}

/// A role that grants a set of permissions.
#[derive(Debug, Clone, Copy, PartialEq, Eq, Structural)]
pub enum UserRole {
    Admin,
    User,
    Support,
}

/// The role named `s`, if any.
pub open spec fn spec_user_role(s: Seq<char>) -> Option<UserRole> {
    if s == "Admin"@ {
        Some(UserRole::Admin)
    } else if s == "User"@ {
        Some(UserRole::User)
    } else if s == "Support"@ {
        Some(UserRole::Support)
    } else {
        None
    }
}

impl UserRole {
    pub open spec fn spec_name(self) -> Seq<char> {
        match self {
            UserRole::Admin => "Admin"@,
            UserRole::User => "User"@,
            UserRole::Support => "Support"@,
        }
    }

    /// The role's name, as it is displayed.
    pub fn name(&self) -> (s: &'static str)
        ensures
            s@ == self.spec_name(),
    {
        match self {
            UserRole::Admin => "Admin",
            UserRole::User => "User",
            UserRole::Support => "Support",
        }
    }

    /// The role whose name is `s`.
    pub fn from_name(s: &str) -> (r: Option<Self>)
        ensures
            r == spec_user_role(s@),
    {
        if str_eq(s, "Admin") {
            Some(UserRole::Admin)
        } else if str_eq(s, "User") {
            Some(UserRole::User)
        } else if str_eq(s, "Support") {
            Some(UserRole::Support)
        } else {
            None
        }
    }
}

/// Reading back the name of a role gives the role.
pub proof fn law_user_role_name_round_trip(r: UserRole)
    ensures
        spec_user_role(r.spec_name()) == Some(r),
{
    reveal_strlit("Admin");
    reveal_strlit("User");
    reveal_strlit("Support");
    assert("Admin"@[0] != "User"@[0]);
    assert("Admin"@[0] != "Support"@[0]);
    assert("User"@[0] != "Support"@[0]);
}

/// A public key of a user, and what the user does with it.
#[derive(Debug, Clone)]
pub struct UserPubKey {
    pub pubkey: String,
    pub is_developer: bool,
    pub is_hoster: bool,
}

// ---------------------------------------------------------------------------
// Public services
// ---------------------------------------------------------------------------

/// The kind of a service that is reachable on a public address.
#[derive(Debug, Clone, Copy, PartialEq, Eq, Structural)]
pub enum PublicServiceType {
    Default,
    GatewayServer,
    ApiServer,
}

// ---------------------------------------------------------------------------
// Jobs
// ---------------------------------------------------------------------------

/// A change of a job that was asked for.
#[derive(Debug, Clone, Copy, PartialEq, Eq, Structural)]
pub enum JobChangeRequest {
    Update,
    Pause,
    Stop,
}

/// The state of a job as the database records it.
#[derive(Debug, Clone, Copy, PartialEq, Eq, Structural)]
pub enum DbStates {
    /// The job is created in the database and not installed on a host.
    Created,
    /// A change of the job was requested.
    Requested(JobChangeRequest),
}

impl Default for DbStates {
    fn default() -> (s: Self)
        ensures
            s == DbStates::Created,
    {
        DbStates::Created
    }
}

/// Whether the application of a job is installed on its host.
#[derive(Debug, Clone, Copy, PartialEq, Eq, Structural)]
pub enum HappStorageState {
    HappInstalled,
    HappNotFound,
    Unknown,
}

/// The state of a job as its host reports it.
#[derive(Debug, Clone, Copy, PartialEq, Eq, Structural)]
pub enum HostStates {
    /// Pending installation, or re-installation after an update.
    Pending,
    Running(HappStorageState),
    Paused(HappStorageState),
    Stopped(HappStorageState),
}

/// The state of a job.
#[derive(Debug, Clone)]
pub enum JobState {
    Db(DbStates),
    Host(HostStates),
    Error(String),
}

impl Default for JobState {
    /// A new job is created in the database.
    fn default() -> (s: Self)
        ensures
            s == JobState::Db(DbStates::Created),
    {
        JobState::Db(DbStates::Created)
    }
}

// ---------------------------------------------------------------------------
// Manifests and workloads
// ---------------------------------------------------------------------------

/// Parameters of a web bridge manifest (none yet).
#[derive(Debug, Clone, Copy, PartialEq, Eq, Structural)]
pub struct WebBridgeParameters {}

impl Default for WebBridgeParameters {
    fn default() -> (p: Self) {
        WebBridgeParameters {}
    }
}

/// Parameters of a static content manifest (none yet).
#[derive(Debug, Clone, Copy, PartialEq, Eq, Structural)]
pub struct StaticContentParameters {}

impl Default for StaticContentParameters {
    fn default() -> (p: Self) {
        StaticContentParameters {}
    }
}

/// Whether a workload is offered to every host.
#[derive(Debug, Clone, Copy, PartialEq, Eq, Structural)]
pub enum ExecutionPolicyVisibility {
    Public,
    Private,
}

impl Default for ExecutionPolicyVisibility {
    fn default() -> (v: Self)
        ensures
            v == ExecutionPolicyVisibility::Public,
    {
        ExecutionPolicyVisibility::Public
    }
}

/// Where and how often a workload is to be deployed.
#[derive(Debug, Clone)]
pub struct ExecutionPolicy {
    /// Jurisdiction codes to deploy in.
    pub jurisdictions: Vec<String>,
    /// Region codes to deploy in.
    pub regions: Vec<String>,
    /// Minimum number of instances of the workload. A policy read without
    /// this field gets `default_instances()`.
    pub instances: i32,
    pub visibility: ExecutionPolicyVisibility,
}

impl Default for ExecutionPolicy {
    /// No jurisdiction, no region, no instance, public.
    fn default() -> (p: Self)
        ensures
            p.jurisdictions@.len() == 0,
            p.regions@.len() == 0,
            p.instances == 0,
            p.visibility == ExecutionPolicyVisibility::Public,
    {
        ExecutionPolicy {
            jurisdictions: Vec::new(),
            regions: Vec::new(),
            instances: 0,
            visibility: ExecutionPolicyVisibility::Public,
        }
    }
}


/// Where the binary of a hApp is found.
#[derive(Debug)]
pub enum HappBinaryFormat {
    /// The Blake3 hash of an uploaded binary.
    HappBinaryBlake3Hash(String),
    /// The URL of the binary.
    HappBinaryUrl(Url),
}

/// True when `s` begins as an HTTP or HTTPS URL.
pub open spec fn is_http_like(s: Seq<char>) -> bool {
    ||| ("http://"@.len() <= s.len() && s.take("http://"@.len() as int) == "http://"@)
    ||| ("https://"@.len() <= s.len() && s.take("https://"@.len() as int) == "https://"@)
}

/// Reads where a hApp binary is found from a command line argument: text that
/// begins with `http://` or `https://` must be a URL; any other text is taken
/// for a hash.
pub fn parse_happ_binary(s: &str) -> (r: Result<HappBinaryFormat, ParseError>)
    ensures
        is_http_like(s@) ==> (r is Ok <==> url_parses(s@)) && (r is Ok ==> (r matches Ok(
            HappBinaryFormat::HappBinaryUrl(u),
        ) && url_parse_result(s@) == Some(url_text(u)))),
        !is_http_like(s@) ==> (r matches Ok(HappBinaryFormat::HappBinaryBlake3Hash(h)) && h@ == s@),
{
    if starts_with(s, "http://") || starts_with(s, "https://") {
        match parse_url(s) {
            Ok(url) => Ok(HappBinaryFormat::HappBinaryUrl(url)),
            Err(e) => Err(e),
        }
    } else {
        Ok(HappBinaryFormat::HappBinaryBlake3Hash(s.to_owned()))
    }
}


/// Why no hApp binary could be read from a manifest's parameters.
#[derive(Debug, Clone)]
pub enum HappBinaryError {
    /// The first of the fields that was present could not be read; the text
    /// says why.
    Invalid(String),
    /// None of `happ_binary`, `happ_binary_url` and `happ_binary_hash` was present.
    Missing,
}

/// Which hApp binary the parameters of a Holochain manifest name, from the
/// fields `happ_binary`, `happ_binary_url` and `happ_binary_hash`, each absent
/// or read (successfully or not). The first of them that is present decides,
/// in that order.
pub open spec fn spec_choose_happ_binary(
    happ_binary: Option<Result<HappBinaryFormat, String>>,
    happ_binary_url: Option<Result<Url, String>>,
    happ_binary_hash: Option<Result<String, String>>,
) -> Result<HappBinaryFormat, HappBinaryError> {
    match happ_binary {
        Some(Ok(f)) => Ok(f),
        Some(Err(e)) => Err(HappBinaryError::Invalid(e)),
        None => match happ_binary_url {
            Some(Ok(u)) => Ok(HappBinaryFormat::HappBinaryUrl(u)),
            Some(Err(e)) => Err(HappBinaryError::Invalid(e)),
            None => match happ_binary_hash {
                Some(Ok(h)) => Ok(HappBinaryFormat::HappBinaryBlake3Hash(h)),
                Some(Err(e)) => Err(HappBinaryError::Invalid(e)),
                None => Err(HappBinaryError::Missing),
            },
        },
    }
}

/// Which hApp binary the parameters of a Holochain manifest name: the first
/// of `happ_binary`, `happ_binary_url` and `happ_binary_hash` that is present
/// decides, in that order.
pub fn choose_happ_binary(
    happ_binary: Option<Result<HappBinaryFormat, String>>,
    happ_binary_url: Option<Result<Url, String>>,
    happ_binary_hash: Option<Result<String, String>>,
) -> (r: Result<HappBinaryFormat, HappBinaryError>)
    ensures
        r == spec_choose_happ_binary(happ_binary, happ_binary_url, happ_binary_hash),
{
    match happ_binary {
        Some(Ok(f)) => Ok(f),
        Some(Err(e)) => Err(HappBinaryError::Invalid(e)),
        None => match happ_binary_url {
            Some(Ok(u)) => Ok(HappBinaryFormat::HappBinaryUrl(u)),
            Some(Err(e)) => Err(HappBinaryError::Invalid(e)),
            None => match happ_binary_hash {
                Some(Ok(h)) => Ok(HappBinaryFormat::HappBinaryBlake3Hash(h)),
                Some(Err(e)) => Err(HappBinaryError::Invalid(e)),
                None => Err(HappBinaryError::Missing),
            },
        },
    }
}

/// The parameters of a Holochain manifest.
#[derive(Debug)]
pub struct HolochainDhtParameters {
    pub happ_binary: HappBinaryFormat,
    pub holochain_version: Option<String>,
    pub holochain_feature_flags: Option<Vec<String>>,
    pub stun_server_urls: Option<Vec<Url>>,
    pub signal_server_url: Option<Url>,
    pub bootstrap_server_url: Option<Url>,
    /// Membrane proofs, each a key and a value.
    pub memproofs: Option<Vec<(String, String)>>,
}

impl HolochainDhtParameters {
    /// Parameters with the given binary and nothing else set.
    pub fn with_default_params(happ_binary: HappBinaryFormat) -> (p: Self)
        ensures
            p.happ_binary == happ_binary,
            p.holochain_version is None,
            p.holochain_feature_flags is None,
            p.stun_server_urls is None,
            p.signal_server_url is None,
            p.bootstrap_server_url is None,
            p.memproofs is None,
    {
        HolochainDhtParameters {
            happ_binary,
            holochain_version: None,
            holochain_feature_flags: None,
            stun_server_urls: None,
            signal_server_url: None,
            bootstrap_server_url: None,
            memproofs: None,
        }
    }
}


/// An optional field of a manifest's parameters as it was found: absent, null,
/// or a value that was read, with `None` where it could not be read.
#[derive(Debug)]
pub enum FoundField<T> {
    Absent,
    Null,
    Read(Option<T>),
}

/// The value that an optional field sets: only a value that was read.
pub open spec fn spec_lenient_field<T>(f: FoundField<T>) -> Option<T> {
    match f {
        FoundField::Read(Some(v)) => Some(v),
        _ => None,
    }
}

/// The value that an optional field sets: a field that is absent or null, or
/// whose value could not be read, is left unset rather than refused.
pub fn lenient_field<T>(f: FoundField<T>) -> (r: Option<T>)
    ensures
        r == spec_lenient_field(f),
{
    match f {
        FoundField::Read(Some(v)) => Some(v),
        _ => None,
    }
}

/// The parameters of a Holochain manifest from its fields as they were found.
/// The hApp binary is chosen as `choose_happ_binary` does and must be there;
/// each optional field is set only where its value could be read.
pub fn holochain_dht_parameters_from_fields(
    happ_binary: Option<Result<HappBinaryFormat, String>>,
    happ_binary_url: Option<Result<Url, String>>,
    happ_binary_hash: Option<Result<String, String>>,
    holochain_version: FoundField<String>,
    holochain_feature_flags: FoundField<Vec<String>>,
    stun_server_urls: FoundField<Vec<Url>>,
    signal_server_url: FoundField<Url>,
    bootstrap_server_url: FoundField<Url>,
    memproofs: FoundField<Vec<(String, String)>>,
) -> (r: Result<HolochainDhtParameters, HappBinaryError>)
    ensures
        match spec_choose_happ_binary(happ_binary, happ_binary_url, happ_binary_hash) {
            Err(e) => r == Err::<HolochainDhtParameters, HappBinaryError>(e),
            Ok(b) => r matches Ok(p) && {
                &&& p.happ_binary == b
                &&& p.holochain_version == spec_lenient_field(holochain_version)
                &&& p.holochain_feature_flags == spec_lenient_field(holochain_feature_flags)
                &&& p.stun_server_urls == spec_lenient_field(stun_server_urls)
                &&& p.signal_server_url == spec_lenient_field(signal_server_url)
                &&& p.bootstrap_server_url == spec_lenient_field(bootstrap_server_url)
                &&& p.memproofs == spec_lenient_field(memproofs)
            },
        },
{
    let happ_binary = match choose_happ_binary(happ_binary, happ_binary_url, happ_binary_hash) {
        Ok(b) => b,
        Err(e) => return Err(e),
    };
    Ok(
        HolochainDhtParameters {
            happ_binary,
            holochain_version: lenient_field(holochain_version),
            holochain_feature_flags: lenient_field(holochain_feature_flags),
            stun_server_urls: lenient_field(stun_server_urls),
            signal_server_url: lenient_field(signal_server_url),
            bootstrap_server_url: lenient_field(bootstrap_server_url),
            memproofs: lenient_field(memproofs),
        },
    )
}

// ---------------------------------------------------------------------------
// Stored documents
// ---------------------------------------------------------------------------

#[verifier::external_type_specification]
#[verifier::external_body]
pub struct ExObjectId(bson::oid::ObjectId);

/// `bson::oid::ObjectId::new`: a fresh id made from the time, the process and
/// a counter. Nothing is stated of it.
#[verifier::external_body]
fn new_object_id() -> ObjectId {
    ObjectId::new()
}

/// What a manifest deploys.
#[derive(Debug)]
pub enum ManifestType {
    HolochainDht(Box<HolochainDhtParameters>),
    StaticContent(Box<StaticContentParameters>),
    WebBridge(Box<WebBridgeParameters>),
}

/// A manifest: what a user deploys, under a name and an optional tag.
#[derive(Debug)]
pub struct Manifest {
    pub _id: ObjectId,
    pub metadata: Metadata,
    pub owner: ObjectId,
    /// A name that the user chooses; a stored manifest without one is read
    /// with `get_default_manifest_name()`.
    pub name: String,
    /// A tag by which the latest manifest with it is fetched.
    pub tag: Option<String>,
    pub manifest_type: ManifestType,
}

impl Manifest {
    /// A new manifest of `owner` under a fresh id, with empty metadata; a
    /// missing name is the empty name.
    pub fn new(owner: ObjectId, name: Option<String>, tag: Option<String>, manifest_type: ManifestType) -> (m:
        Self)
        ensures
            m.owner == owner,
            m.metadata == (Metadata { is_deleted: false, deleted_at: None, updated_at: None, created_at: None }),
            m.name@ == (match name {
                Some(n) => n@,
                None => Seq::<char>::empty(),
            }),
            m.tag == tag,
            m.manifest_type == manifest_type,
    {
        let name = match name {
            Some(n) => n,
            None => String::new(),
        };
        Manifest {
            _id: new_object_id(),
            metadata: Metadata::default(),
            owner,
            name,
            tag,
            manifest_type,
        }
    }
}

impl Default for Manifest {
    /// A manifest of a fresh owner under the default name, for a Holochain
    /// hApp given by the placeholder hash `placeholder_happ_hash`.
    fn default() -> (m: Self)
        ensures
            m.name@ == "default_manifest"@,
            m.tag is None,
            m.metadata == (Metadata { is_deleted: false, deleted_at: None, updated_at: None, created_at: None }),
            m.manifest_type matches ManifestType::HolochainDht(p) && p.happ_binary matches HappBinaryFormat::HappBinaryBlake3Hash(h)
                && h@ == "placeholder_happ_hash"@ && p.holochain_version is None && p.memproofs is None,
    {
        let params = HolochainDhtParameters::with_default_params(
            HappBinaryFormat::HappBinaryBlake3Hash(String::from_str("placeholder_happ_hash")),
        );
        Manifest {
            _id: new_object_id(),
            metadata: Metadata::default(),
            owner: new_object_id(),
            name: get_default_manifest_name(),
            tag: None,
            manifest_type: ManifestType::HolochainDht(Box::new(params)),
        }
    }
}

/// A service that is reachable on public addresses, as the DNS service reads it.
#[derive(Debug)]
pub struct PublicService {
    pub _id: Option<ObjectId>,
    pub metadata: Metadata,
    pub service_type: PublicServiceType,
    /// The DNS name of the service.
    pub service_name: String,
    /// Public IPv6 addresses.
    pub aaaa_addrs: Vec<String>,
    /// Public IPv4 addresses.
    pub a_addrs: Vec<String>,
    /// Names for CNAME records.
    pub cname_addrs: Vec<String>,
    /// Names that answer NS questions.
    pub ns_addrs: Vec<String>,
}

impl PublicService {
    /// An unnamed default service without addresses, created at `created` and
    /// updated at `updated` (milliseconds since the Unix epoch).
    pub fn default_at(created: i64, updated: i64) -> (p: Self)
        ensures
            p._id is None,
            p.metadata == (Metadata {
                is_deleted: false,
                deleted_at: None,
                updated_at: Some(updated),
                created_at: Some(created),
            }),
            p.service_type == PublicServiceType::Default,
            p.service_name@.len() == 0,
            p.aaaa_addrs@.len() == 0,
            p.a_addrs@.len() == 0,
            p.cname_addrs@.len() == 0,
            p.ns_addrs@.len() == 0,
    {
        PublicService {
            _id: None,
            metadata: Metadata {
                is_deleted: false,
                deleted_at: None,
                updated_at: Some(updated),
                created_at: Some(created),
            },
            service_type: PublicServiceType::Default,
            service_name: String::new(),
            aaaa_addrs: Vec::new(),
            a_addrs: Vec::new(),
            cname_addrs: Vec::new(),
            ns_addrs: Vec::new(),
        }
    }
}

impl Default for PublicService {
    /// An unnamed default service without addresses, created and updated now;
    /// the time is read once for each.
    fn default() -> (p: Self)
        ensures
            p._id is None,
            !p.metadata.is_deleted,
            p.metadata.deleted_at is None,
            p.metadata.created_at is Some,
            p.metadata.updated_at is Some,
            p.service_type == PublicServiceType::Default,
            p.service_name@.len() == 0,
            p.aaaa_addrs@.len() == 0 && p.a_addrs@.len() == 0,
            p.cname_addrs@.len() == 0 && p.ns_addrs@.len() == 0,
    {
        let created = bson_now_millis();
        let updated = bson_now_millis();
        PublicService::default_at(created, updated)
    }
}

/// When an API key that was made at `now_secs` (seconds since the Unix epoch)
/// expires unless told otherwise: 30 days later.
pub fn api_key_default_expire_at(now_secs: i64) -> (t: i64)
    requires
        now_secs <= i64::MAX - 30 * 24 * 60 * 60,
    ensures
        t == now_secs + 30 * 24 * 60 * 60,
{
    now_secs + 30 * 24 * 60 * 60
}

// ---------------------------------------------------------------------------
// Jurisdictions
// ---------------------------------------------------------------------------

/// A country or territory in which a host may stand. `Unknown` is the default.
#[derive(Debug, Clone, Copy, PartialEq, Eq, Structural, Hash)]
pub enum Jurisdiction {
    Unknown,
    Afghanistan,
    AlandIslands,
    Albania,
    Algeria,
    Andorra,
    Angola,
    Anguilla,
    AntiguaAndBarbuda,
    Argentina,
    Armenia,
    Aruba,
    Australia,
    Austria,
    Azerbaijan,
    Bahamas,
    Bahrain,
    Bangladesh,
    Barbados,
    Belarus,
    Belgium,
    Belize,
    Benin,
    Bermuda,
    Bhutan,
    Bolivia,
    BosniaAndHerzegovina,
    Botswana,
    BouvetIsland,
    Brazil,
    BritishIndianOceanTerritory,
    VirginIslandsBritish,
    Brunei,
    Bulgaria,
    BurkinaFaso,
    Burundi,
    Cambodia,
    RepublicOfCameroon,
    Canada,
    CapeVerde,
    CaribbeanNetherlands,
    CaymanIslands,
    CentralAfricanRepublic,
    Chad,
    Chile,
    China,
    ChristmasIsland,
    CocosKeelingIslands,
    Colombia,
    Comoros,
    Congo,
    CongoTheDemocraticRepublicOfThe,
    CookIslands,
    CostaRica,
    Croatia,
    Curacao,
    Cyprus,
    CzechRepublic,
    CoteDIvoire,
    Denmark,
    Djibouti,
    Dominica,
    DominicanRepublic,
    Ecuador,
    Egypt,
    ElSalvador,
    EquatorialGuinea,
    Eritrea,
    Estonia,
    Eswatini,
    Ethiopia,
    FalklandIslandsMalvinas,
    FaroeIslands,
    Fiji,
    Finland,
    France,
    FrenchGuiana,
    FrenchPolynesia,
    FrenchSouthernTerritories,
    Gabon,
    Gambia,
    Georgia,
    Germany,
    Ghana,
    Gibraltar,
    Greece,
    Greenland,
    Grenada,
    Guadeloupe,
    Guatemala,
    Guernsey,
    Guinea,
    GuineaBissau,
    Guyana,
    Haiti,
    HeardIslandAndMcdonaldIslands,
    Honduras,
    HongKong,
    Hungary,
    Iceland,
    India,
    Indonesia,
    Ireland,
    IsleOfMan,
    Israel,
    Italy,
    Jamaica,
    Japan,
    Jersey,
    Jordan,
    Kazakhstan,
    Kenya,
    Kiribati,
    Kosovo,
    Kuwait,
    Kyrgyzstan,
    LaoPeoplesDemocraticRepublic,
    Latvia,
    Lebanon,
    Lesotho,
    Liberia,
    LibyanArabJamahiriya,
    Liechtenstein,
    Lithuania,
    Luxembourg,
    Macao,
    Madagascar,
    Malawi,
    Malaysia,
    Maldives,
    Mali,
    Malta,
    Martinique,
    Mauritania,
    Mauritius,
    Mayotte,
    Mexico,
    MoldovaRepublicOf,
    Monaco,
    Mongolia,
    Montenegro,
    Montserrat,
    Morocco,
    Mozambique,
    Myanmar,
    Namibia,
    Nauru,
    Nepal,
    Netherlands,
    NetherlandsAntilles,
    NewCaledonia,
    NewZealand,
    Nicaragua,
    Niger,
    Nigeria,
    Niue,
    NorfolkIsland,
    NorthMacedonia,
    Norway,
    Oman,
    Pakistan,
    PalestineStateOf,
    Panama,
    PapuaNewGuinea,
    Paraguay,
    Peru,
    Philippines,
    Pitcairn,
    Poland,
    Portugal,
    Qatar,
    Reunion,
    Romania,
    Russia,
    Rwanda,
    Samoa,
    SanMarino,
    SaoTomeAndPrincipe,
    SaudiArabia,
    Senegal,
    Serbia,
    Seychelles,
    SierraLeone,
    Singapore,
    SintMaarten,
    Slovakia,
    Slovenia,
    SolomonIslands,
    Somalia,
    SouthAfrica,
    SouthGeorgiaAndTheSouthSandwichIslands,
    SouthKorea,
    SouthSudan,
    Spain,
    SriLanka,
    SaintBarthelemy,
    SaintHelena,
    SaintKittsAndNevis,
    SaintLucia,
    SaintMartin,
    SaintPierreAndMiquelon,
    StVincent,
    Suriname,
    SvalbardAndJanMayen,
    Sweden,
    Switzerland,
    TaiwanProvinceOfChina,
    Tajikistan,
    TanzaniaUnitedRepublicOf,
    Thailand,
    TimorLeste,
    Togo,
    Tokelau,
    Tonga,
    TrinidadAndTobago,
    Tunisia,
    Turkey,
    Turkmenistan,
    TurksAndCaicosIslands,
    Tuvalu,
    UnitedStatesMinorOutlyingIslands,
    Uganda,
    Ukraine,
    UnitedArabEmirates,
    UnitedKingdom,
    UnitedStates,
    Uruguay,
    Uzbekistan,
    Vanuatu,
    HolySeeVaticanCityState,
    Venezuela,
    Vietnam,
    WallisAndFutuna,
    WesternSahara,
    Yemen,
    Zambia,
    Zimbabwe,
}

impl Default for Jurisdiction {
    fn default() -> (j: Self)
        ensures
            j == Jurisdiction::Unknown,
    {
        Jurisdiction::Unknown
    }
}

} // verus!
