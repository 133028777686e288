use vstd::prelude::*;

verus! {

/// An ascending index on one field of a collection, under a name.
#[derive(Debug, Clone)]
pub struct IndexSpec {
    pub field: String,
    pub name: String,
    pub unique: bool,
}

/// A collection of the database, by the documents it holds.
#[derive(Debug, Clone, Copy, PartialEq, Eq, Structural)]
pub enum CollectionKind {
    ApiKey,
    ApiLog,
    Developer,
    EmailVerify,
    Host,
    Hoster,
    Inventory,
    Job,
    Manifest,
    PublicService,
    Region,
    User,
    UserInfo,
    UserPassword,
    Workload,
    /// Users of the hosting database, found by their info, developer and hoster.
    HostingUser,
    /// Workloads of the hosting database, found by their developer.
    HostingWorkload,
}

/// The indexed fields of a collection, in order, each with whether its index
/// is unique.
pub open spec fn index_fields(c: CollectionKind) -> Seq<(Seq<char>, bool)> {
    match c {
        CollectionKind::ApiKey => seq![("api_key"@, true), ("owner"@, false)],
        CollectionKind::EmailVerify => seq![("email"@, false)],
        CollectionKind::Host => seq![("device_id"@, false)],
        CollectionKind::Inventory => seq![("owner"@, false), ("host"@, false)],
        CollectionKind::Job => seq![("owner"@, false), ("workload"@, false), ("host"@, false)],
        CollectionKind::Region => seq![("code"@, false)],
        CollectionKind::User => seq![("public_key.role"@, false), ("public_key.pubkey"@, false)],
        CollectionKind::UserInfo => seq![("email"@, false)],
        CollectionKind::UserPassword => seq![("owner"@, false)],
        CollectionKind::HostingUser => seq![
            ("user_info_id"@, false),
            ("developer"@, false),
            ("hoster"@, false),
        ],
        CollectionKind::HostingWorkload => seq![("assigned_developer"@, false)],
        _ => seq![],
    }
}

/// An index is named after its field: `{field}_index`.
pub open spec fn spec_index(field: Seq<char>, unique: bool, i: IndexSpec) -> bool {
    i.field@ == field && i.name@ == field + "_index"@ && i.unique == unique
}

/// The index of `field`, named `{field}_index`.
pub fn field_index(field: &str, unique: bool) -> (i: IndexSpec)
    ensures
        spec_index(field@, unique, i),
{
    let mut name = field.to_owned();
    name.append("_index");
    IndexSpec { field: field.to_owned(), name, unique }
}

/// The indices that a collection's documents ask for.
pub fn collection_indices(c: CollectionKind) -> (v: Vec<IndexSpec>)
    ensures
        v@.len() == index_fields(c).len(),
        forall|k: int|
            0 <= k < v@.len() ==> spec_index(index_fields(c)[k].0, index_fields(c)[k].1, #[trigger] v@[k]),
{
    let mut v: Vec<IndexSpec> = Vec::new();
    match c {
        CollectionKind::ApiKey => {
            v.push(field_index("api_key", true));
            v.push(field_index("owner", false));
        },
        CollectionKind::EmailVerify => {
            v.push(field_index("email", false));
        },
        CollectionKind::Host => {
            v.push(field_index("device_id", false));
        },
        CollectionKind::Inventory => {
            v.push(field_index("owner", false));
            v.push(field_index("host", false));
        },
        CollectionKind::Job => {
            v.push(field_index("owner", false));
            v.push(field_index("workload", false));
            v.push(field_index("host", false));
        },
        CollectionKind::Region => {
            v.push(field_index("code", false));
        },
        CollectionKind::User => {
            v.push(field_index("public_key.role", false));
            v.push(field_index("public_key.pubkey", false));
        },
        CollectionKind::UserInfo => {
            v.push(field_index("email", false));
        },
        CollectionKind::UserPassword => {
            v.push(field_index("owner", false));
        },
        CollectionKind::HostingUser => {
            v.push(field_index("user_info_id", false));
            v.push(field_index("developer", false));
            v.push(field_index("hoster", false));
        },
        CollectionKind::HostingWorkload => {
            v.push(field_index("assigned_developer", false));
        },
        _ => {},
    }
    v
}

/// The indices of a collection once its documents' indices are added to those
/// it had: the ones it had, then the new ones, in order. A collection is only
/// asked to create them when there is at least one.
pub fn indices_to_apply(existing: Vec<IndexSpec>, schema: Vec<IndexSpec>) -> (r: Option<Vec<IndexSpec>>)
    ensures
        match r {
            Some(v) => v@ == existing@ + schema@ && v@.len() > 0,
            None => existing@.len() == 0 && schema@.len() == 0,
        },
{
    let mut all = existing;
    let mut rest = schema;
    all.append(&mut rest);
    if all.len() == 0 {
        None
    } else {
        Some(all)
    }
}

/// The indices that the schemas ask for, collection by collection: API keys
/// by key (the only unique index) and by owner; e-mail verifications and user
/// infos by e-mail; hosts by device id; inventories by owner and host; jobs by
/// owner, workload and host; regions by code; users by the role and the key of
/// their public keys; user passwords by owner; hosting users by their info,
/// developer and hoster; hosting workloads by their developer. The other
/// collections have none.
pub proof fn law_collection_index_table(c: CollectionKind)
    ensures
        c == CollectionKind::ApiKey ==> index_fields(c) == seq![("api_key"@, true), ("owner"@, false)],
        c == CollectionKind::EmailVerify ==> index_fields(c) == seq![("email"@, false)],
        c == CollectionKind::UserInfo ==> index_fields(c) == seq![("email"@, false)],
        c == CollectionKind::Host ==> index_fields(c) == seq![("device_id"@, false)],
        c == CollectionKind::Inventory ==> index_fields(c) == seq![("owner"@, false), ("host"@, false)],
        c == CollectionKind::Job ==> index_fields(c) == seq![
            ("owner"@, false),
            ("workload"@, false),
            ("host"@, false),
        ],
        c == CollectionKind::Region ==> index_fields(c) == seq![("code"@, false)],
        c == CollectionKind::User ==> index_fields(c) == seq![
            ("public_key.role"@, false),
            ("public_key.pubkey"@, false),
        ],
        c == CollectionKind::UserPassword ==> index_fields(c) == seq![("owner"@, false)],
        c == CollectionKind::HostingUser ==> index_fields(c) == seq![
            ("user_info_id"@, false),
            ("developer"@, false),
            ("hoster"@, false),
        ],
        c == CollectionKind::HostingWorkload ==> index_fields(c) == seq![("assigned_developer"@, false)],
        c == CollectionKind::ApiLog || c == CollectionKind::Developer || c == CollectionKind::Hoster
            || c == CollectionKind::Manifest || c == CollectionKind::PublicService || c
            == CollectionKind::Workload ==> index_fields(c).len() == 0,
        forall|k: int|
            0 <= k < index_fields(c).len() && (#[trigger] index_fields(c)[k]).1 ==> c
                == CollectionKind::ApiKey && index_fields(c)[k].0 == "api_key"@,
{
}

} // verus!
