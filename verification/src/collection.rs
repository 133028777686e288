//! What a MongoDB collection decides around its operations: the metadata of
//! an inserted document, and the errors it reports.
use vstd::prelude::*;

use crate::errors::ServiceError;
use crate::metadata_update::bson_now_millis;

verus! {

/// The metadata of a document; times are milliseconds since the Unix epoch.
#[derive(Debug, Clone, Copy, PartialEq, Eq, Structural)]
pub struct Metadata {
    pub is_deleted: bool,
    pub deleted_at: Option<i64>,
    pub updated_at: Option<i64>,
    pub created_at: Option<i64>,
}

impl Default for Metadata {
    fn default() -> (m: Self)
        ensures
            m == (Metadata { is_deleted: false, deleted_at: None, updated_at: None, created_at: None }),
    {
        Metadata { is_deleted: false, deleted_at: None, updated_at: None, created_at: None }
    }
}

/// Marks a document as inserted, created at `created` and updated at
/// `updated`; when it was deleted is left as it was.
pub fn mark_inserted_at(metadata: &mut Metadata, created: i64, updated: i64)
    ensures
        *final(metadata) == (Metadata {
            is_deleted: false,
            deleted_at: old(metadata).deleted_at,
            updated_at: Some(updated),
            created_at: Some(created),
        }),
{
    metadata.is_deleted = false;
    metadata.created_at = Some(created);
    metadata.updated_at = Some(updated);
}

/// Marks a document as inserted now: not deleted, created and updated at the
/// current time, which is read once for each.
pub fn mark_inserted(metadata: &mut Metadata)
    ensures
        !final(metadata).is_deleted,
        final(metadata).deleted_at == old(metadata).deleted_at,
        final(metadata).created_at is Some,
        final(metadata).updated_at is Some,
{
    let created = bson_now_millis();
    let updated = bson_now_millis();
    mark_inserted_at(metadata, created, updated);
}

/// The error of a failed database operation: the database error's text, and
/// the operation.
pub fn handle_db_error(operation: &str, error: String) -> (e: ServiceError)
    ensures
        e matches ServiceError::Database { source, collection: None, operation: Some(o) } && source
            == error && o@ == operation@,
{
    ServiceError::database(error, None, Some(operation.to_owned()))
}

/// An internal error of an operation.
pub fn handle_internal_error(operation: &str, error: String) -> (e: ServiceError)
    ensures
        e matches ServiceError::Internal { message, context: Some(c) } && message == error && c@
            == operation@,
{
    ServiceError::internal(error, Some(operation.to_owned()))
}

/// The error of a collection whose indices could not be created:
/// `Failed to apply indices: {error}` in `Collection: {db_name}.{collection_name}`.
pub fn index_failure_error(db_name: &str, collection_name: &str, error: &str) -> (e: ServiceError)
    ensures
        e matches ServiceError::Internal { message, context: Some(c) } && message@
            == "Failed to apply indices: "@ + error@ && c@ == "Collection: "@ + db_name@ + "."@
            + collection_name@,
{
    let mut message = String::from_str("Failed to apply indices: ");
    message.append(error);
    let mut context = String::from_str("Collection: ");
    context.append(db_name);
    context.append(".");
    context.append(collection_name);
    ServiceError::internal(message, Some(context))
}

} // verus!
