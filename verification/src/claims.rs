use vstd::prelude::*;

verus! {

/// Subject patterns that are allowed and denied.
#[derive(Debug, Clone)]
pub struct NatsPermissions {
    /// Subject patterns that are allowed.
    pub allow: Vec<String>,
    /// Subject patterns that are denied.
    pub deny: Vec<String>,
}

impl Default for NatsPermissions {
    fn default() -> (p: Self)
        ensures
            p.allow@.len() == 0,
            p.deny@.len() == 0,
    {
        NatsPermissions { allow: Vec::new(), deny: Vec::new() }
    }
}

impl NatsPermissions {
    /// True when both the allow list and the deny list are empty.
    pub fn is_empty(&self) -> (b: bool)
        ensures
            b == (self.allow@.len() == 0 && self.deny@.len() == 0),
    {
        self.allow.len() == 0 && self.deny.len() == 0
    }
}

/// Publish and subscribe permissions.
#[derive(Debug, Clone)]
pub struct NatsPermissionsMap {
    pub publish: NatsPermissions,
    pub subscribe: NatsPermissions,
}

impl Default for NatsPermissionsMap {
    fn default() -> (m: Self)
        ensures
            m.publish.allow@.len() == 0,
            m.publish.deny@.len() == 0,
            m.subscribe.allow@.len() == 0,
            m.subscribe.deny@.len() == 0,
    {
        NatsPermissionsMap { publish: NatsPermissions::default(), subscribe: NatsPermissions::default() }
    }
}

/// Limits on what an account, or the users of the account, can do.
#[derive(Debug, Clone, Copy, PartialEq, Eq, Structural)]
pub struct NatsAccountLimits {
    /// Maximum number of subscriptions.
    pub subs: i64,
    /// Maximum size of message data, in bytes.
    pub data: i64,
    /// Maximum size of a whole message payload, in bytes.
    pub payload: i64,
    /// Maximum number of imports.
    pub imports: i64,
    /// Maximum number of exports.
    pub exports: i64,
    /// Whether exports may hold wildcards.
    pub wildcards: bool,
    /// Maximum number of active connections.
    pub conn: i64,
    /// Maximum number of leaf node connections.
    pub leaf: i64,
}

/// The NATS part of the claims of a user or of an account.
#[derive(Debug, Clone)]
pub enum NatsClaims {
    User {
        /// Publish and subscribe permissions of the user.
        permissions: NatsPermissionsMap,
        /// Public key of the account that issued the token.
        issuer_account: String,
        /// Maximum number of subscriptions.
        subs: i64,
        /// Maximum size of message data, in bytes.
        data: i64,
        /// Maximum size of a whole message payload, in bytes.
        payload: i64,
        /// Whether the user is let in without a challenge.
        bearer_token: bool,
        /// Version of the claims object.
        version: i64,
    },
    Account {
        limits: NatsAccountLimits,
        /// Public signing keys of the account.
        signing_keys: Vec<String>,
        /// Version of the claims object.
        version: i64,
    },
}

/// Claims of a NATS token.
#[derive(Debug, Clone)]
pub struct Claims {
    /// When the token was issued, in seconds since the Unix epoch.
    pub issued_at: i64,
    /// Public key of the signing key of the issuer.
    pub issuer: String,
    /// Hash of the claims.
    pub jwt_id: String,
    /// Public key of the account or user that the token is for.
    pub sub: String,
    /// Friendly name.
    pub name: String,
    pub nats: NatsClaims,
    /// When the token expires, in seconds since the Unix epoch.
    pub expires: Option<i64>,
}

} // verus!
