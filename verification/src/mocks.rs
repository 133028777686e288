use vstd::prelude::*;

use std::sync::Arc;

use mongodb::{Client, Database};

use crate::endpoint::{EndpointTraits, GetSubjectTags};

verus! {

#[verifier::external_type_specification]
#[verifier::external_body]
pub struct ExMongoClient(mongodb::Client);

#[verifier::external_type_specification]
#[verifier::external_body]
pub struct ExMongoDatabase(mongodb::Database);

/// The name of the database that a `mongodb::Database` handle refers to: what
/// `Database::name` gives back, the name that the handle was made with.
pub uninterp spec fn mongo_database_name(db: Database) -> Seq<char>;

/// `mongodb::Client::database`: a handle to the database `name` on the
/// client's cluster, made without any I/O. The contract claims that the handle
/// carries `name` as its database name. The handle also holds a clone of
/// `client` and the client's read and write settings; that is left unsaid.
#[verifier::external_body]
fn client_database(client: &Client, name: &str) -> (db: Database)
    ensures
        mongo_database_name(db) == name@,
{
    client.database(name)
}

/// A test database on a MongoDB server, under a name of its own.
pub struct MongodRunner {
    client: Client,
    db_name: String,
}

/// The name of a test database: `test_db_{unique}`.
pub fn test_db_name(unique: &str) -> (s: String)
    ensures
        s@ == "test_db_"@ + unique@,
{
    let mut s = String::from_str("test_db_");
    s.append(unique);
    s
}

impl MongodRunner {
    pub closed spec fn spec_db_name(&self) -> Seq<char> {
        self.db_name@
    }

    pub closed spec fn spec_client(&self) -> Client {
        self.client
    }

    /// A runner on a connected client, with its database's name.
    pub fn from_parts(client: Client, db_name: String) -> (r: Self)
        ensures
            r.spec_client() == client,
            r.spec_db_name() == db_name@,
    {
        MongodRunner { client, db_name }
    }

    /// The client.
    pub fn client(&self) -> (c: &Client)
        ensures
            *c == self.spec_client(),
    {
        &self.client
    }

    /// The name of the test database.
    pub fn db_name(&self) -> (n: &String)
        ensures
            n@ == self.spec_db_name(),
    {
        &self.db_name
    }

    /// A handle to the test database, on the runner's client.
    pub fn database(&self) -> (db: Database)
        ensures
            mongo_database_name(db) == self.spec_db_name(),
    {
        client_database(&self.client, self.db_name.as_str())
    }
}

/// A NATS message for tests, without a reply subject.
pub struct NatsMessage {
    subject: String,
    reply: Option<String>,
    payload: Vec<u8>,
}

impl NatsMessage {
    pub closed spec fn spec_subject(&self) -> Seq<char> {
        self.subject@
    }

    pub closed spec fn spec_reply(&self) -> Option<Seq<char>> {
        match self.reply {
            Some(r) => Some(r@),
            None => None,
        }
    }

    pub closed spec fn spec_payload(&self) -> Seq<u8> {
        self.payload@
    }

    /// A message on `subject` with `payload` and no reply subject.
    pub fn new(subject: String, payload: Vec<u8>) -> (m: Self)
        ensures
            m.spec_subject() == subject@,
            m.spec_reply() is None,
            m.spec_payload() == payload@,
    {
        NatsMessage { subject, reply: None, payload }
    }

    pub fn subject(&self) -> (s: &String)
        ensures
            s@ == self.spec_subject(),
    {
        &self.subject
    }

    pub fn reply(&self) -> (r: Option<String>)
        ensures
            match r {
                Some(s) => self.spec_reply() == Some(s@),
                None => self.spec_reply() is None,
            },
    {
        self.reply.clone()
    }

    pub fn payload(&self) -> (p: &Vec<u8>)
        ensures
            p@ == self.spec_payload(),
    {
        &self.payload
    }
}

/// The result of a test service's handler.
#[derive(Debug, Clone)]
pub struct TestResponse {
    pub message: String,
}

impl GetSubjectTags for TestResponse {
    /// No tags.
    fn get_subject_tags(&self) -> (tags: Vec<(String, String)>)
        ensures
            tags@.len() == 0,
    {
        Vec::new()
    }
}

impl EndpointTraits for TestResponse {}

/// A TLS certificate check that accepts every server, for tests only.
#[derive(Debug)]
pub struct SkipServerVerification;

impl SkipServerVerification {
    /// A shared instance.
    pub fn new() -> (v: Arc<Self>) {
        Arc::new(SkipServerVerification)
    }
}

} // verus!
