use vstd::prelude::*;


verus! {

/// A way for a NATS client to authenticate.
#[derive(Debug, Clone)]
pub enum Credentials {
    /// A credentials file, by its path.
    Path(String),
    /// A user and a password.
    Password(String, String),
    /// A token.
    Token(String),
}

/// What a jetstream service is created with.
#[derive(Debug, Clone)]
pub struct JsServiceBuilder {
    pub name: String,
    pub description: String,
    pub version: String,
    pub service_subject: String,
}

impl Default for JsServiceBuilder {
    fn default() -> (b: Self)
        ensures
            b.name@.len() == 0,
            b.description@.len() == 0,
            b.version@.len() == 0,
            b.service_subject@.len() == 0,
    {
        JsServiceBuilder {
            name: String::new(),
            description: String::new(),
            version: String::new(),
            service_subject: String::new(),
        }
    }
}

/// What a jetstream service is created with, as read from a configuration.
#[derive(Debug, Clone)]
pub struct JsServiceParamsPartial {
    pub name: String,
    pub description: String,
    pub version: String,
    pub service_subject: String,
}

impl Default for JsServiceParamsPartial {
    fn default() -> (b: Self)
        ensures
            b.name@.len() == 0,
            b.description@.len() == 0,
            b.version@.len() == 0,
            b.service_subject@.len() == 0,
    {
        JsServiceParamsPartial {
            name: String::new(),
            description: String::new(),
            version: String::new(),
            service_subject: String::new(),
        }
    }
}

/// The name, version and subject of a jetstream service.
#[derive(Debug, Clone, Copy)]
pub struct JsStreamServiceInfo<'a> {
    pub name: &'a str,
    pub version: &'a str,
    pub service_subject: &'a str,
}

/// Options handed to the handlers of a service.
#[derive(Debug, Clone)]
pub struct ApiOptions {
    pub device_id: String,
}

/// The stream to add.
#[derive(Debug, Clone)]
pub struct AddStreamOptions {
    pub stream_name: String,
}

impl AddStreamOptions {
    /// The subjects of the stream: `{stream_name}.*`.
    pub fn subjects(&self) -> (s: Vec<String>)
        ensures
            s@.len() == 1,
            s@[0]@ == self.stream_name@ + ".*"@,
    {
        let mut subject = self.stream_name.clone();
        subject.append(".*");
        let mut s: Vec<String> = Vec::new();
        s.push(subject);
        s
    }
}

/// A message to publish.
#[derive(Debug, Clone)]
pub struct PublishOptions {
    pub subject: String,
    pub msg_id: String,
    pub data: Vec<u8>,
}

/// A message to publish on a jetstream client.
#[derive(Debug, Clone)]
pub struct SendRequest {
    pub subject: String,
    pub msg_id: String,
    pub data: Vec<u8>,
}

/// A message to publish, with its headers (each a name and a value).
#[derive(Debug, Clone)]
pub struct PublishInfo {
    pub subject: String,
    pub msg_id: String,
    pub data: Vec<u8>,
    pub headers: Option<Vec<(String, String)>>,
}

} // verus!
