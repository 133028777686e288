use vstd::prelude::*;

use crate::text::{decimal, u64_to_decimal};

verus! {

/// The port on which a leaf server listens unless told otherwise.
pub const LEAF_SERVER_DEFAULT_LISTEN_PORT: u16 = 4222;

/// Jetstream settings of a leaf server.
#[derive(Debug, Clone)]
pub struct JetStreamConfig {
    /// Directory of the stored streams.
    pub store_dir: String,
    pub max_memory_store: u64,
    pub max_file_store: u64,
    /// The jetstream domain; left out of the configuration when absent.
    pub domain: Option<String>,
}

/// Logging settings of a leaf server.
#[derive(Debug, Clone, Copy, PartialEq, Eq, Structural)]
pub struct LoggingOptions {
    pub debug: bool,
    pub trace: bool,
    pub logtime: bool,
}

/// TLS settings of the connection to a remote.
#[derive(Debug, Clone, Copy, PartialEq, Eq, Structural)]
pub struct LeafNodeRemoteTlsConfig {
    pub insecure: bool,
    pub handshake_first: bool,
}

impl Default for LeafNodeRemoteTlsConfig {
    /// Certificates are checked, and the TLS handshake comes first.
    fn default() -> (c: Self)
        ensures
            c == (LeafNodeRemoteTlsConfig { insecure: false, handshake_first: true }),
    {
        LeafNodeRemoteTlsConfig { insecure: false, handshake_first: true }
    }
}

/// A remote server that the leaf server connects to.
#[derive(Debug, Clone)]
pub struct LeafNodeRemote {
    pub url: String,
    /// Path of the credentials file; left out of the configuration when absent.
    pub credentials: Option<String>,
    pub tls: LeafNodeRemoteTlsConfig,
}

/// The remotes of a leaf server.
#[derive(Debug, Clone)]
pub struct LeafNodes {
    pub remotes: Vec<LeafNodeRemote>,
}

/// The configuration that a leaf server is run with.
#[derive(Debug, Clone)]
pub struct NatsConfig {
    /// Must be unique among the leaf servers of a remote.
    pub server_name: Option<String>,
    /// The host, as text.
    pub host: String,
    pub port: u16,
    pub max_payload: Option<u64>,
    pub jetstream: JetStreamConfig,
    pub leafnodes: LeafNodes,
    pub logging: LoggingOptions,
}

/// A NATS leaf server: its configuration and the file it is written to.
#[derive(Debug, Clone)]
pub struct LeafServer {
    nats_config: NatsConfig,
    pub config_path: String,
}

pub open spec fn opt_str_view(o: Option<&str>) -> Option<Seq<char>> {
    match o {
        Some(s) => Some(s@),
        None => None,
    }
}

pub open spec fn opt_string_view(o: Option<String>) -> Option<Seq<char>> {
    match o {
        Some(s) => Some(s@),
        None => None,
    }
}

/// The address of a server on `host` and `port`: `{host}:{port}`.
pub open spec fn spec_server_address(host: Seq<char>, port: u16) -> Seq<char> {
    host + ":"@ + decimal(port as nat)
}

impl LeafServer {
    pub closed spec fn config(&self) -> NatsConfig {
        self.nats_config
    }

    pub closed spec fn spec_config_path(&self) -> Seq<char> {
        self.config_path@
    }

    /// A leaf server with the given settings.
    pub fn new(
        server_name: Option<&str>,
        new_config_path: &str,
        host: String,
        port: u16,
        max_payload: Option<u64>,
        jetstream_config: JetStreamConfig,
        logging: LoggingOptions,
        leaf_node_remotes: Vec<LeafNodeRemote>,
    ) -> (s: Self)
        ensures
            opt_string_view(s.config().server_name) == opt_str_view(server_name),
            s.spec_config_path() == new_config_path@,
            s.config().host@ == host@,
            s.config().port == port,
            s.config().max_payload == max_payload,
            s.config().jetstream == jetstream_config,
            s.config().logging == logging,
            s.config().leafnodes.remotes == leaf_node_remotes,
    {
        let server_name = match server_name {
            Some(n) => Some(n.to_owned()),
            None => None,
        };
        LeafServer {
            nats_config: NatsConfig {
                server_name,
                host,
                port,
                max_payload,
                jetstream: jetstream_config,
                leafnodes: LeafNodes { remotes: leaf_node_remotes },
                logging,
            },
            config_path: new_config_path.to_owned(),
        }
    }

    /// The configuration that the server is run with.
    pub fn nats_config(&self) -> (c: &NatsConfig)
        ensures
            *c == self.config(),
    {
        &self.nats_config
    }

    /// The address on which the server listens: `{host}:{port}`.
    pub fn server_address(&self) -> (a: String)
        ensures
            a@ == spec_server_address(self.config().host@, self.config().port),
    {
        let mut a = self.nats_config.host.clone();
        a.append(":");
        let port = u64_to_decimal(self.nats_config.port as u64);
        a.append(port.as_str());
        a
    }
}

} // verus!
