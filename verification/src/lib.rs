use vstd::prelude::*;

pub mod schemas;
pub mod text;
pub mod errors;
pub mod documents;
pub mod metadata_update;
pub mod registry;
pub mod nsc;
pub mod retry;
pub mod stream_service;
pub mod nats_names;
pub mod hosting_schemas;
pub mod claims;
pub mod endpoint;
pub mod urls;
pub mod hc_http_gw;
pub mod client_types;
pub mod connection;
pub mod leaf_server;
pub mod microservice;
pub mod mocks;
pub mod indices;
pub mod collection;
pub mod squashfs_paths;

verus! {

} // verus!
