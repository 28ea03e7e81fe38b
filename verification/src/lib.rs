pub mod api;
pub mod codec;
pub mod delete;
pub mod deploy;
pub mod get;
pub mod handler;
pub mod image;
pub mod label;
pub mod laws;
pub mod manifest;
pub mod put;
pub mod schema;
pub mod status;
pub mod stored;
pub mod text;
pub mod undeploy;
pub mod validation;
