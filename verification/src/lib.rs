//! A bridge between the capabilities that a plugin process offers and the host that calls them.
//!
//! An application registers handlers for any of six capabilities. For each of them a bridge
//! decodes what arrives on the wire, asks the handler, and encodes the answer; a failure of the
//! handler travels inside the answer. Streams are forwarded by a relay, and the runtime is led
//! through its life by a lifecycle. Waiting, listening and printing are left to a shell around
//! this library; what the shell is told to do is decided, and proved, here.

pub mod app;
pub mod bridge;
pub mod channel;
pub mod comm;
pub mod env;
pub mod error;
pub mod gateway;
pub mod json;
pub mod lifecycle;
pub mod model;
pub mod policy;
pub mod relay;
pub mod schedule;
pub mod schema;
pub mod tool;
pub mod ui;
pub mod wire;

pub use app::NeboApp;
pub use env::AppEnv;
pub use error::NeboError;
pub use error::TransportFault;
pub use schema::SchemaBuilder;
