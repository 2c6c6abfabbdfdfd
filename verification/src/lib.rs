//! Supervision of message-broker connections: connection state and its
//! broadcast, declarative broker topology, and the connect, retry and close
//! protocol that ties them together.

pub mod arguments;
pub mod connection;
pub mod state;
pub mod store;
pub mod system;
pub mod text;
pub mod timing;
pub mod topology;

pub use connection::options::ConnectionOptions;
pub use connection::{Connection, ConnectionBuilder};
pub use state::{ConnectionError, ConnectionState};
pub use system::{start, RabbitClient};
