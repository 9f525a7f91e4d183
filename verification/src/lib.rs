//! A minimal concurrent HTTP server, split into verified logic and thin I/O.
//!
//! The library holds everything the server decides: configuration values and
//! their defaults, routing of a request line to a canned response, the exact
//! bytes of each response, and a model of the worker pool that bounds how many
//! connections are handled at once. The binary around it only moves bytes
//! between sockets, files and these functions.

pub mod config;
pub mod http;
pub mod pool;
pub mod text;

pub use config::Config;
pub use config::default_host;
pub use config::default_pool_size;
pub use config::default_port;
