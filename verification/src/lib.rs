//! The request-to-response pipeline of a static file server: the request
//! line is parsed, the resource is resolved to a path below the served root,
//! the outcome of loading it is classified, and the response is framed for
//! the wire. Reading from and writing to sockets and the file system is left
//! to the caller, which drives the pipeline one event at a time.

pub mod error;
pub mod handler;
pub mod loader;
pub mod request;
pub mod resolver;
pub mod response;
pub mod text;
