//! A client for publishing messages to a cloud pub/sub topic.
//!
//! The library holds the decisions of the client: which credentials to use
//! and which project they belong to, when a cached bearer token must be
//! refreshed, how a publish request body is framed and what a topic
//! lookup's HTTP status means. Network and file access stay with the caller.
pub mod error;
pub mod client;
pub mod pubsub_message;
pub mod credentials;
pub mod builder;
pub mod token;
