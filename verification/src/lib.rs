//! The invocation protocol of a lattice of actors and capability providers:
//! signed invocations and their validation, the subjects that they travel
//! under, what a client decides around a call, and how a key-value provider
//! keeps its links and takes a call through its backing store.

pub mod client;
pub mod digest;
pub mod dispatch;
pub mod entity;
pub mod invocation;
pub mod keyvalue;
pub mod kvredis;
pub mod link;
pub mod provider;
pub mod registry;
pub mod store;
pub mod subject;
pub mod table;
pub mod text;
pub mod token;
