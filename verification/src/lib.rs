//! Building blocks of a service: the configuration that it reads from its
//! environment, the dispatcher that takes messages from a broker to their
//! handlers, and the spans under which its HTTP requests are traced.
//!
//! Everything here decides and computes; files, sockets, brokers, tracers and
//! secret managers are the caller's business. What they answer comes in as plain
//! values, and what is to be done with them goes out as plain values.

#[allow(unused_imports)]
use vstd::prelude::*;

pub mod building;
pub mod configs;
pub mod configs_builder;
pub mod dispatcher;
pub mod encoding;
pub mod env_keys;
pub mod http_tracing;
pub mod sections;
pub mod settings;
pub mod span;
pub mod text;
pub mod topic;
