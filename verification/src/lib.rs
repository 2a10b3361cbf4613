//! Client library of the Pulse streaming platform.
//!
//! The library decides what is sent and what an answer means; it performs no input or output. A
//! [`PulseClient`] hands out resources whose methods plan one request each:
//!
//! - [`PulseClient::auth`]: login, refresh, organisations
//! - [`PulseClient::pipelines`], [`PulseClient::agents`], [`PulseClient::templates`],
//!   [`PulseClient::users`], [`PulseClient::models`], [`PulseClient::connectors`]
//! - [`PulseClient::events`]: the event stream and the replay of changes
//! - [`PulseClient::iq`]: interactive queries on the state of agents
//! - [`PulseClient::streams`]: pipelines that are declared as streams
//! - [`PulseClient::duplex`]: the channel to an agent
//!
//! The transport sends the request, hands the answer to [`response`], and asks [`retry`] whether to
//! try again.
//!
//! What the operations are for is said of them in [`laws`].
use vstd::prelude::*;

pub mod aggs;
pub mod client;
pub mod duplex;
pub mod duration;
pub mod encode;
pub mod error;
pub mod events;
pub mod fields;
pub mod iq;
pub mod json;
pub mod laws;
pub mod options;
pub mod resources;
pub mod response;
pub mod retry;
pub mod streams;
pub mod text;
pub mod windows;

pub use client::{HttpCall, ListCall, PulseClient, PulseClientBuilder};
pub use duplex::{derive_ws_url, DuplexChannel, DuplexOutput};
pub use duration::Duration;
pub use error::PulseError;
pub use events::{EventsResource, EventsStream};
pub use fields::FieldMap;
pub use iq::{iq_and, iq_leaf, iq_not, iq_or, IQQueryOptions, IQResource, IQScanOptions};
pub use options::{
    BranchSpec, BroadcastJoinOptions, CdcJoinOptions, CepOptions, EnrichAsyncOptions,
    ExtractOptions, MapLlmOptions, MapOptions, McpCallOptions, MlPredictOptions, WindowOptions,
};
pub use resources::{
    AgentsResource, AuthResource, ConnectorsResource, ModelUpload, ModelsResource,
    PipelinesResource, TemplatesResource, UsersResource,
};
pub use retry::{Method, RetryPolicy};
pub use serde_json::Value;
pub use streams::{StreamBuilder, StreamsResource};
pub use windows::WindowSpec;

verus! {

/// Version of the client.
pub const VERSION: &'static str = "2.6.0";

} // verus!
