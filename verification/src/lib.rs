//! Coordination core of a live video compositing server.
//!
//! The crate holds the bookkeeping that sits between the transports, the
//! codecs and the renderer: the registries of inputs and outputs, the frame
//! queue that aligns input frames onto render ticks, the render driver's
//! backpressure rule and the request dispatcher. Everything that touches a
//! socket, a codec, the GPU or a thread is left to the embedding program,
//! which reports what happened as plain values.
//!
//! - [`queue`] aligns the frames of the inputs onto ticks.
//! - [`pipeline`] keeps the registries and the queue consistent.
//! - [`api`] dispatches requests and allocates ports.
//! - [`http`] decides how a handled request is answered.
//! - [`config`] reads the configuration from the environment's values.
//! - [`error`] holds the errors and what the client is told of them.
//! - [`types`] and [`text`] hold identifiers, requests and text helpers.
//!
//! Each stateful type has a mathematical model as its view, and each
//! operation is proved to do to the view what the model's function of the
//! same name says. What holds across operations is proved in the `laws`
//! modules.

pub mod api;
pub mod config;
pub mod error;
pub mod http;
pub mod pipeline;
pub mod queue;
pub mod text;
pub mod types;
