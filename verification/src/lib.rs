//! Answers requests to the agent through an endpoint that speaks the chat completions protocol of
//! OpenAI.
//!
//! The library decides, and others act: [`stream`] says step by step what is to be sent, parsed
//! and emitted. The modules below it make the requests ([`request`], [`endpoint`]), read the
//! replies ([`content`]) and build the events ([`events`]). [`laws`] states what holds of them
//! together. [`request_laws`], [`reply_laws`] and [`stream_laws`] say of the fields of a request, a
//! reply and an event what comes of them, and [`view_laws`] what the models show.

pub mod api;
pub mod content;
pub mod endpoint;
pub mod events;
pub mod ids;
pub mod laws;
pub mod reply_laws;
pub mod request;
pub mod request_laws;
pub mod stream;
pub mod stream_laws;
pub mod text;
pub mod view_laws;
