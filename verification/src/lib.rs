//! `coto` turns a natural-language request into a boto3 snippet by asking a
//! hosted language model for a reply of one fixed JSON shape.
//!
//! The crate holds the decisions of that pipeline: how settings, overrides and
//! the environment merge into request parameters, how the request payload is
//! put together, and how a reply is validated and the snippet taken out of it.
//! Reading files, talking to the network and prompting on a terminal are left
//! to the caller, which hands plain values in and takes plain values back.

pub mod client;
pub mod commands;
pub mod config;
pub mod extract;
pub mod json;
pub mod payload;
pub mod resolve;
pub mod text;
