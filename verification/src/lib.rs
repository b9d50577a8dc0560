//! The decisions of a small backend service, with their contracts.
//!
//! The heart of the crate is the pipeline in front of a generative-text provider:
//! the conversation model ([`ai_model`]), the requests and responses ([`dto`]) with
//! their field rules ([`validation`]), the service that checks a request before it
//! calls out ([`ai_service`]), the client that turns a conversation into the
//! provider's wire shape and an answer into a reply or an error ([`ai_repository`],
//! [`wire`], [`http_status`]), and the paced re-emission of a finished reply word by
//! word ([`streaming`], [`text`]). Around it stand the error taxonomy ([`error`]), the
//! user service with its store and endpoints ([`model`], [`repository`], [`service`],
//! [`handler`], [`schema`]), and the server's settings ([`config`]).
//!
//! Nothing here performs input or output. Calls to the provider and to the store go
//! through a transport and a trait that the program around the library supplies.

pub mod ai_model;
pub mod ai_repository;
pub mod ai_service;
pub mod config;
pub mod dto;
pub mod error;
pub mod handler;
pub mod http_status;
pub mod model;
pub mod repository;
pub mod schema;
pub mod service;
pub mod streaming;
pub mod text;
pub mod validation;
pub mod wire;
