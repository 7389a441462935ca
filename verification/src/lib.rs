//! Argument resolution for chat commands.
//!
//! A command declares the types of its arguments. This crate turns either the
//! free text that follows a command name, or the options of a structured
//! invocation, into values of those types. Every argument type implements
//! [`arguments::ParseArgument`] for both inputs.
//!
//! Parsing never waits for the network. A parser that needs a fact from
//! outside, such as the avatar of a mentioned user, looks it up among the
//! answers held by its context and, where it is missing, fails with
//! [`error::TagParseError::LookupRequired`]. The caller performs the lookup,
//! hands the answer to the context, goes back to where the parse began and
//! parses again. Parsers depend on nothing but their context, so the second
//! run takes the same path up to the answered question.
//!
//! Every function is verified with Verus against a specification over
//! sequences of characters. The calls into other crates and the parts of the
//! standard library that the verifier has no specification for are few, and
//! each says in its documentation what is taken on trust.

pub mod arguments;
pub mod chain;
pub mod context;
pub mod cursor;
pub mod duration;
pub mod entitlements;
pub mod error;
pub mod flags;
pub mod glyph;
pub mod image;
pub mod lookup;
pub mod message;
pub mod number;
pub mod pattern;
pub mod rate_tracker;
pub mod replay;
pub mod reply;
pub mod resolve;
pub mod sources;
pub mod text;
