//! Builds the URL on which a hosting provider opens its form for a new pull or merge request.
//!
//! The library decides; it reads no repository and starts no program. A caller hands it what
//! it found in the repository (the name of HEAD, the URL of a remote, which branches exist) and
//! gets back the branch, the remote, the provider and the finished URL, or a `FatalError` that
//! names the input at fault. Opening the URL is a small state machine that the caller drives.

pub mod builder;
pub mod encode;
pub mod error;
pub mod inspect;
pub mod launch;
pub mod pattern;
pub mod remote;
pub mod request;
pub mod service;
pub mod text;
