//! Credential verification against a flat-file store, for PAM modules.
//!
//! One attempt is one pass through a small state machine ([`engine`]): the
//! options are parsed ([`options`]), the records of the store file are taken
//! as a store ([`store`]), the user is looked up, and the submitted secret is
//! verified against the stored password ([`password`]), which is kept either
//! verbatim or as a self-describing hash ([`hash`]). The library reads no file
//! and calls no host: it is handed what came of both as plain values
//! ([`module`]) and decides ([`kv`]). Two smaller modules decide for their
//! hooks in the same way ([`http`], [`sober`]).

pub mod constants;
pub mod engine;
pub mod hash;
pub mod http;
pub mod items;
pub mod kv;
pub mod module;
pub mod options;
pub mod password;
pub mod sober;
pub mod store;
pub mod text;
