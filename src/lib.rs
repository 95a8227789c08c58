//! Posting text, a file or piped input to a chat webhook.
//!
//! The library decides everything that one invocation of the tool decides:
//! where the configuration document lives, what it contributes, how it merges
//! with the command line, which kind of submission follows, what request is
//! sent and how the response is judged. Reading files, standard input and the
//! network are left to the caller, which hands plain values back in.
pub mod config;
pub mod paths;
pub mod submit;
