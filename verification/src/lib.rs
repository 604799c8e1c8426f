use vstd::prelude::*;

pub mod config;
pub mod encode;
pub mod json;
pub mod orchestrator;
pub mod request;

verus! {

/// The ways one provisioning run can fail, first failure wins.
#[derive(Clone, Copy, Debug, PartialEq, Eq, Structural)]
pub enum Error {
    /// The configuration file could not be read.
    ConfigRead,
    /// The configuration file's content is not a well-formed document.
    ConfigParse,
    /// An HTTP request could not be delivered or got no response.
    Transport,
}

} // verus!
