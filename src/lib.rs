use vstd::prelude::*;

pub mod env;
pub mod launcher;
pub mod cgi;
pub mod cgi_laws;
pub mod panel;
pub mod session;
pub mod backend;
pub mod gateway;
pub mod port;

verus! {

/// anyhow::Error, carried opaquely as the failure of a running service.
#[verifier::external_type_specification]
#[verifier::external_body]
pub struct ExAnyhowError(anyhow::Error);

/// A service that runs until it is done or fails.
pub trait Running {
    fn run(self) -> Result<(), anyhow::Error>;
}

} // verus!
