//! Installation of the process-wide `rustls` crypto provider (the `ring`
//! backend).

use vstd::prelude::*;
use rustls::crypto::CryptoProvider;

verus! {

/// Errors raised when installing the `rustls` crypto provider.
#[derive(Clone, Copy, Debug, PartialEq, Eq, Structural)]
pub enum CryptoProviderError {
    /// A `rustls` crypto provider is already installed in this process.
    AlreadyInstalled,
}

impl CryptoProviderError {
    /// The human-readable description of the error.
    pub fn message(&self) -> (s: &'static str)
        ensures
            s@ == "a rustls crypto provider is already installed in this process"@,
    {
        match self {
            CryptoProviderError::AlreadyInstalled => "a rustls crypto provider is already installed in this process",
        }
    }
}

/// `rustls::crypto::CryptoProvider`, carried through opaquely.
#[verifier::external_type_specification]
#[verifier::external_body]
pub struct ExCryptoProvider(CryptoProvider);

/// Wraps `rustls::crypto::ring::default_provider`, which builds the `ring`
/// provider with its default cipher suites; nothing about the value is
/// claimed.
#[verifier::external_body]
fn ring_default_provider() -> (p: CryptoProvider) {
    rustls::crypto::ring::default_provider()
}

/// Wraps `CryptoProvider::install_default`: `true` when the provider became
/// the process default. The outcome depends on whether any code in the
/// process installed a provider before, so nothing is claimed of it.
#[verifier::external_body]
fn install_as_default(provider: CryptoProvider) -> (accepted: bool) {
    match provider.install_default() {
        Ok(()) => true,
        Err(_) => false,
    }
}

/// The outcome of an installation attempt: `Ok` when the provider was
/// accepted, `AlreadyInstalled` when the slot was already taken.
pub fn provider_outcome(accepted: bool) -> (r: Result<(), CryptoProviderError>)
    ensures
        accepted ==> r is Ok,
        !accepted ==> r == Err::<(), CryptoProviderError>(CryptoProviderError::AlreadyInstalled),
{
    if accepted {
        Ok(())
    } else {
        Err(CryptoProviderError::AlreadyInstalled)
    }
}

/// Installs the `ring` crypto provider as the process default. A second
/// installation in the same process returns `AlreadyInstalled` rather than
/// panicking.
pub fn install_default_crypto_provider() -> (r: Result<(), CryptoProviderError>)
    ensures
        r is Ok || r == Err::<(), CryptoProviderError>(CryptoProviderError::AlreadyInstalled),
{
    let provider = ring_default_provider();
    let accepted = install_as_default(provider);
    provider_outcome(accepted)
}

} // verus!
