//! Installation of the process-wide default cryptographic provider.
//!
//! The process holds at most one default provider for its whole lifetime.
//! `CryptoProviderSlot` is this layer's guard over that slot: it keeps an
//! explicit already-installed sentinel, so the install-once rule is enforced
//! by the API rather than by caller discipline. The actual registration is
//! performed by the TLS backend; its outcome also depends on installs made
//! elsewhere in the process, so the slot records whatever came back.

use vstd::prelude::*;

verus! {

/// Failure of the default-provider installation. Installation fails exactly
/// when the process slot is already occupied, whether by an earlier call on
/// this guard or by an installer elsewhere in the process.
#[derive(Clone, Copy, PartialEq, Eq, Structural, Debug)]
pub enum InstallError {
    AlreadyInstalled,
}

/// Guard over the process-wide default-provider slot.
pub struct CryptoProviderSlot {
    installed: bool,
}

/// The result an install attempt must produce, given the guard state and
/// the outcome of the process-level registration.
pub open spec fn install_result(
    s: CryptoProviderSlot,
    process_ok: bool,
) -> Result<(), InstallError> {
    if !s.is_installed() && process_ok {
        Ok(())
    } else {
        Err(InstallError::AlreadyInstalled)
    }
}

/// Whether the guard records an installed provider after an install attempt.
pub open spec fn install_next(s: CryptoProviderSlot, process_ok: bool) -> bool {
    s.is_installed() || process_ok
}

impl CryptoProviderSlot {
    /// Whether a successful installation has been recorded.
    pub closed spec fn is_installed(self) -> bool {
        self.installed
    }

    /// A fresh guard: nothing recorded as installed yet.
    pub fn new() -> (s: Self)
        ensures
            !s.is_installed(),
    {
        CryptoProviderSlot { installed: false }
    }

    /// Relies on rustls::crypto::CryptoProvider::install_default, applied to
    /// rustls::crypto::aws_lc_rs::default_provider(): it succeeds at most
    /// once in any process execution, so the outcome depends on process
    /// history and nothing is promised of it.
    #[verifier::external_body]
    fn install_process_default() -> (ok: bool) {
        rustls::crypto::aws_lc_rs::default_provider().install_default().is_ok()
    }

    /// Records the outcome of a process-level registration attempt: success
    /// is reported exactly when the guard was free and the registration
    /// succeeded, and every failure is the already-installed error.
    pub fn resolve_install(&mut self, process_ok: bool) -> (r: Result<(), InstallError>)
        ensures
            r == install_result(*old(self), process_ok),
            final(self).is_installed() == install_next(*old(self), process_ok),
    {
        if !self.installed && process_ok {
            self.installed = true;
            Ok(())
        } else {
            if process_ok {
                self.installed = true;
            }
            Err(InstallError::AlreadyInstalled)
        }
    }

    /// Installs the backend as the process default. The first successful
    /// call records the sentinel; a second call on the same guard fails
    /// without touching the process slot again, and a call that loses to an
    /// installer elsewhere in the process fails the same way.
    pub fn install_default(&mut self) -> (r: Result<(), InstallError>)
        ensures
            old(self).is_installed() ==> r == Err::<(), InstallError>(
                InstallError::AlreadyInstalled,
            ) && *final(self) == *old(self),
            r is Ok ==> !old(self).is_installed() && final(self).is_installed(),
            r is Err ==> r == Err::<(), InstallError>(InstallError::AlreadyInstalled),
            final(self).is_installed() == (old(self).is_installed() || r is Ok),
    {
        if self.installed {
            Err(InstallError::AlreadyInstalled)
        } else {
            let ok = Self::install_process_default();
            self.resolve_install(ok)
        }
    }
}

/// Install-once law: on a free guard a successful registration yields `Ok`
/// and occupies the slot, and from then on every attempt fails with the
/// already-installed error, whatever its registration outcome.
pub proof fn lemma_install_once(s: CryptoProviderSlot, first_ok: bool, later_ok: bool)
    requires
        !s.is_installed(),
        first_ok,
    ensures
        install_result(s, first_ok) == Ok::<(), InstallError>(()),
        install_next(s, first_ok),
        forall|t: CryptoProviderSlot|
            t.is_installed() ==> #[trigger] install_result(t, later_ok) == Err::<(
            ), InstallError>(InstallError::AlreadyInstalled),
        forall|t: CryptoProviderSlot|
            t.is_installed() ==> #[trigger] install_next(t, later_ok),
{
}

} // verus!
