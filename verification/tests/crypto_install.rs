use app_boot::crypto::{CryptoProviderSlot, InstallError};

#[test]
fn install_succeeds_once_then_fails() {
    let mut slot = CryptoProviderSlot::new();
    assert_eq!(slot.install_default(), Ok(()));
    assert_eq!(slot.install_default(), Err(InstallError::AlreadyInstalled));

    // A second guard in the same process loses to the first installation.
    let mut late = CryptoProviderSlot::new();
    assert_eq!(late.install_default(), Err(InstallError::AlreadyInstalled));
}

#[test]
fn resolve_reports_a_failed_registration() {
    let mut slot = CryptoProviderSlot::new();
    assert_eq!(
        slot.resolve_install(false),
        Err(InstallError::AlreadyInstalled)
    );
    // The slot stays free, so a successful registration can still be recorded.
    assert_eq!(slot.resolve_install(true), Ok(()));
    assert_eq!(slot.resolve_install(true), Err(InstallError::AlreadyInstalled));
}
