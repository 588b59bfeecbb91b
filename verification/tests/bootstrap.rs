use swarmdrop::bootstrap::{failure_message, init_keyring_store, select_backend};
use swarmdrop::{Backend, BootstrapAction, Platform, StoreBootstrap};

#[test]
fn every_known_platform_has_its_backend() {
    assert_eq!(select_backend(Platform::MacOs), Some(Backend::AppleNative));
    assert_eq!(select_backend(Platform::Ios), Some(Backend::AppleNative));
    assert_eq!(select_backend(Platform::Windows), Some(Backend::WindowsNative));
    assert_eq!(select_backend(Platform::Linux), Some(Backend::SecretService));
    assert_eq!(select_backend(Platform::Android), Some(Backend::AndroidNative));
}

#[test]
fn an_unknown_platform_has_no_backend() {
    assert_eq!(select_backend(Platform::Other), None);
}

#[test]
fn each_backend_has_its_own_failure_message() {
    assert_eq!(failure_message(Backend::AppleNative), "Failed to create keychain store");
    assert_eq!(failure_message(Backend::WindowsNative), "Failed to create credential store");
    assert_eq!(failure_message(Backend::SecretService), "Failed to create secret service store");
    assert_eq!(failure_message(Backend::AndroidNative), "Failed to create android keystore");
}

#[test]
fn a_new_bootstrap_has_not_run() {
    let bootstrap = StoreBootstrap::new();
    assert!(!bootstrap.is_initialized());
    assert_eq!(bootstrap.backend(), None);
}

#[test]
fn the_first_caller_installs_and_the_second_proceeds() {
    let mut bootstrap = StoreBootstrap::new();
    assert_eq!(
        bootstrap.ensure_initialized(Platform::Linux),
        BootstrapAction::Install(Backend::SecretService)
    );
    assert!(bootstrap.is_initialized());
    assert_eq!(bootstrap.backend(), Some(Backend::SecretService));
    assert_eq!(bootstrap.ensure_initialized(Platform::Linux), BootstrapAction::Proceed);
    assert!(bootstrap.is_initialized());
    assert_eq!(bootstrap.backend(), Some(Backend::SecretService));
}

#[test]
fn the_backend_is_never_reinstalled() {
    let mut bootstrap = StoreBootstrap::new();
    assert_eq!(
        bootstrap.ensure_initialized(Platform::MacOs),
        BootstrapAction::Install(Backend::AppleNative)
    );
    assert_eq!(bootstrap.ensure_initialized(Platform::Windows), BootstrapAction::Proceed);
    assert_eq!(bootstrap.backend(), Some(Backend::AppleNative));
}

#[test]
fn an_unknown_platform_installs_nothing_but_runs_once() {
    let mut bootstrap = StoreBootstrap::new();
    assert_eq!(bootstrap.ensure_initialized(Platform::Other), BootstrapAction::Proceed);
    assert!(bootstrap.is_initialized());
    assert_eq!(bootstrap.backend(), None);
    assert_eq!(bootstrap.ensure_initialized(Platform::Other), BootstrapAction::Proceed);
    assert_eq!(bootstrap.backend(), None);
}

#[test]
fn many_callers_install_exactly_one_backend() {
    let guard = std::sync::Mutex::new(StoreBootstrap::new());
    let mut installs = Vec::new();
    for _ in 0..16 {
        let mut bootstrap = guard.lock().unwrap();
        if let BootstrapAction::Install(backend) = bootstrap.ensure_initialized(Platform::Android) {
            installs.push(backend);
        }
        assert!(bootstrap.is_initialized());
        assert_eq!(bootstrap.backend(), Some(Backend::AndroidNative));
    }
    assert_eq!(installs, vec![Backend::AndroidNative]);
}

#[test]
fn concurrent_callers_install_exactly_one_backend() {
    let runtime = tokio::runtime::Builder::new_multi_thread().worker_threads(4).build().unwrap();
    let guard = std::sync::Arc::new(std::sync::Mutex::new(StoreBootstrap::new()));
    let installs = std::sync::Arc::new(std::sync::Mutex::new(Vec::new()));
    let mut callers = Vec::new();
    for _ in 0..32 {
        let guard = guard.clone();
        let installs = installs.clone();
        callers.push(runtime.spawn(async move {
            let mut bootstrap = guard.lock().unwrap();
            if let BootstrapAction::Install(backend) = bootstrap.ensure_initialized(Platform::Windows) {
                installs.lock().unwrap().push(backend);
            }
            (bootstrap.is_initialized(), bootstrap.backend())
        }));
    }
    for caller in callers {
        assert_eq!(runtime.block_on(caller).unwrap(), (true, Some(Backend::WindowsNative)));
    }
    assert_eq!(*installs.lock().unwrap(), vec![Backend::WindowsNative]);
}

#[test]
fn the_store_is_installed_by_the_first_call_only() {
    let installed = std::cell::RefCell::new(Vec::new());
    let mut bootstrap = StoreBootstrap::new();
    assert!(init_keyring_store(&mut bootstrap, Platform::Linux, |backend| installed
        .borrow_mut()
        .push(backend)));
    assert_eq!(*installed.borrow(), vec![Backend::SecretService]);
    assert!(bootstrap.is_initialized());
    assert_eq!(bootstrap.backend(), Some(Backend::SecretService));
    for _ in 0..5 {
        assert!(!init_keyring_store(&mut bootstrap, Platform::Linux, |backend| installed
            .borrow_mut()
            .push(backend)));
    }
    assert_eq!(*installed.borrow(), vec![Backend::SecretService]);
    assert_eq!(bootstrap.backend(), Some(Backend::SecretService));
}

#[test]
fn nothing_is_installed_on_a_platform_without_a_backend() {
    let installed = std::cell::RefCell::new(Vec::new());
    let mut bootstrap = StoreBootstrap::new();
    assert!(!init_keyring_store(&mut bootstrap, Platform::Other, |backend| installed
        .borrow_mut()
        .push(backend)));
    assert!(installed.borrow().is_empty());
    assert!(bootstrap.is_initialized());
    assert_eq!(bootstrap.backend(), None);
}

#[test]
fn the_installed_store_serves_the_credential_operations() {
    let mut bootstrap = StoreBootstrap::new();
    let install = |_backend: Backend| {
        keyring_core::set_default_store(keyring_core::mock::Store::new().unwrap());
    };
    assert!(init_keyring_store(&mut bootstrap, Platform::MacOs, install));
    assert_eq!(swarmdrop::keychain_set("k".to_string(), "v".to_string()), Ok(()));
    assert!(!init_keyring_store(&mut bootstrap, Platform::MacOs, install));
    assert_eq!(swarmdrop::keychain_get("k".to_string()), Ok(Some("v".to_string())));
}
