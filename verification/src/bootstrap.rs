//! One-time selection and installation of the platform's credential backend.
//!
//! The bootstrap decides; the host performs. Every caller that is about to
//! touch the credential store first goes through [`init_keyring_store`]
//! while holding the guard that owns the [`StoreBootstrap`]. For the first
//! caller the backend of the platform is installed, for every later caller
//! nothing happens, and because the guard is held until the installation is
//! done, no caller goes on before a backend is in place.

use vstd::prelude::*;

verus! {

/// The host platforms the application knows about.
#[derive(Clone, Copy, Debug, PartialEq, Eq, Structural)]
pub enum Platform {
    MacOs,
    Ios,
    Windows,
    Linux,
    Android,
    /// Any other host: no credential backend exists for it.
    Other,
}

/// The credential backends a process can install.
#[derive(Clone, Copy, Debug, PartialEq, Eq, Structural)]
pub enum Backend {
    /// The native keychain of macOS and iOS.
    AppleNative,
    /// The Windows credential manager.
    WindowsNative,
    /// The secret service reached over D-Bus on Linux desktops.
    SecretService,
    /// The Android keystore.
    AndroidNative,
}

/// What the caller of the bootstrap has to do before it uses the store.
#[derive(Clone, Copy, Debug, PartialEq, Eq, Structural)]
pub enum BootstrapAction {
    /// Construct this backend and install it as the process-wide store.
    /// Failing to do so is fatal to the process.
    Install(Backend),
    /// Nothing to do: the bootstrap already ran.
    Proceed,
}

/// The backend that belongs to a platform, if the platform has one.
pub open spec fn backend_for(platform: Platform) -> Option<Backend> {
    match platform {
        Platform::MacOs => Some(Backend::AppleNative),
        Platform::Ios => Some(Backend::AppleNative),
        Platform::Windows => Some(Backend::WindowsNative),
        Platform::Linux => Some(Backend::SecretService),
        Platform::Android => Some(Backend::AndroidNative),
        Platform::Other => None,
    }
}

/// What the first caller on `platform` is told to do.
pub open spec fn first_action(platform: Platform) -> BootstrapAction {
    match backend_for(platform) {
        Some(backend) => BootstrapAction::Install(backend),
        None => BootstrapAction::Proceed,
    }
}

/// The words the process dies with when `backend` cannot be constructed.
pub open spec fn failure_text(backend: Backend) -> Seq<char> {
    match backend {
        Backend::AppleNative => "Failed to create keychain store"@,
        Backend::WindowsNative => "Failed to create credential store"@,
        Backend::SecretService => "Failed to create secret service store"@,
        Backend::AndroidNative => "Failed to create android keystore"@,
    }
}

/// Selects the backend for the host platform.
pub fn select_backend(platform: Platform) -> (backend: Option<Backend>)
    ensures
        backend == backend_for(platform),
{
    match platform {
        Platform::MacOs | Platform::Ios => Some(Backend::AppleNative),
        Platform::Windows => Some(Backend::WindowsNative),
        Platform::Linux => Some(Backend::SecretService),
        Platform::Android => Some(Backend::AndroidNative),
        Platform::Other => None,
    }
}

/// The message for the fatal failure to construct `backend`.
pub fn failure_message(backend: Backend) -> (message: &'static str)
    ensures
        message@ == failure_text(backend),
{
    match backend {
        Backend::AppleNative => "Failed to create keychain store",
        Backend::WindowsNative => "Failed to create credential store",
        Backend::SecretService => "Failed to create secret service store",
        Backend::AndroidNative => "Failed to create android keystore",
    }
}

/// The once-only gate in front of the credential store.
#[derive(Debug, PartialEq, Eq, Structural)]
pub struct StoreBootstrap {
    /// `None` until the bootstrap ran; afterwards what it selected.
    selected: Option<Option<Backend>>,
}

impl StoreBootstrap {
    /// Whether the bootstrap already ran.
    pub closed spec fn initialized(self) -> bool {
        self.selected is Some
    }

    /// The backend the bootstrap chose, once it ran on a platform that has one.
    pub closed spec fn installed(self) -> Option<Backend> {
        match self.selected {
            Some(choice) => choice,
            None => None,
        }
    }

    /// The state and the action that one call on `platform` leads to.
    pub closed spec fn step(self, platform: Platform) -> (Self, BootstrapAction) {
        if self.selected is Some {
            (self, BootstrapAction::Proceed)
        } else {
            (StoreBootstrap { selected: Some(backend_for(platform)) }, first_action(platform))
        }
    }

    /// The state after `calls` callers in a row asked on `platform`.
    pub open spec fn after_calls(self, platform: Platform, calls: nat) -> Self
        decreases calls,
    {
        if calls == 0 {
            self
        } else {
            self.step(platform).0.after_calls(platform, (calls - 1) as nat)
        }
    }

    /// How many of `calls` callers in a row were told to install a backend.
    pub open spec fn installs(self, platform: Platform, calls: nat) -> nat
        decreases calls,
    {
        if calls == 0 {
            0
        } else {
            let (next, action) = self.step(platform);
            let here: nat = if action is Install { 1 } else { 0 };
            here + next.installs(platform, (calls - 1) as nat)
        }
    }

    /// The bootstrap before any caller asked.
    pub closed spec fn fresh() -> Self {
        StoreBootstrap { selected: None }
    }

    /// A bootstrap that has not run.
    pub fn new() -> (bootstrap: Self)
        ensures
            bootstrap == Self::fresh(),
            !bootstrap.initialized(),
            bootstrap.installed().is_none(),
    {
        StoreBootstrap { selected: None }
    }

    /// Whether the bootstrap already ran.
    pub fn is_initialized(&self) -> (done: bool)
        ensures
            done == self.initialized(),
    {
        self.selected.is_some()
    }

    /// The backend the bootstrap chose, if it ran on a platform that has one.
    pub fn backend(&self) -> (backend: Option<Backend>)
        ensures
            backend == self.installed(),
    {
        match self.selected {
            Some(choice) => choice,
            None => None,
        }
    }

    /// Runs the bootstrap if it has not run yet.
    ///
    /// The first call selects the backend of `platform` and tells the caller
    /// to install it; every later call changes nothing and tells the caller
    /// to proceed.
    pub fn ensure_initialized(&mut self, platform: Platform) -> (action: BootstrapAction)
        ensures
            (*final(self), action) == old(self).step(platform),
            final(self).initialized(),
            old(self).initialized() ==> *final(self) == *old(self) && action
                == BootstrapAction::Proceed,
            !old(self).initialized() ==> final(self).installed() == backend_for(platform)
                && action == first_action(platform),
    {
        if self.selected.is_some() {
            BootstrapAction::Proceed
        } else {
            let choice = select_backend(platform);
            self.selected = Some(choice);
            match choice {
                Some(backend) => BootstrapAction::Install(backend),
                None => BootstrapAction::Proceed,
            }
        }
    }
}

/// Makes sure the credential store of the process is in place: on the first
/// call the backend of `platform` is selected and `install` is run on it, on
/// every later call nothing happens. Says whether `install` was run.
///
/// `install` constructs the backend and installs it process-wide. It does
/// not come back if it cannot: a process without its credential store must
/// not go on.
pub fn init_keyring_store<F: FnOnce(Backend)>(
    bootstrap: &mut StoreBootstrap,
    platform: Platform,
    install: F,
) -> (installed_now: bool)
    requires
        !old(bootstrap).initialized() ==> forall|backend: Backend|
            backend_for(platform) == Some(backend) ==> call_requires(install, (backend,)),
    ensures
        *final(bootstrap) == old(bootstrap).step(platform).0,
        final(bootstrap).initialized(),
        old(bootstrap).initialized() ==> *final(bootstrap) == *old(bootstrap),
        !old(bootstrap).initialized() ==> final(bootstrap).installed() == backend_for(platform),
        installed_now == (!old(bootstrap).initialized() && backend_for(platform).is_some()),
        installed_now ==> forall|backend: Backend|
            backend_for(platform) == Some(backend) ==> call_ensures(install, (backend,), ()),
{
    match bootstrap.ensure_initialized(platform) {
        BootstrapAction::Install(backend) => {
            install(backend);
            true
        },
        BootstrapAction::Proceed => false,
    }
}

/// Once the bootstrap ran, further callers change nothing and install nothing.
pub proof fn lemma_settled_bootstrap_stays(bootstrap: StoreBootstrap, platform: Platform, calls: nat)
    requires
        bootstrap.initialized(),
    ensures
        bootstrap.after_calls(platform, calls) == bootstrap,
        bootstrap.installs(platform, calls) == 0,
    decreases calls,
{
    if calls > 0 {
        lemma_settled_bootstrap_stays(bootstrap, platform, (calls - 1) as nat);
    }
}

/// However many callers ask, one after the other as the guard admits them,
/// the backend of the platform is installed exactly once, by the first of
/// them, and every caller leaves with the bootstrap done and that same
/// backend selected. On a platform without a backend nothing is installed,
/// and the bootstrap is done all the same.
pub proof fn lemma_bootstrap_runs_once(platform: Platform, calls: nat, seen: nat)
    requires
        1 <= seen <= calls,
    ensures
        !StoreBootstrap::fresh().initialized(),
        StoreBootstrap::fresh().after_calls(platform, seen).initialized(),
        StoreBootstrap::fresh().after_calls(platform, seen).installed() == backend_for(platform),
        StoreBootstrap::fresh().step(platform).1 == first_action(platform),
        backend_for(platform).is_some() ==> StoreBootstrap::fresh().installs(platform, calls) == 1,
        backend_for(platform).is_none() ==> StoreBootstrap::fresh().installs(platform, calls) == 0,
{
    let settled = StoreBootstrap::fresh().step(platform).0;
    lemma_settled_bootstrap_stays(settled, platform, (seen - 1) as nat);
    lemma_settled_bootstrap_stays(settled, platform, (calls - 1) as nat);
}

} // verus!
