//! The credential gateway: point operations on the platform's secure store
//! with the answers of the backend normalised for the callers.
//!
//! A secret that was never stored reads as "no value", and deleting one
//! that is not there succeeds. Everything else the backend refuses comes
//! back as an error of this module.

use keyring_core::Entry;
use vstd::prelude::*;

verus! {

/// The namespace under which the application keeps all its credentials.
pub const SERVICE: &'static str = "com.gy.swarmdrop";

/// An entry of the credential store, as the `keyring_core` crate hands it out.
#[verifier::external_type_specification]
#[verifier::external_body]
pub struct ExEntry(keyring_core::Entry);

/// The error type of the `keyring_core` crate.
#[verifier::external_type_specification]
#[verifier::external_body]
pub struct ExKeyringError(keyring_core::Error);

/// `keyring_core::Entry::new` builds the entry for a service and a user in
/// the process-wide default store. Whether it succeeds depends on the store
/// that is installed, so nothing is claimed of the result.
pub assume_specification[ keyring_core::Entry::new ](service: &str, user: &str) -> (built:
    keyring_core::Result<keyring_core::Entry>)
;

/// `keyring_core::Entry::set_password` stores a secret under the entry. The
/// answer is the backend's; nothing is claimed of it.
pub assume_specification[ keyring_core::Entry::set_password ](
    entry: &keyring_core::Entry,
    password: &str,
) -> (written: keyring_core::Result<()>)
;

/// `keyring_core::Entry::get_password` reads the secret kept under the
/// entry. The answer is the backend's; nothing is claimed of it.
pub assume_specification[ keyring_core::Entry::get_password ](
    entry: &keyring_core::Entry,
) -> (read: keyring_core::Result<String>)
;

/// `keyring_core::Entry::delete_credential` removes the credential the entry
/// names. The answer is the backend's; nothing is claimed of it.
pub assume_specification[ keyring_core::Entry::delete_credential ](
    entry: &keyring_core::Entry,
) -> (deleted: keyring_core::Result<()>)
;

/// The ways in which a credential backend can refuse a call.
#[derive(Clone, Copy, Debug, PartialEq, Eq, Structural)]
pub enum FaultKind {
    /// The platform's storage system failed at run time.
    PlatformFailure,
    /// The storage exists but could not be accessed, for instance because
    /// it is locked.
    NoStorageAccess,
    /// There is no credential for the entry.
    NoEntry,
    /// The stored secret is not a UTF-8 string.
    BadEncoding,
    /// The stored secret is not in the format the store expects.
    BadDataFormat,
    /// The store itself is not in the format expected.
    BadStoreFormat,
    /// An attribute of the entry is longer than the platform allows.
    TooLong,
    /// A parameter of the call was not acceptable.
    Invalid,
    /// More than one credential matches the entry.
    Ambiguous,
    /// No backend has been installed for the process.
    NoDefaultStore,
    /// The store does not support the operation.
    NotSupportedByStore,
    /// A refusal this library has no name for.
    Unrecognized,
}

/// One refusal of the backend: what kind it is, and the backend's own words.
#[derive(Clone, Debug, PartialEq, Eq)]
pub struct BackendFault {
    pub kind: FaultKind,
    pub message: String,
}

/// Why a credential operation failed.
#[derive(Clone, Debug, PartialEq, Eq)]
pub enum KeychainError {
    /// No credential backend is installed for the process.
    StoreUnavailable,
    /// The installed backend refused the call. A missing entry is never
    /// reported this way by a read or a delete.
    BackendError(BackendFault),
}

/// Tells the variants of `keyring_core::Error` apart, one kind for each.
#[verifier::external_body]
fn fault_kind(error: &keyring_core::Error) -> FaultKind {
    match error {
        keyring_core::Error::PlatformFailure(_) => FaultKind::PlatformFailure,
        keyring_core::Error::NoStorageAccess(_) => FaultKind::NoStorageAccess,
        keyring_core::Error::NoEntry => FaultKind::NoEntry,
        keyring_core::Error::BadEncoding(_) => FaultKind::BadEncoding,
        keyring_core::Error::BadDataFormat(_, _) => FaultKind::BadDataFormat,
        keyring_core::Error::BadStoreFormat(_) => FaultKind::BadStoreFormat,
        keyring_core::Error::TooLong(_, _) => FaultKind::TooLong,
        keyring_core::Error::Invalid(_, _) => FaultKind::Invalid,
        keyring_core::Error::Ambiguous(_) => FaultKind::Ambiguous,
        keyring_core::Error::NoDefaultStore => FaultKind::NoDefaultStore,
        keyring_core::Error::NotSupportedByStore(_) => FaultKind::NotSupportedByStore,
        _ => FaultKind::Unrecognized,
    }
}

/// The text that `keyring_core::Error` displays itself as.
#[verifier::external_body]
fn fault_message(error: &keyring_core::Error) -> String {
    error.to_string()
}

/// Records a refusal of the backend in the library's own terms.
fn fault_of(error: keyring_core::Error) -> BackendFault {
    BackendFault { kind: fault_kind(&error), message: fault_message(&error) }
}

/// The error a refusal is reported as: a process without a backend is
/// "store unavailable", any other refusal is the backend's error.
pub open spec fn error_for(fault: BackendFault) -> KeychainError {
    if fault.kind == FaultKind::NoDefaultStore {
        KeychainError::StoreUnavailable
    } else {
        KeychainError::BackendError(fault)
    }
}

/// What a write returns for the backend's answer.
pub open spec fn write_result(answer: Result<(), BackendFault>) -> Result<(), KeychainError> {
    match answer {
        Ok(_) => Ok(()),
        Err(fault) => Err(error_for(fault)),
    }
}

/// What a read returns for the backend's answer: a missing entry is a
/// successful read of no value.
pub open spec fn read_result(answer: Result<String, BackendFault>) -> Result<
    Option<String>,
    KeychainError,
> {
    match answer {
        Ok(value) => Ok(Some(value)),
        Err(fault) => if fault.kind == FaultKind::NoEntry {
            Ok(None)
        } else {
            Err(error_for(fault))
        },
    }
}

/// What a delete returns for the backend's answer: a missing entry is a
/// successful delete.
pub open spec fn delete_result(answer: Result<(), BackendFault>) -> Result<(), KeychainError> {
    match answer {
        Ok(_) => Ok(()),
        Err(fault) => if fault.kind == FaultKind::NoEntry {
            Ok(())
        } else {
            Err(error_for(fault))
        },
    }
}

impl KeychainError {
    /// Whether the error is one the gateway hands out: a backend error never
    /// stands for the absence of a backend.
    pub open spec fn well_formed(self) -> bool {
        self matches KeychainError::BackendError(fault) ==> fault.kind != FaultKind::NoDefaultStore
    }

    /// Whether the error is one a read or a delete hands out after the entry
    /// was built: also never a missing entry.
    pub open spec fn normalized(self) -> bool {
        self matches KeychainError::BackendError(fault) ==> fault.kind != FaultKind::NoDefaultStore
            && fault.kind != FaultKind::NoEntry
    }

    /// Reports a refusal of the backend.
    pub fn from_fault(fault: BackendFault) -> (error: Self)
        ensures
            error == error_for(fault),
            error.well_formed(),
    {
        match fault.kind {
            FaultKind::NoDefaultStore => KeychainError::StoreUnavailable,
            _ => KeychainError::BackendError(fault),
        }
    }
}

/// Normalises the backend's answer to a write.
pub fn write_outcome(answer: Result<(), BackendFault>) -> (outcome: Result<(), KeychainError>)
    ensures
        outcome == write_result(answer),
{
    match answer {
        Ok(_) => Ok(()),
        Err(fault) => Err(KeychainError::from_fault(fault)),
    }
}

/// Normalises the backend's answer to a read.
pub fn read_outcome(answer: Result<String, BackendFault>) -> (outcome: Result<
    Option<String>,
    KeychainError,
>)
    ensures
        outcome == read_result(answer),
{
    match answer {
        Ok(value) => Ok(Some(value)),
        Err(fault) => match fault.kind {
            FaultKind::NoEntry => Ok(None),
            _ => Err(KeychainError::from_fault(fault)),
        },
    }
}

/// Normalises the backend's answer to a delete.
pub fn delete_outcome(answer: Result<(), BackendFault>) -> (outcome: Result<(), KeychainError>)
    ensures
        outcome == delete_result(answer),
{
    match answer {
        Ok(_) => Ok(()),
        Err(fault) => match fault.kind {
            FaultKind::NoEntry => Ok(()),
            _ => Err(KeychainError::from_fault(fault)),
        },
    }
}

/// Stores `value` under `key`, replacing what was there.
///
/// Whether the write succeeds is the backend's decision; a failure to build
/// the entry and a failure to write are both reported as [`write_outcome`]
/// reports a refused write.
pub fn keychain_set(key: String, value: String) -> (outcome: Result<(), KeychainError>)
    ensures
        outcome matches Err(error) ==> error.well_formed(),
{
    match Entry::new(SERVICE, key.as_str()) {
        Err(refusal) => write_outcome(Err(fault_of(refusal))),
        Ok(entry) => match entry.set_password(value.as_str()) {
            Ok(_) => write_outcome(Ok(())),
            Err(refusal) => write_outcome(Err(fault_of(refusal))),
        },
    }
}

/// Reads the secret kept under `key`; `None` if there is none.
///
/// What is read is the backend's decision. A failure to build the entry is
/// reported as an error whatever its kind; the answer to the read itself is
/// normalised by [`read_outcome`].
pub fn keychain_get(key: String) -> (outcome: Result<Option<String>, KeychainError>)
    ensures
        outcome matches Err(error) ==> error.well_formed(),
{
    match Entry::new(SERVICE, key.as_str()) {
        Err(refusal) => Err(KeychainError::from_fault(fault_of(refusal))),
        Ok(entry) => match entry.get_password() {
            Ok(value) => read_outcome(Ok(value)),
            Err(refusal) => read_outcome(Err(fault_of(refusal))),
        },
    }
}

/// Deletes the secret kept under `key`; succeeds also if there is none.
///
/// Whether the delete succeeds is the backend's decision. A failure to build
/// the entry is reported as an error whatever its kind; the answer to the
/// delete itself is normalised by [`delete_outcome`].
pub fn keychain_delete(key: String) -> (outcome: Result<(), KeychainError>)
    ensures
        outcome matches Err(error) ==> error.well_formed(),
{
    match Entry::new(SERVICE, key.as_str()) {
        Err(refusal) => Err(KeychainError::from_fault(fault_of(refusal))),
        Ok(entry) => match entry.delete_credential() {
            Ok(_) => delete_outcome(Ok(())),
            Err(refusal) => delete_outcome(Err(fault_of(refusal))),
        },
    }
}

/// When the backend answers that there is no entry, a read yields no value
/// and a delete succeeds; and no answer at all makes a read or a delete fail
/// with a missing entry or a missing backend as a backend error.
pub proof fn lemma_absence_is_no_error(
    absent: BackendFault,
    read: Result<String, BackendFault>,
    deleted: Result<(), BackendFault>,
)
    requires
        absent.kind == FaultKind::NoEntry,
    ensures
        read_result(Err(absent)) == Ok::<Option<String>, KeychainError>(None),
        delete_result(Err(absent)) == Ok::<(), KeychainError>(()),
        read_result(read) matches Err(error) ==> error.normalized(),
        delete_result(deleted) matches Err(error) ==> error.normalized(),
{
}

/// Whether `answer` is what a store that holds `contents` answers to a read
/// of `key`, if the store works as the backend interface describes it: the
/// secret kept under the key, or the refusal "no entry" if there is none.
pub open spec fn faithful_read(
    contents: Map<Seq<char>, String>,
    key: Seq<char>,
    answer: Result<String, BackendFault>,
) -> bool {
    if contents.contains_key(key) {
        answer == Ok::<String, BackendFault>(contents[key])
    } else {
        answer matches Err(fault) && fault.kind == FaultKind::NoEntry
    }
}

/// Whether `answer` is what such a store answers to a delete of `key`:
/// success if it held a secret under the key, else the refusal "no entry".
/// Afterwards it holds `contents.remove(key)`.
pub open spec fn faithful_delete(
    contents: Map<Seq<char>, String>,
    key: Seq<char>,
    answer: Result<(), BackendFault>,
) -> bool {
    if contents.contains_key(key) {
        answer.is_ok()
    } else {
        answer matches Err(fault) && fault.kind == FaultKind::NoEntry
    }
}

/// Reading a key that was never written yields no value, and deleting it
/// succeeds, when the store answers faithfully.
pub proof fn lemma_unwritten_key_is_absent(
    contents: Map<Seq<char>, String>,
    key: Seq<char>,
    read: Result<String, BackendFault>,
    deleted: Result<(), BackendFault>,
)
    requires
        !contents.contains_key(key),
        faithful_read(contents, key, read),
        faithful_delete(contents, key, deleted),
    ensures
        read_result(read) == Ok::<Option<String>, KeychainError>(None),
        delete_result(deleted) == Ok::<(), KeychainError>(()),
{
}

/// After a write of `first` and then of `second` under the same key, a
/// faithful read yields `second`.
pub proof fn lemma_last_write_is_read(
    contents: Map<Seq<char>, String>,
    key: Seq<char>,
    first: String,
    second: String,
    read: Result<String, BackendFault>,
)
    requires
        faithful_read(contents.insert(key, first).insert(key, second), key, read),
    ensures
        read_result(read) == Ok::<Option<String>, KeychainError>(Some(second)),
{
}

/// After a write under a key and a delete of that key, a faithful read
/// yields no value, and the delete itself succeeded.
pub proof fn lemma_deleted_key_is_absent(
    contents: Map<Seq<char>, String>,
    key: Seq<char>,
    value: String,
    deleted: Result<(), BackendFault>,
    read: Result<String, BackendFault>,
)
    requires
        faithful_delete(contents.insert(key, value), key, deleted),
        faithful_read(contents.insert(key, value).remove(key), key, read),
    ensures
        delete_result(deleted) == Ok::<(), KeychainError>(()),
        read_result(read) == Ok::<Option<String>, KeychainError>(None),
{
}

} // verus!
