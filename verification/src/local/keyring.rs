//! Dealing with the system keyring: the username and password live there,
//! not in the database and not in the config file.
//!
//! The keyring decides every outcome here, so the contracts promise only
//! which error is reported; nothing is stated about the values the store
//! releases.

use vstd::prelude::*;

use crate::common::LocalError;

verus! {

#[verifier::external_type_specification]
#[verifier::external_body]
pub struct ExEntry(keyring::Entry);

/// Relies on `keyring::Entry::new`: a handle for the credential stored for
/// this service and user; `None` when the platform store refuses the pair.
#[verifier::external_body]
fn entry_new(service: &str, user: &str) -> (r: Option<keyring::Entry>) {
    keyring::Entry::new(service, user).ok()
}

/// Relies on `keyring::Entry::get_password`: the credential the store holds
/// for the entry; `None` when it holds none or does not release it.
#[verifier::external_body]
fn entry_get_password(entry: &keyring::Entry) -> (r: Option<String>) {
    entry.get_password().ok()
}

/// Relies on `keyring::Entry::set_password`: asks the store to keep the
/// credential for the entry; whether it does is the store's decision.
#[verifier::external_body]
fn entry_set_password(entry: &keyring::Entry, password: &str) -> (r: bool) {
    entry.set_password(password).is_ok()
}

/// Get the password stored for `user`.
///
/// The system keyring decides; every failure — no usable store, no such
/// entry, a denied release — is [`LocalError::KeyringError`].
pub fn get_password(user: &str) -> (r: Result<String, LocalError>)
    ensures
        r matches Err(e) ==> e is KeyringError,
{
    match entry_new("fits", user) {
        Some(entry) => match entry_get_password(&entry) {
            Some(pw) => Ok(pw),
            None => Err(LocalError::KeyringError),
        },
        None => Err(LocalError::KeyringError),
    }
}

/// Get the username, which is also saved in the keyring: it does not make
/// sense to save it in the database or to add a third data location.
///
/// Fails with [`LocalError::KeyringError`] exactly when the keyring does.
pub fn get_username() -> (r: Result<String, LocalError>)
    ensures
        r matches Err(e) ==> e is KeyringError,
{
    match entry_new("fits", "username") {
        Some(entry) => match entry_get_password(&entry) {
            Some(username) => Ok(username),
            None => Err(LocalError::KeyringError),
        },
        None => Err(LocalError::KeyringError),
    }
}

/// Store the username and its password in the keyring, the username under
/// the fixed `username` entry and the password under the username's own
/// entry, as [`get_username`] and [`get_password`] expect them.
///
/// Fails with [`LocalError::KeyringError`] exactly when the keyring refuses
/// any of the four steps; a failure may leave the username stored without
/// its password.
pub fn save_credentials(username: &str, password: &str) -> (r: Result<(), LocalError>)
    ensures
        r matches Err(e) ==> e is KeyringError,
{
    let username_entry = match entry_new("fits", "username") {
        Some(entry) => entry,
        None => {
            return Err(LocalError::KeyringError);
        },
    };
    if !entry_set_password(&username_entry, username) {
        return Err(LocalError::KeyringError);
    }
    let actual_entry = match entry_new("fits", username) {
        Some(entry) => entry,
        None => {
            return Err(LocalError::KeyringError);
        },
    };
    if !entry_set_password(&actual_entry, password) {
        return Err(LocalError::KeyringError);
    }
    Ok(())
}

} // verus!
