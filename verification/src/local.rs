//! All the things that live on the local machine besides the database:
//! the keyring and the config file's contents.

pub mod keyring;

use vstd::prelude::*;

use crate::common::{Config, LocalError};

verus! {

/// What parsing a config file text yields for the `is_student` key: a
/// function of the text alone.
pub uninterp spec fn toml_is_student(raw: Seq<char>) -> Option<bool>;

/// Relies on `toml::from_str`: parses the text as a TOML table and reads
/// its boolean `is_student` key; `None` when the text is not a TOML table
/// or the key is missing or not a boolean.
#[verifier::external_body]
fn parse_is_student(raw: &str) -> (r: Option<bool>)
    ensures
        r == toml_is_student(raw@),
{
    let table: toml::Table = match toml::from_str(raw) {
        Ok(t) => t,
        Err(_) => return None,
    };
    match table.get("is_student") {
        Some(toml::Value::Boolean(b)) => Some(*b),
        _ => None,
    }
}

/// Loads the config from the given config file text.
///
/// Returns the parsed [`Config`] exactly when the text holds a boolean
/// `is_student` key, and [`LocalError::ConfigError`] otherwise.
pub fn load_config(raw: &str) -> (r: Result<Config, LocalError>)
    ensures
        match r {
            Ok(c) => toml_is_student(raw@) == Some(c.is_student),
            Err(e) => e is ConfigError && toml_is_student(raw@) is None,
        },
{
    match parse_is_student(raw) {
        Some(b) => Ok(Config { is_student: b }),
        None => Err(LocalError::ConfigError),
    }
}

} // verus!
