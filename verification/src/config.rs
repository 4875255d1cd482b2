//! Assembly of the record store's connection parameters.
//!
//! The store client needs five parameters, each read from the process
//! environment by the surrounding program. The decision of whether a complete
//! configuration exists — and, if not, which parameter is missing — lives
//! here: the parameters are checked in a fixed order and the first absent one
//! is reported.

use vstd::prelude::*;

verus! {

/// One required connection parameter of the record store, in the fixed order
/// in which absence is reported.
#[derive(Clone, Copy, Debug, PartialEq, Eq, Structural)]
pub enum ConfigField {
    Address,
    Username,
    Password,
    Namespace,
    Database,
}

/// A complete set of connection parameters for the record store.
#[derive(Clone, Debug)]
pub struct StoreConfig {
    pub address: String,
    pub username: String,
    pub password: String,
    pub namespace: String,
    pub database: String,
}

/// Assembles a configuration from the five optionally-present parameters.
/// Returns the complete configuration exactly when all five are present;
/// otherwise reports the first missing one, in the fixed order address,
/// username, password, namespace, database.
pub fn assemble_config(
    address: Option<String>,
    username: Option<String>,
    password: Option<String>,
    namespace: Option<String>,
    database: Option<String>,
) -> (r: Result<StoreConfig, ConfigField>)
    ensures
        address is None ==> r == Err::<StoreConfig, ConfigField>(ConfigField::Address),
        address is Some && username is None ==> r == Err::<StoreConfig, ConfigField>(
            ConfigField::Username,
        ),
        address is Some && username is Some && password is None ==> r == Err::<
            StoreConfig,
            ConfigField,
        >(ConfigField::Password),
        address is Some && username is Some && password is Some && namespace is None ==> r
            == Err::<StoreConfig, ConfigField>(ConfigField::Namespace),
        address is Some && username is Some && password is Some && namespace is Some
            && database is None ==> r == Err::<StoreConfig, ConfigField>(ConfigField::Database),
        address is Some && username is Some && password is Some && namespace is Some
            && database is Some ==> (r matches Ok(c) && c.address == address->Some_0
            && c.username == username->Some_0 && c.password == password->Some_0
            && c.namespace == namespace->Some_0 && c.database == database->Some_0),
{
    let address = match address {
        Some(a) => a,
        None => {
            return Err(ConfigField::Address);
        },
    };
    let username = match username {
        Some(u) => u,
        None => {
            return Err(ConfigField::Username);
        },
    };
    let password = match password {
        Some(p) => p,
        None => {
            return Err(ConfigField::Password);
        },
    };
    let namespace = match namespace {
        Some(n) => n,
        None => {
            return Err(ConfigField::Namespace);
        },
    };
    let database = match database {
        Some(d) => d,
        None => {
            return Err(ConfigField::Database);
        },
    };
    Ok(StoreConfig { address, username, password, namespace, database })
}

} // verus!
