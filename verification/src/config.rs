//! Where the store is found: a connection string, a database and a
//! collection, each with a built-in value that a given one overrides.

use vstd::prelude::*;
use crate::error::StoreFailure;

verus! {

/// The connection string used where none is given.
pub const DEFAULT_CONNECTION_STRING: &'static str = "localhost:4666";

/// The database used where none is given.
pub const DEFAULT_DATABASE_NAME: &'static str = "fabdev";

/// The collection used where none is given.
pub const DEFAULT_COLLECTION_NAME: &'static str = "Weights";

/// The value of a setting: the one that was found, or else `default`.
pub open spec fn setting_of(found: Option<String>, default: Seq<char>) -> Seq<char> {
    match found {
        Some(value) => value@,
        None => default,
    }
}

/// The value of a setting: the one that was found, or else `default`.
pub fn read_setting(found: Option<String>, default: &str) -> (value: String)
    ensures
        value@ == setting_of(found, default@),
{
    match found {
        Some(value) => value,
        None => default.to_owned(),
    }
}

/// Where the store is found.
#[derive(Clone, Debug, PartialEq, Eq)]
pub struct Config {
    pub connection_string: String,
    pub database_name: String,
    pub collection_name: String,
}

impl Config {
    /// Whether a collection can be opened with these settings: the database
    /// and the collection both have a name.
    pub open spec fn spec_names_given(&self) -> bool {
        self.database_name@.len() > 0 && self.collection_name@.len() > 0
    }

    /// The settings in which each given value overrides the built-in one.
    pub fn resolve(
        connection_string: Option<String>,
        database_name: Option<String>,
        collection_name: Option<String>,
    ) -> (config: Config)
        ensures
            config.connection_string@ == setting_of(
                connection_string,
                DEFAULT_CONNECTION_STRING@,
            ),
            config.database_name@ == setting_of(database_name, DEFAULT_DATABASE_NAME@),
            config.collection_name@ == setting_of(collection_name, DEFAULT_COLLECTION_NAME@),
    {
        Config {
            connection_string: read_setting(connection_string, DEFAULT_CONNECTION_STRING),
            database_name: read_setting(database_name, DEFAULT_DATABASE_NAME),
            collection_name: read_setting(collection_name, DEFAULT_COLLECTION_NAME),
        }
    }

    /// Whether a collection can be opened with these settings.
    #[verifier::when_used_as_spec(spec_names_given)]
    pub fn names_given(&self) -> (given: bool)
        ensures
            given == self.spec_names_given(),
    {
        !self.database_name.as_str().is_empty() && !self.collection_name.as_str().is_empty()
    }

    /// Decides before a connection is made whether one can serve: without a
    /// database name or a collection name the store counts as unavailable.
    pub fn check(&self) -> (checked: Result<(), StoreFailure>)
        ensures
            checked.is_ok() == self.spec_names_given(),
            checked matches Err(failure) ==> failure == StoreFailure::Unavailable,
    {
        if self.names_given() {
            Ok(())
        } else {
            Err(StoreFailure::Unavailable)
        }
    }
}

/// With nothing given, the settings are the built-in ones, with which a
/// collection can be opened.
pub proof fn lemma_defaults_usable(config: Config)
    requires
        config.connection_string@ == setting_of(None, DEFAULT_CONNECTION_STRING@),
        config.database_name@ == setting_of(None, DEFAULT_DATABASE_NAME@),
        config.collection_name@ == setting_of(None, DEFAULT_COLLECTION_NAME@),
    ensures
        config.spec_names_given(),
        config.database_name@ == "fabdev"@,
        config.collection_name@ == "Weights"@,
{
    reveal_strlit("fabdev");
    reveal_strlit("Weights");
}

} // verus!
