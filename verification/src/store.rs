//! A document in memory together with the location it is kept at.
//!
//! Reading and writing the location is the caller's business: `load` and
//! `save` are handed the two operations and decide what to make of their
//! answers.

use vstd::prelude::*;
use crate::error::{LoadError, SaveError};

verus! {

/// What reading a location gave.
#[derive(Debug, PartialEq, Eq)]
pub enum ReadOutcome<V> {
    /// Nothing is kept there yet.
    Missing,
    /// The document kept there.
    Found(V),
    /// Something is kept there that could not be read or understood.
    Failed(String),
}

/// A value and the location it was loaded from. The value is changed in
/// place; nothing reaches the location before `save`.
#[derive(Debug, PartialEq, Eq)]
pub struct Store<V> {
    pub value: V,
    pub location: String,
}

/// The store, or the failure, that comes of creating `default` at a location
/// where nothing was found, given how writing it there went.
pub open spec fn created<V>(location: String, default: V, persisted: Result<(), String>) -> Result<
    Store<V>,
    LoadError,
> {
    match persisted {
        Ok(_) => Ok(Store { value: default, location }),
        Err(cause) => Err(LoadError { location, cause }),
    }
}

/// The store, or the failure, that comes of what was read at `location`.
/// `persisted` counts only where nothing was found and `default` had to be
/// written.
pub open spec fn opened<V>(
    location: String,
    default: V,
    outcome: ReadOutcome<V>,
    persisted: Result<(), String>,
) -> Result<Store<V>, LoadError> {
    match outcome {
        ReadOutcome::Found(value) => Ok(Store { value, location }),
        ReadOutcome::Failed(cause) => Err(LoadError { location, cause }),
        ReadOutcome::Missing => created(location, default, persisted),
    }
}

/// What a save reports, given how the write went.
pub open spec fn saved(location: String, persisted: Result<(), String>) -> Result<(), SaveError> {
    match persisted {
        Ok(_) => Ok(()),
        Err(cause) => Err(SaveError { location, cause }),
    }
}

/// `result` is what `load` makes of an answer of `read` at `location` and,
/// where that answer is `Missing`, of an answer of `write` for `default`.
pub open spec fn load_gives<V, R, W>(
    read: &R,
    write: &W,
    location: String,
    default: V,
    result: Result<Store<V>, LoadError>,
) -> bool where R: Fn(&String) -> ReadOutcome<V>, W: Fn(&String, &V) -> Result<(), String> {
    exists|outcome: ReadOutcome<V>, persisted: Result<(), String>|
        {
            &&& #[trigger] call_ensures(read, (&location,), outcome)
            &&& outcome is Missing ==> call_ensures(write, (&location, &default), persisted)
            &&& result == #[trigger] opened(location, default, outcome, persisted)
        }
}

/// `result` is what `save` makes of an answer of `write` for `store`.
pub open spec fn save_gives<V, W>(write: &W, store: Store<V>, result: Result<(), SaveError>) -> bool
    where W: Fn(&String, &V) -> Result<(), String> {
    exists|persisted: Result<(), String>|
        {
            &&& #[trigger] call_ensures(write, (&store.location, &store.value), persisted)
            &&& result == saved(store.location, persisted)
        }
}

impl<V> Store<V> {
    /// Loads the document kept at `location`. Where nothing is kept there
    /// yet, `default` is written there and becomes the document. Where
    /// something is kept there that cannot be read, or `default` cannot be
    /// written, the load fails and says why; no default stands in for a
    /// document that exists. `write` is asked only where `read` found
    /// nothing.
    pub fn load<R, W>(location: String, default: V, read: &R, write: &W) -> (result: Result<
        Store<V>,
        LoadError,
    >) where R: Fn(&String) -> ReadOutcome<V>, W: Fn(&String, &V) -> Result<(), String>
        requires
            call_requires(read, (&location,)),
            forall|outcome: ReadOutcome<V>| #[trigger]
                call_ensures(read, (&location,), outcome) && outcome is Missing ==> call_requires(
                    write,
                    (&location, &default),
                ),
        ensures
            load_gives(read, write, location, default, result),
    {
        let outcome = read(&location);
        let persisted = match &outcome {
            ReadOutcome::Missing => write(&location, &default),
            _ => Ok(()),
        };
        Store::from_outcome(location, default, outcome, persisted)
    }

    /// What a load from `location` comes to, given what reading it gave
    /// and, where nothing was found, how writing `default` there went.
    pub fn from_outcome(
        location: String,
        default: V,
        outcome: ReadOutcome<V>,
        persisted: Result<(), String>,
    ) -> (result: Result<Store<V>, LoadError>)
        ensures
            result == opened(location, default, outcome, persisted),
    {
        match outcome {
            ReadOutcome::Found(value) => Ok(Store { value, location }),
            ReadOutcome::Failed(cause) => Err(LoadError { location, cause }),
            ReadOutcome::Missing => match persisted {
                Ok(_) => Ok(Store { value: default, location }),
                Err(cause) => Err(LoadError { location, cause }),
            },
        }
    }

    /// Writes the value as it is now to the location it was loaded from.
    /// A failed write is reported; the value in memory stays as it is.
    pub fn save<W>(&self, write: &W) -> (result: Result<(), SaveError>) where
        W: Fn(&String, &V) -> Result<(), String>,

        requires
            call_requires(write, (&self.location, &self.value)),
        ensures
            save_gives(write, *self, result),
    {
        match write(&self.location, &self.value) {
            Ok(_) => Ok(()),
            Err(cause) => Err(SaveError { location: self.location.clone(), cause }),
        }
    }
}

/// Loading from a location where nothing is kept, and saving at once,
/// hands the default to `write`, at that location: what then stands
/// there is the default. `read` finds nothing at `location`; `loaded` is
/// the store that the load gave and `reported` what the save after it
/// reported.
pub proof fn lemma_load_missing_then_save<V, R, W>(
    read: &R,
    write: &W,
    location: String,
    default: V,
    loaded: Store<V>,
    reported: Result<(), SaveError>,
) where R: Fn(&String) -> ReadOutcome<V>, W: Fn(&String, &V) -> Result<(), String>
    requires
        forall|outcome: ReadOutcome<V>| #[trigger]
            call_ensures(read, (&location,), outcome) ==> outcome is Missing,
        load_gives(read, write, location, default, Ok(loaded)),
        save_gives(write, loaded, reported),
    ensures
        loaded == (Store { value: default, location }),
        exists|persisted: Result<(), String>|
            {
                &&& #[trigger] call_ensures(write, (&location, &default), persisted)
                &&& reported == saved(location, persisted)
            },
{
}

/// Loading what a save has written gives the saved store back. `store` was
/// saved, and `read` now finds its value at its location; then a load from
/// that location gives a store equal to `store`, whatever the default.
pub proof fn lemma_save_then_load<V, R, W>(
    read: &R,
    write: &W,
    store: Store<V>,
    default: V,
    loaded: Result<Store<V>, LoadError>,
) where R: Fn(&String) -> ReadOutcome<V>, W: Fn(&String, &V) -> Result<(), String>
    requires
        forall|outcome: ReadOutcome<V>| #[trigger]
            call_ensures(read, (&store.location,), outcome) ==> outcome == ReadOutcome::Found(
                store.value,
            ),
        load_gives(read, write, store.location, default, loaded),
    ensures
        loaded == Ok::<Store<V>, LoadError>(store),
{
}

} // verus!
