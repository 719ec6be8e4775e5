//! The location store: the in-memory side of the configured documents
//! directory, and the decisions that keep it consistent with the durable
//! configuration record.
//!
//! The store never touches the filesystem itself. Each operation that has a
//! filesystem side takes the outcome of that work as a plain value and
//! decides the new state and the result from it. The policy is persist
//! first, then commit: the in-memory value changes only after the record
//! update has succeeded, so a persistence failure leaves the prior behavior
//! unchanged.

use vstd::prelude::*;
use crate::errors::Error;
use crate::pathtext::{join, join_spec, trim_spec};

verus! {

/// The state after a set operation whose directory creation and record write
/// ended as the two flags say: committed only when both succeeded.
pub open spec fn set_outcome_state(
    pre: Option<Seq<char>>,
    path: Seq<char>,
    created_ok: bool,
    persisted_ok: bool,
) -> Option<Seq<char>> {
    if created_ok && persisted_ok {
        Some(path)
    } else {
        pre
    }
}

/// The state after a clear operation whose record removal ended as the flag
/// says: cleared only when the removal succeeded.
pub open spec fn clear_outcome_state(pre: Option<Seq<char>>, removed_ok: bool) -> Option<
    Seq<char>,
> {
    if removed_ok {
        None
    } else {
        pre
    }
}

/// The state adopted at startup from the configuration record: the recorded
/// text, trimmed, but only where a record exists and the path it names is
/// still a directory; otherwise unset.
pub open spec fn load_outcome_state(record: Option<Seq<char>>, path_is_dir: bool) -> Option<
    Seq<char>,
> {
    match record {
        Some(content) => if path_is_dir {
            Some(trim_spec(content))
        } else {
            None
        },
        None => None,
    }
}

/// What the configuration record must hold for a given state: the path's
/// text where a location is configured, no record otherwise.
pub open spec fn record_content(loc: Option<Seq<char>>) -> Option<Seq<char>> {
    loc
}

/// What a persist operation must do to the configuration record.
pub enum PersistPlan {
    /// Write a record holding this text, replacing any previous record.
    Write(String),
    /// Remove the record; removing an absent record is a no-op.
    Remove,
}

/// The currently configured documents directory, or `None` for "use the
/// platform default". Mutated only by the operations below; the surrounding
/// shell serializes access with one lock and mirrors every change to the
/// configuration record.
pub struct LocationStore {
    configured: Option<String>,
}

impl View for LocationStore {
    type V = Option<Seq<char>>;

    closed spec fn view(&self) -> Option<Seq<char>> {
        match self.configured {
            Some(p) => Some(p@),
            None => None,
        }
    }
}

impl LocationStore {
    /// A fresh store: no location configured.
    pub fn new() -> (s: Self)
        ensures
            s@ is None,
    {
        LocationStore { configured: None }
    }

    /// The currently configured path, without touching the filesystem.
    pub fn get_location(&self) -> (r: Option<String>)
        ensures
            r is Some <==> self@ is Some,
            r matches Some(p) ==> self@ == Some(p@),
    {
        match &self.configured {
            Some(p) => Some(p.clone()),
            None => None,
        }
    }

    /// Sets the configured location to `path`. `created` is the outcome of
    /// creating the directory at `path` (with its parents), `persisted` the
    /// outcome of writing `path` into the configuration record; the record
    /// write is attempted only after the creation succeeded. A creation
    /// failure or a persistence failure leaves the state unchanged and
    /// reports the cause; only full success commits the new location.
    pub fn set_location(
        &mut self,
        path: String,
        created: Result<(), String>,
        persisted: Result<(), String>,
    ) -> (r: Result<(), Error>)
        ensures
            final(self)@ == set_outcome_state(old(self)@, path@, created is Ok, persisted is Ok),
            r is Ok <==> (created is Ok && persisted is Ok),
            created matches Err(m) ==> r matches Err(e) && e@ == crate::errors::ErrorView::DirectoryCreateError(m@),
            created is Ok ==> (persisted matches Err(m) ==> r matches Err(e) && e@
                == crate::errors::ErrorView::PersistenceError(m@)),
    {
        match created {
            Err(m) => Err(Error::DirectoryCreateError(m)),
            Ok(_) => match persisted {
                Err(m) => Err(Error::PersistenceError(m)),
                Ok(_) => {
                    self.configured = Some(path);
                    Ok(())
                },
            },
        }
    }

    /// Clears the configured location. `removed` is the outcome of removing
    /// the configuration record where one was present; removal of an absent
    /// record is a no-op that the shell reports as success. A removal
    /// failure leaves the state unchanged; success leaves the location
    /// unset.
    pub fn clear_location(&mut self, removed: Result<(), String>) -> (r: Result<(), Error>)
        ensures
            final(self)@ == clear_outcome_state(old(self)@, removed is Ok),
            r is Ok <==> removed is Ok,
            removed matches Err(m) ==> r matches Err(e) && e@
                == crate::errors::ErrorView::PersistenceError(m@),
    {
        match removed {
            Err(m) => Err(Error::PersistenceError(m)),
            Ok(_) => {
                self.configured = None;
                Ok(())
            },
        }
    }

    /// Adopts the location recorded on disk, once, at startup. `record` is
    /// the raw content of the configuration record where one exists;
    /// `path_is_dir` says whether the trimmed recorded path still exists as
    /// a directory. A stale or absent record leaves the store unset rather
    /// than resurrecting a path that no longer exists.
    pub fn load_from_record(&mut self, record: Option<String>, path_is_dir: bool)
        ensures
            final(self)@ == load_outcome_state(
                match record {
                    Some(c) => Some(c@),
                    None => None,
                },
                path_is_dir,
            ),
    {
        match record {
            Some(content) => {
                if path_is_dir {
                    self.configured = Some(parse_record(content.as_str()));
                } else {
                    self.configured = None;
                }
            },
            None => {
                self.configured = None;
            },
        }
    }
}

/// The path a configuration record's content names: the content with its
/// surrounding whitespace removed.
pub fn parse_record(content: &str) -> (r: String)
    ensures
        r@ == trim_spec(content@),
{
    crate::pathtext::trim_text(content)
}

/// The record update a given state calls for, as [`record_content`]
/// describes: write the configured path's text, or remove the record.
pub fn persist_plan(loc: &Option<String>) -> (p: PersistPlan)
    ensures
        loc matches Some(q) ==> p matches PersistPlan::Write(c) && c@ == q@ && record_content(
            Some(q@),
        ) == Some(c@),
        loc is None ==> p is Remove && record_content(None::<Seq<char>>) is None,
{
    match loc {
        Some(q) => PersistPlan::Write(q.clone()),
        None => PersistPlan::Remove,
    }
}

/// The fixed location of the configuration record inside the application's
/// configuration directory.
pub fn config_record_path(config_dir: &str) -> (r: String)
    ensures
        r@ == join_spec(config_dir@, "document_path.txt"@),
{
    join(config_dir, "document_path.txt")
}

} // verus!
