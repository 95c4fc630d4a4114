//! The state store: one `State`, the path of the file that backs it, and the
//! three ways to reach the state.
//!
//! The store touches no file and takes no lock. Whoever shares a store between
//! tasks puts it behind a reader-writer lock: `read_only` and `snapshot` borrow
//! the store shared, `read_write` borrows it exclusively, and the `Flush` that
//! `read_write` returns keeps the store borrowed until the state is on disk.
//! Reading and writing the file is the caller's work too; the store says what is
//! to be done and decides what follows from how it went.

use vstd::prelude::*;
use crate::model::State;
use crate::model::StateView;
use crate::persist::Flush;
use crate::persist::Phase;

verus! {

/// What came of reading the backing file and decoding what it holds. `E` is the
/// caller's I/O error, `D` its decoding error.
#[derive(Debug)]
pub enum ReadOutcome<E, D> {
    /// The file holds a well-formed document: this state.
    Document(State),
    /// The file was read, and what it holds is no serialized state.
    Malformed(D),
    /// No file exists at the path.
    Missing,
    /// The file could not be read, for a reason other than its absence.
    Failed(E),
}

/// Why a store could not be loaded. The caller's own error is handed back as it
/// came.
#[derive(Debug)]
pub enum LoadError<E, D> {
    /// Reading the backing file failed.
    Read(E),
    /// The backing file does not hold a serialized state.
    Decode(D),
}

/// A state and the path of the file that backs it.
#[derive(Debug)]
pub struct Storage {
    path: String,
    state: State,
}

impl Storage {
    /// The path of the backing file.
    pub closed spec fn path(&self) -> Seq<char> {
        self.path@
    }

    /// The state that the store holds now.
    pub closed spec fn state(&self) -> State {
        self.state
    }

    /// The path of the temporary file: the store's path with `.tmp` behind it, so
    /// that both lie in one directory.
    pub open spec fn tmp_path(&self) -> Seq<char> {
        self.path() + ".tmp"@
    }

    /// What `load` returns for a path and the outcome of reading it.
    pub open spec fn loads<E, D>(
        path: Seq<char>,
        read: ReadOutcome<E, D>,
        res: Result<Storage, LoadError<E, D>>,
    ) -> bool {
        match read {
            ReadOutcome::Document(state) => {
                &&& res matches Ok(store)
                &&& store.path() == path
                &&& store.state() == state
            },
            ReadOutcome::Malformed(cause) => {
                res matches Err(LoadError::Decode(given)) && given == cause
            },
            ReadOutcome::Missing => {
                &&& res matches Ok(store)
                &&& store.path() == path
                &&& store.state()@ == StateView::empty()
            },
            ReadOutcome::Failed(cause) => {
                res matches Err(LoadError::Read(given)) && given == cause
            },
        }
    }

    /// Makes the store for `path` from what reading that file gave.
    ///
    /// A document becomes the store's state as it is. A missing file is no
    /// error: the store starts with the empty state. Any other failure to read,
    /// and a file that does not decode, fail the load with the caller's error;
    /// nothing is repaired.
    pub fn load<E, D>(path: &str, read: ReadOutcome<E, D>) -> (res: Result<
        Storage,
        LoadError<E, D>,
    >)
        ensures
            Self::loads(path@, read, res),
    {
        match read {
            ReadOutcome::Document(state) => Ok(Storage { path: path.to_owned(), state }),
            ReadOutcome::Malformed(cause) => Err(LoadError::Decode(cause)),
            ReadOutcome::Missing => Ok(Storage { path: path.to_owned(), state: State::new() }),
            ReadOutcome::Failed(cause) => Err(LoadError::Read(cause)),
        }
    }

    /// Shows the state to `visitor`, once. The store is left as it was.
    pub fn read_only<F: FnOnce(&State)>(&self, visitor: F)
        requires
            call_requires(visitor, (&self.state(),)),
        ensures
            call_ensures(visitor, (&self.state(),), ()),
    {
        visitor(&self.state)
    }

    /// Hands the state to `mutator`, once, for editing in place, and starts the
    /// flush that its answer asks for.
    ///
    /// The state is afterwards what the mutator left, whatever it answered:
    /// nothing is rolled back. On `true` the flush begins with the write of the
    /// temporary file; on `false` it is finished at once, with success and
    /// without an effect on any file.
    pub fn read_write<'a, E, F: FnOnce(&mut State) -> bool>(&'a mut self, mutator: F) -> (flush:
        Flush<'a, E>)
        requires
            forall|r: &mut State|
                *r == old(self).state() ==> #[trigger] call_requires(mutator, (r,)),
        ensures
            final(self).path() == old(self).path(),
            flush.store() == *final(self),
            exists|r: &mut State, commit: bool|
                {
                    &&& *r == old(self).state()
                    &&& *final(r) == final(self).state()
                    &&& #[trigger] call_ensures(mutator, (r,), commit)
                    &&& flush.phase() == Phase::<E>::begin(commit)
                },
    {
        let commit = mutator(&mut self.state);
        Flush::begin(self, commit)
    }

    /// A copy of the state that shares nothing with the store.
    pub fn snapshot(&self) -> (copy: State)
        ensures
            copy@ == self.state()@,
    {
        self.state.clone()
    }

    /// The path of the backing file.
    pub(crate) fn path_str(&self) -> (path: &str)
        ensures
            path@ == self.path(),
    {
        self.path.as_str()
    }

    /// The state, for encoding.
    pub(crate) fn state_ref(&self) -> (state: &State)
        ensures
            *state == self.state(),
    {
        &self.state
    }
}

} // verus!
