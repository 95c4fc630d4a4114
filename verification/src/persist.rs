//! Bringing a committed state to disk so that the backing file is never seen
//! half-written: the state is written in full to a temporary file beside the
//! backing file, and that file is then renamed onto the backing file.
//!
//! A `Flush` is the course of one such update. It touches no file itself. It
//! names the next effect on the file system, the caller performs it and reports
//! how it went, and the flush decides what follows. The first failure ends the
//! flush and is its result.

use vstd::prelude::*;
use vstd::string::StringExecFns;
use crate::model::State;
use crate::model::StateView;
use crate::store::ReadOutcome;
use crate::store::LoadError;
use crate::store::Storage;

verus! {

/// How far a flush has come.
#[derive(Debug)]
pub enum Phase<E> {
    /// The temporary file is still to be written.
    WriteTemp,
    /// The temporary file is written and still to be renamed onto the backing file.
    Replace,
    /// Nothing is left to do. This is the result of the flush.
    Done(Result<(), E>),
}

impl<E> Phase<E> {
    /// Where a flush begins: with the write if the state is to be persisted,
    /// and at its end, successful, if it is not.
    pub open spec fn begin(commit: bool) -> Phase<E> {
        if commit {
            Phase::WriteTemp
        } else {
            Phase::Done(Ok(()))
        }
    }

    /// The phase that follows this one once the pending effect has gone as
    /// `outcome` says. A finished flush stays as it is.
    pub open spec fn after(self, outcome: Result<(), E>) -> Phase<E> {
        match self {
            Phase::WriteTemp => match outcome {
                Ok(_) => Phase::Replace,
                Err(cause) => Phase::Done(Err(cause)),
            },
            Phase::Replace => match outcome {
                Ok(_) => Phase::Done(Ok(())),
                Err(cause) => Phase::Done(Err(cause)),
            },
            Phase::Done(result) => Phase::Done(result),
        }
    }
}

/// One effect on the file system that a flush asks its caller to perform.
#[derive(Debug)]
pub enum Effect<'a> {
    /// Encode `document` and write the encoding to `path` as that file's whole
    /// content, creating the file or replacing what it held.
    Write { path: &'a str, document: &'a State },
    /// Rename the file at `from` onto `to` in one step, replacing what is there.
    Rename { from: &'a str, to: &'a str },
}

/// What an `Effect` holds, as mathematical values.
pub enum EffectView {
    Write { path: Seq<char>, document: StateView },
    Rename { from: Seq<char>, to: Seq<char> },
}

impl<'a> View for Effect<'a> {
    type V = EffectView;

    open spec fn view(&self) -> EffectView {
        match *self {
            Effect::Write { path, document } => EffectView::Write {
                path: path@,
                document: document@,
            },
            Effect::Rename { from, to } => EffectView::Rename { from: from@, to: to@ },
        }
    }
}

/// The course of one update of the backing file. While it lives, the store is
/// borrowed and its state cannot change.
#[derive(Debug)]
pub struct Flush<'a, E> {
    store: &'a Storage,
    tmp_path: String,
    phase: Phase<E>,
}

impl<'a, E> Flush<'a, E> {
    /// While an effect is pending, the temporary path is the store's.
    #[verifier::type_invariant]
    spec fn well_formed(self) -> bool {
        !(self.phase is Done) ==> self.tmp_path@ == self.store.tmp_path()
    }

    /// The store whose state is being persisted.
    pub closed spec fn store(&self) -> Storage {
        *self.store
    }

    /// How far the flush has come.
    pub closed spec fn phase(&self) -> Phase<E> {
        self.phase
    }

    /// The effect that the caller is to perform next, if any is left.
    pub open spec fn pending(&self) -> Option<EffectView> {
        match self.phase() {
            Phase::WriteTemp => Some(
                EffectView::Write {
                    path: self.store().tmp_path(),
                    document: self.store().state()@,
                },
            ),
            Phase::Replace => Some(
                EffectView::Rename { from: self.store().tmp_path(), to: self.store().path() },
            ),
            Phase::Done(_) => None,
        }
    }

    /// The result of the flush, once it is finished.
    pub open spec fn outcome(&self) -> Option<Result<(), E>> {
        match self.phase() {
            Phase::Done(result) => Some(result),
            _ => None,
        }
    }

    /// Starts the flush of `store` that a mutator's answer asks for.
    pub(crate) fn begin(store: &'a Storage, commit: bool) -> (flush: Self)
        ensures
            flush.store() == *store,
            flush.phase() == Phase::<E>::begin(commit),
    {
        if commit {
            let tmp_path = store.path_str().to_owned().concat(".tmp");
            Flush { store, tmp_path, phase: Phase::WriteTemp }
        } else {
            Flush { store, tmp_path: String::new(), phase: Phase::Done(Ok(())) }
        }
    }

    /// The effect that the caller is to perform next: first the write of the
    /// state to the temporary path, then the rename of the temporary file onto
    /// the store's path. `None` once the flush is finished.
    pub fn effect(&self) -> (next: Option<Effect<'_>>)
        ensures
            match next {
                Some(effect) => self.pending() == Some(effect@),
                None => self.pending() is None,
            },
    {
        proof {
            use_type_invariant(self);
        }
        match &self.phase {
            Phase::WriteTemp => Some(
                Effect::Write { path: self.tmp_path.as_str(), document: self.store.state_ref() },
            ),
            Phase::Replace => Some(
                Effect::Rename { from: self.tmp_path.as_str(), to: self.store.path_str() },
            ),
            Phase::Done(_) => None,
        }
    }

    /// Takes the report of how the pending effect went and moves on: after a
    /// write that succeeded comes the rename, after a rename that succeeded the
    /// flush is finished with success, and a failure finishes it at once with
    /// that failure. A finished flush stays as it is.
    pub fn advance(self, outcome: Result<(), E>) -> (next: Self)
        ensures
            next.store() == self.store(),
            next.phase() == self.phase().after(outcome),
    {
        proof {
            use_type_invariant(&self);
        }
        let Flush { store, tmp_path, phase } = self;
        let phase = match phase {
            Phase::WriteTemp => match outcome {
                Ok(_) => Phase::Replace,
                Err(cause) => Phase::Done(Err(cause)),
            },
            Phase::Replace => match outcome {
                Ok(_) => Phase::Done(Ok(())),
                Err(cause) => Phase::Done(Err(cause)),
            },
            Phase::Done(result) => Phase::Done(result),
        };
        Flush { store, tmp_path, phase }
    }

    /// The result of the flush: `None` while an effect is pending.
    pub fn result(self) -> (res: Option<Result<(), E>>)
        ensures
            res == self.outcome(),
    {
        match self.phase {
            Phase::Done(result) => Some(result),
            _ => None,
        }
    }
}

/// The temporary file is never the backing file: its path is longer by the four
/// characters of `.tmp`.
pub proof fn lemma_temporary_path_differs(store: Storage)
    ensures
        store.tmp_path().len() == store.path().len() + 4,
        store.tmp_path() != store.path(),
{
    reveal_strlit(".tmp");
}

/// The backing file is never written in place. A flush writes to the temporary
/// path only, and the one effect that touches the store's path is the rename of
/// the temporary file onto it: whoever reads the backing file finds the old
/// document or the new one, whole.
pub proof fn lemma_backing_file_only_replaced<E>(flush: Flush<E>)
    ensures
        match flush.pending() {
            Some(EffectView::Write { path, document }) => {
                &&& path == flush.store().tmp_path()
                &&& path != flush.store().path()
                &&& document == flush.store().state()@
            },
            Some(EffectView::Rename { from, to }) => {
                &&& from == flush.store().tmp_path()
                &&& to == flush.store().path()
                &&& from != to
            },
            None => flush.phase() is Done,
        },
{
    lemma_temporary_path_differs(flush.store());
}

/// A transaction whose mutator answers `false` writes nothing: its flush asks
/// for no effect and is finished with success from the start, whatever the
/// mutator did to the state in memory.
pub proof fn lemma_discard_asks_for_nothing<E>(flush: Flush<E>)
    requires
        flush.phase() == Phase::<E>::begin(false),
    ensures
        flush.pending() is None,
        flush.outcome() == Some(Ok::<(), E>(())),
{
}

/// A committed flush asks for the write and, only once that has succeeded, for
/// the rename. It succeeds when both did; the first failure is its result, and
/// after a failed write no rename is asked for.
pub proof fn lemma_commit_writes_then_renames<E>(write: Result<(), E>, rename: Result<(), E>)
    ensures
        Phase::<E>::begin(true) == Phase::<E>::WriteTemp,
        Phase::<E>::begin(true).after(write) == match write {
            Ok(_) => Phase::<E>::Replace,
            Err(cause) => Phase::Done(Err(cause)),
        },
        Phase::<E>::begin(true).after(Ok(())).after(rename) == match rename {
            Ok(_) => Phase::<E>::Done(Ok(())),
            Err(cause) => Phase::Done(Err(cause)),
        },
        write is Err ==> Phase::<E>::begin(true).after(write).after(rename)
            == Phase::<E>::begin(true).after(write),
{
}

/// What a committed transaction hands out for writing is the state that the
/// store holds afterwards, the one that `snapshot` copies. So a load of the
/// store's path that finds a document with those values yields a store with
/// the same path and a state equal to that snapshot.
pub proof fn lemma_persisted_state_reloads<E, D>(
    flush: Flush<E>,
    snapshot: State,
    document: State,
    res: Result<Storage, LoadError<E, D>>,
)
    requires
        flush.phase() == Phase::<E>::begin(true),
        snapshot@ == flush.store().state()@,
        flush.pending() matches Some(EffectView::Write { document: written, .. })
            && document@ == written,
        Storage::loads(flush.store().path(), ReadOutcome::<E, D>::Document(document), res),
    ensures
        res matches Ok(reloaded) && reloaded.path() == flush.store().path() && reloaded.state()@
            == snapshot@,
{
}

} // verus!
