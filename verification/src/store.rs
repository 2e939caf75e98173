//! The snapshot store: the single cell through which fetched data reaches the
//! render loop.

use vstd::prelude::*;

verus! {

/// Holds the most recently published snapshot, or nothing before the first
/// publication.
///
/// A snapshot is only ever replaced as a whole. The store offers no way to
/// change part of a snapshot and no way to go back to "absent", so a reader
/// sees either nothing or exactly the value that the latest completed `write`
/// handed in. Callers that share a store between threads wrap it in a lock
/// and hold that lock for one `write` or one `read` at a time, never while
/// they render.
pub struct SnapshotStore<T> {
    slot: Option<T>,
    written: Ghost<Seq<T>>,
}

impl<T> View for SnapshotStore<T> {
    type V = Option<T>;

    /// What a read returns now.
    closed spec fn view(&self) -> Option<T> {
        self.slot
    }
}

impl<T> SnapshotStore<T> {
    #[verifier::type_invariant]
    spec fn slot_is_latest_write(self) -> bool {
        self.slot == Self::after_writes(self.written@)
    }

    /// Every snapshot that was ever written to this store, oldest first.
    pub closed spec fn history(&self) -> Seq<T> {
        self.written@
    }

    /// The content of a store that started empty and then received `writes`
    /// in order: nothing, or the last of them.
    pub open spec fn after_writes(writes: Seq<T>) -> Option<T> {
        if writes.len() == 0 {
            None
        } else {
            Some(writes.last())
        }
    }

    /// An empty store: nothing has been published yet.
    pub fn new() -> (store: Self)
        ensures
            store@ == None::<T>,
            store.history() == Seq::<T>::empty(),
    {
        SnapshotStore { slot: None, written: Ghost(Seq::empty()) }
    }

    /// Replaces the stored value with `snapshot`, whatever was there before.
    pub fn write(&mut self, snapshot: T)
        ensures
            final(self)@ == Some(snapshot),
            final(self).history() == old(self).history().push(snapshot),
    {
        let ghost extended = self.written@.push(snapshot);
        *self = SnapshotStore { slot: Some(snapshot), written: Ghost(extended) };
    }

    /// The latest snapshot, or `None` while nothing has been published.
    ///
    /// The result is never anything but the value of the last completed
    /// `write`: absent exactly when there was no write at all.
    pub fn read(&self) -> (latest: Option<&T>)
        ensures
            match latest {
                Some(snapshot) => self@ == Some(*snapshot),
                None => self@ is None,
            },
            self@ == Self::after_writes(self.history()),
    {
        proof {
            use_type_invariant(self);
        }
        self.slot.as_ref()
    }

    /// Whether a snapshot has been published, that is, whether any write has
    /// completed.
    pub fn is_present(&self) -> (present: bool)
        ensures
            present == self@.is_some(),
            present == (self.history().len() > 0),
    {
        proof {
            use_type_invariant(self);
        }
        self.slot.is_some()
    }
}

/// A read after any sequence of writes is absent or one of the written values,
/// whole: it is absent exactly when nothing was written, and otherwise it is
/// the value of the most recent write.
pub proof fn lemma_read_is_absent_or_written<T>(writes: Seq<T>)
    ensures
        SnapshotStore::<T>::after_writes(writes) is None <==> writes.len() == 0,
        forall|snapshot: T|
            SnapshotStore::<T>::after_writes(writes) == Some(snapshot) ==> writes.contains(snapshot)
                && snapshot == writes[writes.len() - 1],
{
}

/// Writing once more makes the new value the one that is read, whatever the
/// earlier writes were.
pub proof fn lemma_write_replaces<T>(writes: Seq<T>, snapshot: T)
    ensures
        SnapshotStore::<T>::after_writes(writes.push(snapshot)) == Some(snapshot),
{
}

/// Presence is permanent: once a read has returned a snapshot, no later write
/// makes a read return "absent" again.
pub proof fn lemma_presence_is_permanent<T>(writes: Seq<T>, later: Seq<T>)
    requires
        SnapshotStore::<T>::after_writes(writes) is Some,
    ensures
        SnapshotStore::<T>::after_writes(writes + later) is Some,
{
}

} // verus!
