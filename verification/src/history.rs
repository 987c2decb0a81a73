//! The record of what was played: a bounded list of entries, newest first.

use vstd::prelude::*;
use crate::status::PlayerStatus;

verus! {

/// How many entries the history keeps.
pub const HISTORY_CAPACITY: usize = 50;

/// One observed change of track or playback state. `observed_at` is in milliseconds.
#[derive(Debug, PartialEq, Eq)]
pub struct HistoryEntry {
    pub status: PlayerStatus,
    pub title: String,
    pub artist: String,
    pub observed_at: u64,
}

/// The mathematical value of a [`HistoryEntry`].
pub struct EntryView {
    pub status: PlayerStatus,
    pub title: Seq<char>,
    pub artist: Seq<char>,
    pub observed_at: u64,
}

impl View for HistoryEntry {
    type V = EntryView;

    open spec fn view(&self) -> EntryView {
        EntryView {
            status: self.status,
            title: self.title@,
            artist: self.artist@,
            observed_at: self.observed_at,
        }
    }
}

impl Clone for HistoryEntry {
    fn clone(&self) -> (copy: HistoryEntry)
        ensures
            copy@ == self@,
    {
        HistoryEntry {
            status: self.status,
            title: self.title.clone(),
            artist: self.artist.clone(),
            observed_at: self.observed_at,
        }
    }
}

/// The history after `entry` was recorded: it comes first, what was there follows in its
/// old order, and what no longer fits within the capacity falls off the end.
pub open spec fn recorded(entries: Seq<EntryView>, entry: EntryView) -> Seq<EntryView> {
    let grown = seq![entry] + entries;
    if grown.len() > HISTORY_CAPACITY {
        grown.take(HISTORY_CAPACITY as int)
    } else {
        grown
    }
}

/// The entries, newest first, never more than [`HISTORY_CAPACITY`].
pub struct History {
    entries: Vec<HistoryEntry>,
}

impl View for History {
    type V = Seq<EntryView>;

    closed spec fn view(&self) -> Seq<EntryView> {
        Seq::new(self.entries@.len(), |i: int| self.entries@[i]@)
    }
}

impl History {
    #[verifier::type_invariant]
    spec fn within_capacity(self) -> bool {
        self.entries@.len() <= HISTORY_CAPACITY
    }

    /// An empty history.
    pub fn new() -> (history: History)
        ensures
            history@ == Seq::<EntryView>::empty(),
    {
        let history = History { entries: Vec::new() };
        assert(history@ =~= Seq::<EntryView>::empty());
        history
    }

    /// How many entries are kept. Never more than the capacity.
    pub fn len(&self) -> (count: usize)
        ensures
            count == self@.len(),
            count <= HISTORY_CAPACITY,
    {
        proof {
            use_type_invariant(self);
        }
        self.entries.len()
    }

    /// Whether nothing was recorded yet.
    pub fn is_empty(&self) -> (empty: bool)
        ensures
            empty == (self@.len() == 0),
    {
        self.entries.len() == 0
    }

    /// The entry at `index`, counted from the newest, if there is one.
    pub fn get(&self, index: usize) -> (entry: Option<&HistoryEntry>)
        ensures
            match entry {
                Some(e) => index < self@.len() && e@ == self@[index as int],
                None => index >= self@.len(),
            },
    {
        if index < self.entries.len() {
            Some(&self.entries[index])
        } else {
            None
        }
    }

    /// Copies of all entries, newest first.
    pub fn entries(&self) -> (copies: Vec<HistoryEntry>)
        ensures
            copies@.len() == self@.len(),
            forall|i: int| 0 <= i < copies@.len() ==> (#[trigger] copies@[i])@ == self@[i],
    {
        let mut copies: Vec<HistoryEntry> = Vec::new();
        let mut at: usize = 0;
        while at < self.entries.len()
            invariant
                at <= self.entries@.len(),
                copies@.len() == at,
                forall|i: int| 0 <= i < at ==> (#[trigger] copies@[i])@ == self.entries@[i]@,
            decreases self.entries@.len() - at,
        {
            copies.push(self.entries[at].clone());
            at += 1;
        }
        copies
    }

    /// Records an entry as the newest. At capacity the oldest entry is evicted.
    pub fn record(&mut self, entry: HistoryEntry)
        ensures
            final(self)@ == recorded(old(self)@, entry@),
            final(self)@.len() <= HISTORY_CAPACITY,
    {
        proof {
            use_type_invariant(&*self);
        }
        let ghost before = self@;
        let mut taken = History::new();
        std::mem::swap(self, &mut taken);
        let mut entries = taken.entries;
        if entries.len() == HISTORY_CAPACITY {
            entries.pop();
        }
        entries.insert(0, entry);
        *self = History { entries };
        assert(self@ =~= recorded(before, entry@));
    }
}

/// The history never exceeds its capacity, the newest entry is first, and the entries that
/// stay keep their order.
pub proof fn recording_keeps_the_newest(entries: Seq<EntryView>, entry: EntryView)
    requires
        entries.len() <= HISTORY_CAPACITY,
    ensures
        recorded(entries, entry).len() <= HISTORY_CAPACITY,
        recorded(entries, entry).len() == if entries.len() == HISTORY_CAPACITY {
            entries.len()
        } else {
            entries.len() + 1
        },
        recorded(entries, entry)[0] == entry,
        forall|i: int|
            1 <= i < recorded(entries, entry).len() ==> recorded(entries, entry)[i] == entries[i
                - 1],
{
}

} // verus!
