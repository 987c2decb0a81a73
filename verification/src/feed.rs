//! The way snapshots take from the poller to the reconciliation engine.
//!
//! The poller publishes one snapshot per tick; the engine's side takes out everything that has
//! arrived since its last pass, oldest first. The buffer in between is small and bounded. A
//! snapshot that finds it full is handed back, so that a slow reader costs the poller time and
//! never a snapshot. Once the reader is gone, publishing says so, and the poller stops.

use std::collections::VecDeque;
use vstd::prelude::*;
use crate::snapshot::{MediaInfo, MediaInfoView};

verus! {

/// Milliseconds between two polls of the session.
pub const POLL_INTERVAL_MS: u64 = 500;

/// How many snapshots may wait to be taken out.
pub const FEED_CAPACITY: usize = 16;

/// Why a snapshot was not taken in. Either way it is handed back.
#[derive(Debug, PartialEq, Eq)]
pub enum Rejected {
    /// The buffer is full: the reader is behind. Publish again later.
    Full(MediaInfo),
    /// The reader is gone: stop polling.
    Closed(MediaInfo),
}

/// The mathematical value of a [`Rejected`].
pub enum RejectedView {
    Full(MediaInfoView),
    Closed(MediaInfoView),
}

impl View for Rejected {
    type V = RejectedView;

    open spec fn view(&self) -> RejectedView {
        match self {
            Rejected::Full(info) => RejectedView::Full(info@),
            Rejected::Closed(info) => RejectedView::Closed(info@),
        }
    }
}

/// The mathematical value of a [`SnapshotFeed`]: the snapshots that wait, oldest first, and
/// whether the reader is still there.
pub struct FeedView {
    pub waiting: Seq<MediaInfoView>,
    pub open: bool,
}

/// What publishing a snapshot reports: taken in while the reader is there and the buffer has
/// room, handed back otherwise.
pub open spec fn publish_result(feed: FeedView, info: MediaInfoView) -> Result<(), RejectedView> {
    if !feed.open {
        Err(RejectedView::Closed(info))
    } else if feed.waiting.len() >= FEED_CAPACITY {
        Err(RejectedView::Full(info))
    } else {
        Ok(())
    }
}

/// The feed after a snapshot was published: it waits behind the others if it was taken in.
pub open spec fn after_publish(feed: FeedView, info: MediaInfoView) -> FeedView {
    if publish_result(feed, info) is Ok {
        FeedView { waiting: feed.waiting.push(info), ..feed }
    } else {
        feed
    }
}

/// The bounded buffer of snapshots between the poller and the engine.
pub struct SnapshotFeed {
    waiting: VecDeque<MediaInfo>,
    open: bool,
}

impl View for SnapshotFeed {
    type V = FeedView;

    closed spec fn view(&self) -> FeedView {
        FeedView {
            waiting: Seq::new(self.waiting@.len(), |i: int| self.waiting@[i]@),
            open: self.open,
        }
    }
}

impl SnapshotFeed {
    #[verifier::type_invariant]
    spec fn within_capacity(self) -> bool {
        self.waiting@.len() <= FEED_CAPACITY
    }

    /// An empty feed with its reader in place.
    pub fn new() -> (feed: SnapshotFeed)
        ensures
            feed@ == (FeedView { waiting: Seq::empty(), open: true }),
    {
        let feed = SnapshotFeed { waiting: VecDeque::new(), open: true };
        assert(feed@.waiting =~= Seq::<MediaInfoView>::empty());
        feed
    }

    /// How many snapshots wait to be taken out. Never more than the capacity.
    pub fn len(&self) -> (count: usize)
        ensures
            count == self@.waiting.len(),
            count <= FEED_CAPACITY,
    {
        proof {
            use_type_invariant(self);
        }
        self.waiting.len()
    }

    /// Whether the reader is still there.
    pub fn is_open(&self) -> (open: bool)
        ensures
            open == self@.open,
    {
        self.open
    }

    /// Hands a snapshot to the reader's side. It is taken in behind those that wait, or handed
    /// back with the reason.
    pub fn publish(&mut self, info: MediaInfo) -> (taken: Result<(), Rejected>)
        ensures
            match taken {
                Ok(()) => publish_result(old(self)@, info@) is Ok,
                Err(back) => publish_result(old(self)@, info@) == Err::<(), RejectedView>(back@),
            },
            final(self)@ == after_publish(old(self)@, info@),
    {
        proof {
            use_type_invariant(&*self);
        }
        if !self.open {
            return Err(Rejected::Closed(info));
        }
        if self.waiting.len() >= FEED_CAPACITY {
            return Err(Rejected::Full(info));
        }
        let ghost before = self@;
        let mut taken = SnapshotFeed::new();
        std::mem::swap(self, &mut taken);
        let mut waiting = taken.waiting;
        waiting.push_back(info);
        *self = SnapshotFeed { waiting, open: true };
        assert(self@.waiting =~= before.waiting.push(info@));
        Ok(())
    }

    /// Takes out every snapshot that waits, oldest first, and leaves none behind.
    pub fn drain(&mut self) -> (batch: Vec<MediaInfo>)
        ensures
            batch@.len() == old(self)@.waiting.len(),
            forall|i: int|
                0 <= i < batch@.len() ==> (#[trigger] batch@[i])@ == old(self)@.waiting[i],
            final(self)@ == (FeedView { waiting: Seq::empty(), ..old(self)@ }),
    {
        let ghost before = self@;
        let mut taken = SnapshotFeed::new();
        let open = self.open;
        std::mem::swap(self, &mut taken);
        let mut waiting = taken.waiting;
        let ghost all = waiting@;
        let mut batch: Vec<MediaInfo> = Vec::new();
        while waiting.len() > 0
            invariant
                batch@.len() + waiting@.len() == all.len(),
                forall|i: int| 0 <= i < batch@.len() ==> #[trigger] batch@[i] == all[i],
                forall|i: int|
                    0 <= i < waiting@.len() ==> #[trigger] waiting@[i] == all[batch@.len() + i],
            decreases waiting@.len(),
        {
            match waiting.pop_front() {
                Some(info) => batch.push(info),
                None => {},
            }
        }
        *self = SnapshotFeed { waiting, open };
        assert(self@.waiting =~= Seq::<MediaInfoView>::empty());
        batch
    }

    /// Records that the reader is gone. What still waited is lost with it, and every later
    /// snapshot is handed back.
    pub fn close(&mut self)
        ensures
            final(self)@ == (FeedView { waiting: Seq::empty(), open: false }),
    {
        *self = SnapshotFeed { waiting: VecDeque::new(), open: false };
        assert(self@.waiting =~= Seq::<MediaInfoView>::empty());
    }
}

/// The feed never holds more than its capacity, and what is taken in keeps its place behind
/// everything that came before it.
pub proof fn feed_is_bounded_and_ordered(feed: FeedView, info: MediaInfoView)
    requires
        feed.waiting.len() <= FEED_CAPACITY,
    ensures
        after_publish(feed, info).waiting.len() <= FEED_CAPACITY,
        feed.waiting.is_prefix_of(after_publish(feed, info).waiting),
        publish_result(feed, info) is Ok ==> after_publish(feed, info).waiting.last() == info,
        publish_result(feed, info) is Err ==> after_publish(feed, info) == feed,
{
}

} // verus!
