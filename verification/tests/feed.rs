use empress::feed::{Rejected, SnapshotFeed, FEED_CAPACITY, POLL_INTERVAL_MS};
use empress::snapshot::MediaInfo;

fn numbered(number: usize) -> MediaInfo {
    let mut info = MediaInfo::idle();
    info.title = format!("track {}", number);
    info
}

#[test]
fn new_feed_is_open_and_empty() {
    let mut feed = SnapshotFeed::new();
    assert!(feed.is_open());
    assert_eq!(feed.len(), 0);
    assert_eq!(feed.drain(), Vec::new());
}

#[test]
fn drain_takes_out_everything_in_order() {
    let mut feed = SnapshotFeed::new();
    for number in 0..5 {
        assert_eq!(feed.publish(numbered(number)), Ok(()));
    }
    assert_eq!(feed.len(), 5);
    let batch = feed.drain();
    assert_eq!(batch, (0..5).map(numbered).collect::<Vec<MediaInfo>>());
    assert_eq!(feed.len(), 0);
    assert_eq!(feed.drain(), Vec::new());
    assert!(feed.is_open());
}

#[test]
fn full_feed_hands_the_snapshot_back() {
    let mut feed = SnapshotFeed::new();
    for number in 0..16 {
        assert_eq!(feed.publish(numbered(number)), Ok(()));
    }
    assert_eq!(feed.publish(numbered(16)), Err(Rejected::Full(numbered(16))));
    assert_eq!(feed.len(), 16);
    let batch = feed.drain();
    assert_eq!(batch.len(), 16);
    assert_eq!(batch[0], numbered(0));
    assert_eq!(batch[15], numbered(15));
}

#[test]
fn drained_feed_has_room_again() {
    let mut feed = SnapshotFeed::new();
    for number in 0..FEED_CAPACITY {
        feed.publish(numbered(number)).unwrap();
    }
    feed.drain();
    assert_eq!(feed.publish(numbered(99)), Ok(()));
    assert_eq!(feed.drain(), vec![numbered(99)]);
}

#[test]
fn closed_feed_tells_the_poller_to_stop() {
    let mut feed = SnapshotFeed::new();
    feed.publish(numbered(0)).unwrap();
    feed.close();
    assert!(!feed.is_open());
    assert_eq!(feed.len(), 0);
    assert_eq!(feed.publish(numbered(1)), Err(Rejected::Closed(numbered(1))));
    assert_eq!(feed.drain(), Vec::new());
    assert!(!feed.is_open());
}

#[test]
fn feed_holds_sixteen_and_polls_twice_a_second() {
    assert_eq!(FEED_CAPACITY, 16);
    assert_eq!(POLL_INTERVAL_MS, 500);
}
