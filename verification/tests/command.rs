use empress::command::{
    Command, CommandError, MprisClient, DISPATCH_INTERVAL_MS, SEEK_STEP_MICROS,
};
use empress::preference::PlayerPreference;

#[test]
fn new_client_follows_the_active_player_and_has_nothing_pending() {
    let client = MprisClient::new();
    assert_eq!(client.preferred_player(), PlayerPreference::Auto);
    assert_eq!(client.pending_len(), 0);
    assert!(client.consumer_alive());
}

#[test]
fn set_preferred_player_names_a_player_or_goes_back_to_auto() {
    let mut client = MprisClient::new();
    client.set_preferred_player(Some("spotify".to_string()));
    assert_eq!(client.preferred_player(), PlayerPreference::Named("spotify".to_string()));
    client.set_preferred_player(None);
    assert_eq!(client.preferred_player(), PlayerPreference::Auto);
    client.set_preference(PlayerPreference::Named("vlc".to_string()));
    assert_eq!(client.preferred_player(), PlayerPreference::Named("vlc".to_string()));
}

#[test]
fn set_preferred_player_leaves_the_queue_alone() {
    let mut client = MprisClient::new();
    client.next().unwrap();
    client.set_preferred_player(Some("spotify".to_string()));
    assert_eq!(client.pending_len(), 1);
    assert_eq!(client.dispatch_tick(true), Some(Command::Next));
}

#[test]
fn each_control_queues_its_command() {
    let mut client = MprisClient::new();
    assert_eq!(client.play_pause(), Ok(()));
    assert_eq!(client.next(), Ok(()));
    assert_eq!(client.previous(), Ok(()));
    assert_eq!(client.seek(-5_000_000), Ok(()));
    assert_eq!(client.submit_command(Command::Seek(7)), Ok(()));
    assert_eq!(client.pending_len(), 5);
    assert_eq!(client.dispatch_tick(true), Some(Command::PlayPause));
    assert_eq!(client.dispatch_tick(true), Some(Command::Next));
    assert_eq!(client.dispatch_tick(true), Some(Command::Previous));
    assert_eq!(client.dispatch_tick(true), Some(Command::Seek(-5_000_000)));
    assert_eq!(client.dispatch_tick(true), Some(Command::Seek(7)));
    assert_eq!(client.dispatch_tick(true), None);
}

#[test]
fn a_tick_takes_at_most_one_command() {
    let mut client = MprisClient::new();
    client.next().unwrap();
    client.next().unwrap();
    client.dispatch_tick(true);
    assert_eq!(client.pending_len(), 1);
}

#[test]
fn a_tick_on_an_empty_queue_does_nothing() {
    let mut client = MprisClient::new();
    assert_eq!(client.dispatch_tick(true), None);
    assert_eq!(client.dispatch_tick(false), None);
    assert_eq!(client.pending_len(), 0);
}

#[test]
fn command_without_a_session_is_dropped() {
    let mut client = MprisClient::new();
    client.next().unwrap();
    client.previous().unwrap();
    assert_eq!(client.dispatch_tick(false), None);
    assert_eq!(client.pending_len(), 1);
    assert_eq!(client.dispatch_tick(true), Some(Command::Previous));
}

#[test]
fn submit_after_the_consumer_is_gone_fails_locally() {
    let mut client = MprisClient::new();
    client.consumer_dropped();
    assert_eq!(client.submit_command(Command::Next), Err(CommandError::ConsumerGone));
    assert_eq!(client.next(), Err(CommandError::ConsumerGone));
    assert_eq!(client.play_pause(), Err(CommandError::ConsumerGone));
    assert_eq!(client.previous(), Err(CommandError::ConsumerGone));
    assert_eq!(client.seek(1), Err(CommandError::ConsumerGone));
    assert_eq!(client.pending_len(), 0);
    assert!(!client.consumer_alive());
}

#[test]
fn consumer_gone_loses_what_was_pending_and_keeps_the_preference() {
    let mut client = MprisClient::new();
    client.set_preferred_player(Some("mpv".to_string()));
    client.next().unwrap();
    client.consumer_dropped();
    assert_eq!(client.pending_len(), 0);
    assert_eq!(client.dispatch_tick(true), None);
    assert_eq!(client.preferred_player(), PlayerPreference::Named("mpv".to_string()));
}

#[test]
fn error_says_what_went_wrong() {
    assert_eq!(CommandError::ConsumerGone.message(), "the command dispatcher is gone");
}

#[test]
fn available_players_are_the_enumerated_ones_or_none() {
    let found = vec!["vlc".to_string(), "mpv".to_string()];
    assert_eq!(MprisClient::get_available_players(Some(found.clone())), found);
    assert_eq!(MprisClient::get_available_players(Some(Vec::new())), Vec::<String>::new());
    assert_eq!(MprisClient::get_available_players(None), Vec::<String>::new());
}

#[test]
fn intervals_are_as_documented() {
    assert_eq!(DISPATCH_INTERVAL_MS, 100);
    assert_eq!(SEEK_STEP_MICROS, 5_000_000);
}
