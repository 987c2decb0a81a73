use empress::choices::{
    player_choices, preference_for_choice, restored_selection, CHOICES_REFRESH_SECS,
};
use empress::preference::PlayerPreference;

fn names(list: &[&str]) -> Vec<String> {
    list.iter().map(|name| name.to_string()).collect()
}

#[test]
fn choices_start_with_auto() {
    assert_eq!(player_choices(&names(&["vlc", "mpv"])), names(&["Auto", "vlc", "mpv"]));
}

#[test]
fn choices_without_players_hold_auto_alone() {
    assert_eq!(player_choices(&Vec::new()), names(&["Auto"]));
}

#[test]
fn first_choice_is_auto() {
    let choices = player_choices(&names(&["vlc", "mpv"]));
    assert_eq!(preference_for_choice(&choices, 0), Some(PlayerPreference::Auto));
}

#[test]
fn later_choice_names_its_player() {
    let choices = player_choices(&names(&["vlc", "mpv"]));
    assert_eq!(
        preference_for_choice(&choices, 1),
        Some(PlayerPreference::Named("vlc".to_string()))
    );
    assert_eq!(
        preference_for_choice(&choices, 2),
        Some(PlayerPreference::Named("mpv".to_string()))
    );
}

#[test]
fn choice_beyond_the_list_changes_nothing() {
    let choices = player_choices(&names(&["vlc"]));
    assert_eq!(preference_for_choice(&choices, 2), None);
    assert_eq!(preference_for_choice(&choices, u32::MAX), None);
}

#[test]
fn selection_is_restored_while_the_list_reaches_it() {
    assert_eq!(restored_selection(2, 3), Some(2));
    assert_eq!(restored_selection(0, 1), Some(0));
    assert_eq!(restored_selection(3, 3), None);
    assert_eq!(restored_selection(u32::MAX, 5), None);
    assert_eq!(restored_selection(0, 0), None);
}

#[test]
fn list_is_refreshed_every_five_seconds() {
    assert_eq!(CHOICES_REFRESH_SECS, 5);
}
