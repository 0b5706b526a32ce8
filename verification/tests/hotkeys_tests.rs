use ya_player::hotkeys::{command_for_id, HotkeyIds};
use ya_player::player::PlayerCommand;

#[test]
fn hotkey_ids_map_to_player_commands() {
    assert_eq!(
        command_for_id(10, &[10, 11], &[20], &[30]),
        Some(PlayerCommand::PlayPause)
    );
    assert_eq!(
        command_for_id(20, &[10], &[20], &[30]),
        Some(PlayerCommand::Next)
    );
    assert_eq!(
        command_for_id(30, &[10], &[20], &[30]),
        Some(PlayerCommand::Previous)
    );
    assert_eq!(command_for_id(99, &[10], &[20], &[30]), None);
}

#[test]
fn hotkey_ids_allow_media_aliases_for_next_and_previous() {
    assert_eq!(
        command_for_id(21, &[10], &[20, 21], &[30, 31]),
        Some(PlayerCommand::Next)
    );
    assert_eq!(
        command_for_id(31, &[10], &[20, 21], &[30, 31]),
        Some(PlayerCommand::Previous)
    );
}

#[test]
fn registered_ids_map_back_to_their_commands() {
    let mut ids = HotkeyIds::new();
    ids.push_id(PlayerCommand::PlayPause, 10);
    ids.push_id(PlayerCommand::Next, 20);
    ids.push_id(PlayerCommand::Next, 21);
    ids.push_warning("MediaRewind: already registered".to_owned());
    assert_eq!(ids.command_for_id(10), Some(PlayerCommand::PlayPause));
    assert_eq!(ids.command_for_id(21), Some(PlayerCommand::Next));
    assert_eq!(ids.command_for_id(30), None);
    assert_eq!(ids.failure(), None);
}

#[test]
fn registration_fails_only_when_no_key_registered() {
    let mut ids = HotkeyIds::new();
    ids.push_warning("a: no".to_owned());
    ids.push_warning("b: no".to_owned());
    assert_eq!(ids.failure(), Some("a: no; b: no".to_owned()));
    ids.push_id(PlayerCommand::Previous, 5);
    assert_eq!(ids.failure(), None);
}
