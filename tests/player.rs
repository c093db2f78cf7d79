use quickshell::player::{
    player_action, player_command, player_report, player_status, volume_action, volume_command,
    volume_report, PlayerAction, PlayerOptions, PlayerStatus, VolumeAction, VolumeIcons,
};

fn options() -> PlayerOptions {
    PlayerOptions {
        color_error: "#dc322f".to_string(),
        icon_play: "P".to_string(),
        icon_pause: "Z".to_string(),
        icon_stop: "S".to_string(),
    }
}

fn icons() -> VolumeIcons {
    VolumeIcons { high: "H".to_string(), normal: "N".to_string(), low: "L".to_string() }
}

#[test]
fn paused_at_start_is_stopped() {
    assert_eq!(player_status("paused AlbumList 0.500 inorder on 0.000"), PlayerStatus::Stopped);
    assert_eq!(player_status("paused AlbumList 0.500 inorder on 12.345"), PlayerStatus::Paused);
    assert_eq!(player_status("playing AlbumList 0.500 inorder on 0.000"), PlayerStatus::Playing);
    assert_eq!(player_status("something else"), PlayerStatus::Unknown);
}

#[test]
fn report_lines_with_icons() {
    let r = player_report(Some("playing x on 3.000"), Some("Song / Artist"), Some("Song"), &options());
    assert_eq!(r.long, "P Song / Artist");
    assert_eq!(r.short, "P Song");
    assert_eq!(r.color, None);
    let r = player_report(Some("paused x on 0.000"), None, None, &options());
    assert_eq!(r.long, "S Long String Error");
    assert_eq!(r.short, "S Short String Error");
    let r = player_report(Some("odd"), Some("a"), Some("b"), &options());
    assert_eq!(r.long, "? a");
}

#[test]
fn player_not_answering_is_error_form() {
    let r = player_report(None, Some("a"), Some("b"), &options());
    assert_eq!(r.lines(), vec!["Quodlibet failed.".to_string(), "Quodlibet failed.".to_string(), "#dc322f".to_string()]);
}

#[test]
fn player_clicks() {
    assert_eq!(player_action(Some(1)), Some(PlayerAction::PlayPause));
    assert_eq!(player_action(Some(2)), Some(PlayerAction::ToggleWindow));
    assert_eq!(player_action(Some(3)), Some(PlayerAction::Stop));
    assert_eq!(player_action(Some(4)), Some(PlayerAction::Previous));
    assert_eq!(player_action(Some(5)), Some(PlayerAction::Next));
    assert_eq!(player_action(Some(6)), None);
    assert_eq!(player_action(None), None);
    assert_eq!(player_command(PlayerAction::PlayPause), "--play-pause");
    assert_eq!(player_command(PlayerAction::Next), "--next");
    assert_eq!(volume_action(Some(4)), Some(VolumeAction::Up));
    assert_eq!(volume_action(Some(1)), Some(VolumeAction::Up));
    assert_eq!(volume_action(Some(5)), Some(VolumeAction::Down));
    assert_eq!(volume_action(Some(2)), None);
    assert_eq!(volume_command(VolumeAction::Down), "--volume-down");
}

#[test]
fn volume_lines() {
    let r = volume_report(Some("playing AlbumList 0.500 inorder off"), &icons()).unwrap();
    assert_eq!(r.long, "N 50%");
    assert_eq!(r.short, "N 50%");
    let r = volume_report(Some("playing AlbumList 1.000 inorder off"), &icons()).unwrap();
    assert_eq!(r.long, "H 100%");
    let r = volume_report(Some("playing AlbumList 0.335 inorder off"), &icons()).unwrap();
    assert_eq!(r.long, "L 34%");
    let r = volume_report(Some("playing AlbumList 0.661 inorder off"), &icons()).unwrap();
    assert_eq!(r.long, "H 66%");
    let r = volume_report(None, &icons()).unwrap();
    assert_eq!(r.lines(), vec![" ".to_string(), " ".to_string()]);
    assert!(volume_report(Some("stopped"), &icons()).is_none());
}
