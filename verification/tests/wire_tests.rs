use soundstorm::wire::{command_line, player_arguments, property_request, PlayerCommand};

#[test]
fn command_line_frames_the_words() {
    assert_eq!(command_line("\"quit\""), "{\"command\": [\"quit\"]}\n");
}

#[test]
fn command_line_with_no_words() {
    assert_eq!(command_line(""), "{\"command\": []}\n");
}

#[test]
fn property_request_names_the_property() {
    assert_eq!(
        property_request("media-title"),
        "{\"command\": [\"get_property\", \"media-title\"]}\n"
    );
}

#[test]
fn property_request_does_not_escape() {
    assert_eq!(
        property_request("a\"b"),
        "{\"command\": [\"get_property\", \"a\"b\"]}\n"
    );
}

#[test]
fn pause_command_line() {
    assert_eq!(PlayerCommand::CyclePause.arguments(), "\"cycle\", \"pause\"");
    assert_eq!(
        PlayerCommand::CyclePause.line(),
        "{\"command\": [\"cycle\", \"pause\"]}\n"
    );
}

#[test]
fn quit_command_line() {
    assert_eq!(PlayerCommand::Quit.arguments(), "\"quit\"");
    assert_eq!(PlayerCommand::Quit.line(), "{\"command\": [\"quit\"]}\n");
}

#[test]
fn player_arguments_name_stream_then_socket() {
    let args = player_arguments("/tmp/mpv-soundstorm.sock", "http://example.org/live");
    assert_eq!(
        args,
        vec![
            "http://example.org/live".to_string(),
            "--input-ipc-server=/tmp/mpv-soundstorm.sock".to_string(),
        ]
    );
}
