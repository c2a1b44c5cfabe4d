use mediasync::ipc::{encode_command, PlayerCommand};

#[test]
fn cycle_pause_line() {
    let line = encode_command(&PlayerCommand::CyclePause);
    assert_eq!(line, "{\"command\":[\"cycle\",\"pause\"]}");
}

#[test]
fn set_pause_lines() {
    let line = encode_command(&PlayerCommand::SetPause { pause: true });
    assert_eq!(line, "{\"command\":[\"set_property\",\"pause\",true]}");
    let line = encode_command(&PlayerCommand::SetPause { pause: false });
    assert_eq!(line, "{\"command\":[\"set_property\",\"pause\",false]}");
}

#[test]
fn playlist_next_line() {
    let line = encode_command(&PlayerCommand::PlaylistNext);
    assert_eq!(line, "{\"command\":[\"playlist-next\",\"force\"]}");
}

#[test]
fn loadfile_line() {
    let line = encode_command(&PlayerCommand::LoadFile {
        path: "/media/clip one.mp4".to_string(),
    });
    assert_eq!(
        line,
        "{\"command\":[\"loadfile\",\"/media/clip one.mp4\",\"replace\"]}"
    );
}

#[test]
fn loadfile_escapes_quotes_and_backslashes() {
    let line = encode_command(&PlayerCommand::LoadFile {
        path: "a\"b\\c.mp4".to_string(),
    });
    assert_eq!(
        line,
        "{\"command\":[\"loadfile\",\"a\\\"b\\\\c.mp4\",\"replace\"]}"
    );
}

#[test]
fn loadfile_line_matches_reference_serializer() {
    let path = "dir\u{7}/odd\"name\\x.mp4";
    let line = encode_command(&PlayerCommand::LoadFile { path: path.to_string() });
    let mut reference = String::from("{\"command\":[\"loadfile\",");
    reference.push_str(&serde_json::Value::String(path.to_string()).to_string());
    reference.push_str(",\"replace\"]}");
    assert_eq!(line, reference);
}
