//! The line protocol spoken over the player's control socket.
//!
//! Each request is one line of JSON of the shape `{"command": [...]}`,
//! terminated by a newline; the player answers with one line of JSON.  This
//! module fixes the exact text of each request line.  Opening the socket,
//! writing the line and reading the answer is the caller's business, and
//! any failure there is transient: the controller logs it and carries on.

use vstd::prelude::*;

verus! {

/// A single player-control request.
#[derive(Debug, PartialEq)]
pub enum PlayerCommand {
    /// Replace whatever is loaded with the file at `path`.
    LoadFile { path: String },
    /// Force the pause property to a known value.
    SetPause { pause: bool },
    /// Toggle the pause property.
    CyclePause,
    /// Ask the player to advance to its next queued entry.
    PlaylistNext,
}

/// What serde_json's string serializer returns for `s`: the JSON string
/// literal, quotes and escapes included.
pub uninterp spec fn json_string_text(s: Seq<char>) -> Seq<char>;

/// No character of `s` needs escaping inside a JSON string literal: no
/// quote, no backslash, no control character below U+0020.
pub open spec fn plain_json_text(s: Seq<char>) -> bool {
    forall|i: int| 0 <= i < s.len() ==> s[i] != '"' && s[i] != '\\' && (s[i] as u32) >= 0x20
}

/// Relies on serde_json: `Value::String` serialized by `to_string` is the
/// JSON string literal for `s`.  Its serializer escapes only `"`, `\` and
/// the control characters below U+0020, so a string free of those comes
/// back quoted and otherwise unchanged.
#[verifier::external_body]
fn json_string(s: &str) -> (r: String)
    ensures
        r@ == json_string_text(s@),
        plain_json_text(s@) ==> r@ == seq!['"'] + s@ + seq!['"'],
{
    serde_json::Value::String(s.to_string()).to_string()
}

/// The request line for `cmd`, newline not included.
pub open spec fn spec_command_line(cmd: PlayerCommand) -> Seq<char> {
    match cmd {
        PlayerCommand::LoadFile { path } => "{\"command\":["@ + json_string_text("loadfile"@)
            + ","@ + json_string_text(path@) + ","@ + json_string_text("replace"@) + "]}"@,
        PlayerCommand::SetPause { pause } => "{\"command\":["@ + json_string_text(
            "set_property"@,
        ) + ","@ + json_string_text("pause"@) + ","@ + (if pause {
            "true"@
        } else {
            "false"@
        }) + "]}"@,
        PlayerCommand::CyclePause => "{\"command\":["@ + json_string_text("cycle"@) + ","@
            + json_string_text("pause"@) + "]}"@,
        PlayerCommand::PlaylistNext => "{\"command\":["@ + json_string_text("playlist-next"@)
            + ","@ + json_string_text("force"@) + "]}"@,
    }
}

/// Serialize one request as its protocol line, without the trailing
/// newline; the caller appends the newline when writing to the socket.
pub fn encode_command(cmd: &PlayerCommand) -> (line: String)
    ensures
        line@ == spec_command_line(*cmd),
        cmd is CyclePause ==> line@ == "{\"command\":[\"cycle\",\"pause\"]}"@,
        cmd is PlaylistNext ==> line@ == "{\"command\":[\"playlist-next\",\"force\"]}"@,
        cmd matches PlayerCommand::SetPause { pause } ==> line@ == (if *pause {
            "{\"command\":[\"set_property\",\"pause\",true]}"@
        } else {
            "{\"command\":[\"set_property\",\"pause\",false]}"@
        }),
        cmd matches PlayerCommand::LoadFile { path } ==> (plain_json_text(path@) ==> line@
            == "{\"command\":[\"loadfile\",\""@ + path@ + "\",\"replace\"]}"@),
{
    let mut line = String::from_str("{\"command\":[");
    match cmd {
        PlayerCommand::LoadFile { path } => {
            let op = json_string("loadfile");
            line.append(op.as_str());
            line.append(",");
            let quoted = json_string(path.as_str());
            line.append(quoted.as_str());
            line.append(",");
            let mode = json_string("replace");
            line.append(mode.as_str());
        },
        PlayerCommand::SetPause { pause } => {
            let op = json_string("set_property");
            line.append(op.as_str());
            line.append(",");
            let prop = json_string("pause");
            line.append(prop.as_str());
            line.append(",");
            if *pause {
                line.append("true");
            } else {
                line.append("false");
            }
        },
        PlayerCommand::CyclePause => {
            let op = json_string("cycle");
            line.append(op.as_str());
            line.append(",");
            let prop = json_string("pause");
            line.append(prop.as_str());
        },
        PlayerCommand::PlaylistNext => {
            let op = json_string("playlist-next");
            line.append(op.as_str());
            line.append(",");
            let arg = json_string("force");
            line.append(arg.as_str());
        },
    }
    line.append("]}");
    proof {
        assert(line@ =~= spec_command_line(*cmd));
        reveal_strlit("{\"command\":[");
        reveal_strlit(",");
        reveal_strlit("]}");
        match cmd {
            PlayerCommand::LoadFile { path } => {
                reveal_strlit("loadfile");
                reveal_strlit("replace");
                assert(plain_json_text("loadfile"@));
                assert(plain_json_text("replace"@));
                if plain_json_text(path@) {
                    reveal_strlit("{\"command\":[\"loadfile\",\"");
                    reveal_strlit("\",\"replace\"]}");
                    assert(line@ =~= "{\"command\":[\"loadfile\",\""@ + path@
                        + "\",\"replace\"]}"@);
                }
            },
            PlayerCommand::SetPause { pause } => {
                reveal_strlit("set_property");
                reveal_strlit("pause");
                reveal_strlit("true");
                reveal_strlit("false");
                assert(plain_json_text("set_property"@));
                assert(plain_json_text("pause"@));
                if *pause {
                    reveal_strlit("{\"command\":[\"set_property\",\"pause\",true]}");
                    assert(line@ =~= "{\"command\":[\"set_property\",\"pause\",true]}"@);
                } else {
                    reveal_strlit("{\"command\":[\"set_property\",\"pause\",false]}");
                    assert(line@ =~= "{\"command\":[\"set_property\",\"pause\",false]}"@);
                }
            },
            PlayerCommand::CyclePause => {
                reveal_strlit("cycle");
                reveal_strlit("pause");
                assert(plain_json_text("cycle"@));
                assert(plain_json_text("pause"@));
                reveal_strlit("{\"command\":[\"cycle\",\"pause\"]}");
                assert(line@ =~= "{\"command\":[\"cycle\",\"pause\"]}"@);
            },
            PlayerCommand::PlaylistNext => {
                reveal_strlit("playlist-next");
                reveal_strlit("force");
                assert(plain_json_text("playlist-next"@));
                assert(plain_json_text("force"@));
                reveal_strlit("{\"command\":[\"playlist-next\",\"force\"]}");
                assert(line@ =~= "{\"command\":[\"playlist-next\",\"force\"]}"@);
            },
        }
    }
    line
}

} // verus!
