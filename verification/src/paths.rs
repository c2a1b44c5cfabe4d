//! Well-known filesystem names: the two trigger markers and the two
//! string forms of the player's control-socket address.
//!
//! The address of a local socket is written differently on the two
//! platforms, and differently again for the player's command line and for
//! a client connect.  Both forms are derived here from a single platform
//! switch, so no caller ever branches on the platform itself.

use vstd::prelude::*;

verus! {

/// The platform family, chosen once at startup by the surrounding binary.
#[derive(Clone, Copy, PartialEq, Eq, Structural, Debug)]
pub enum Platform {
    /// Local sockets are filesystem paths.
    Unix,
    /// Local sockets are named pipes.
    Windows,
}

/// `name` under directory `dir`, with exactly one separator between them.
pub open spec fn spec_join_path(dir: Seq<char>, name: Seq<char>) -> Seq<char> {
    if dir.len() > 0 && dir.last() == '/' {
        dir + name
    } else {
        dir + "/"@ + name
    }
}

/// Join a file name onto a directory path.
pub fn join_path(dir: &str, name: &str) -> (r: String)
    ensures
        r@ == spec_join_path(dir@, name@),
{
    let len = dir.unicode_len();
    let mut r = String::from_str(dir);
    if len == 0 || dir.get_char(len - 1) != '/' {
        r.append("/");
    }
    r.append(name);
    r
}

/// The pause-toggle trigger marker, inside the temporary directory.
pub fn pause_marker_path(temp_dir: &str) -> (r: String)
    ensures
        r@ == spec_join_path(temp_dir@, "obs_mpv_toggle_pause"@),
{
    join_path(temp_dir, "obs_mpv_toggle_pause")
}

/// The advance-to-next trigger marker, inside the temporary directory.
pub fn advance_marker_path(temp_dir: &str) -> (r: String)
    ensures
        r@ == spec_join_path(temp_dir@, "obs_mpv_next"@),
{
    join_path(temp_dir, "obs_mpv_next")
}

/// The socket address as the player's command line wants it: a full
/// filesystem path on Unix, the named-pipe path form on Windows.
pub open spec fn spec_socket_cli_form(platform: Platform, temp_dir: Seq<char>) -> Seq<char> {
    match platform {
        Platform::Unix => spec_join_path(temp_dir, "mpv.sock"@),
        Platform::Windows => "\\\\.\\pipe\\"@ + "mpv.sock"@,
    }
}

/// The socket address as a connecting client wants it: the same full path
/// on Unix, the bare pipe name on Windows.
pub open spec fn spec_socket_connect_form(platform: Platform, temp_dir: Seq<char>) -> Seq<char> {
    match platform {
        Platform::Unix => spec_join_path(temp_dir, "mpv.sock"@),
        Platform::Windows => "mpv.sock"@,
    }
}

/// The control-socket address for the player's command line.
pub fn socket_cli_form(platform: Platform, temp_dir: &str) -> (r: String)
    ensures
        r@ == spec_socket_cli_form(platform, temp_dir@),
{
    match platform {
        Platform::Unix => join_path(temp_dir, "mpv.sock"),
        Platform::Windows => {
            let mut r = String::from_str("\\\\.\\pipe\\");
            r.append("mpv.sock");
            r
        },
    }
}

/// The control-socket address for a client connect.
pub fn socket_connect_form(platform: Platform, temp_dir: &str) -> (r: String)
    ensures
        r@ == spec_socket_connect_form(platform, temp_dir@),
{
    match platform {
        Platform::Unix => join_path(temp_dir, "mpv.sock"),
        Platform::Windows => String::from_str("mpv.sock"),
    }
}

/// On Unix the socket leaves a filesystem artifact that shutdown removes;
/// a named pipe vanishes with its last handle.
pub fn socket_needs_cleanup(platform: Platform) -> (r: bool)
    ensures
        r <==> platform is Unix,
{
    match platform {
        Platform::Unix => true,
        Platform::Windows => false,
    }
}

} // verus!
