//! Building the recorder tool's command-line invocations.
//!
//! The recorder is driven through an external command-line program; this
//! module only decides the exact argument vector for each action.  Running
//! the program, and tolerating its failure, is the caller's business: every
//! call site must treat a failed invocation as a warning, never as a reason
//! to stop the controller.

use vstd::prelude::*;

verus! {

/// The four operations of the recorder's control interface.
#[derive(Clone, Copy, PartialEq, Eq, Structural, Debug)]
pub enum RecorderAction {
    Start,
    Stop,
    Pause,
    Resume,
}

impl RecorderAction {
    /// The subcommand word the recorder tool expects for this action.
    pub open spec fn spec_subcommand(self) -> Seq<char> {
        match self {
            RecorderAction::Start => "start"@,
            RecorderAction::Stop => "stop"@,
            RecorderAction::Pause => "pause"@,
            RecorderAction::Resume => "resume"@,
        }
    }

    pub fn subcommand(&self) -> (word: &'static str)
        ensures
            word@ == self.spec_subcommand(),
    {
        match self {
            RecorderAction::Start => "start",
            RecorderAction::Stop => "stop",
            RecorderAction::Pause => "pause",
            RecorderAction::Resume => "resume",
        }
    }
}

/// Connection settings for the recorder tool.  An absent credential means
/// an unauthenticated invocation with no connection flags at all, not a
/// request carrying an empty credential.
pub struct RecorderConfig {
    pub password: Option<String>,
}

impl RecorderConfig {
    /// The abstract value of the configuration: the credential's
    /// characters, if one is configured.
    pub open spec fn view(&self) -> Option<Seq<char>> {
        match self.password {
            Option::None => Option::None,
            Option::Some(p) => Option::Some(p@),
        }
    }

    /// An empty password means "no credential configured".
    pub fn new(password: String) -> (cfg: RecorderConfig)
        ensures
            cfg@ == if password@.len() == 0 {
                Option::<Seq<char>>::None
            } else {
                Option::Some(password@)
            },
    {
        if password.as_str().is_empty() {
            RecorderConfig { password: None }
        } else {
            RecorderConfig { password: Some(password) }
        }
    }
}

/// The connection target handed to the recorder tool when a credential is
/// configured: a URL-like scheme embedding the credential.
pub open spec fn spec_websocket_url(password: Seq<char>) -> Seq<char> {
    "obsws://localhost:4455/"@ + password
}

/// The whole argument vector for one recorder invocation: the connection
/// flags first when a credential is configured, then the subcommand pair.
pub open spec fn spec_recorder_args(cred: Option<Seq<char>>, action: RecorderAction) -> Seq<
    Seq<char>,
> {
    let tail = seq!["recording"@, action.spec_subcommand()];
    match cred {
        Option::None => tail,
        Option::Some(p) => seq!["--websocket"@, spec_websocket_url(p)] + tail,
    }
}

/// Build the argument vector for invoking the recorder tool with `action`.
pub fn recorder_args(cfg: &RecorderConfig, action: RecorderAction) -> (args: Vec<String>)
    ensures
        args.deep_view() == spec_recorder_args(cfg@, action),
{
    let mut args: Vec<String> = Vec::new();
    match &cfg.password {
        Some(p) => {
            args.push(String::from_str("--websocket"));
            let mut url = String::from_str("obsws://localhost:4455/");
            url.append(p.as_str());
            args.push(url);
        },
        None => {},
    }
    args.push(String::from_str("recording"));
    args.push(String::from_str(action.subcommand()));
    proof {
        assert(args.deep_view() =~= spec_recorder_args(cfg@, action));
    }
    args
}

} // verus!
