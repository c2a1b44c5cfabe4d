//! The player subprocess: how it is started and how it is torn down.
//!
//! The player itself runs outside this library; here live the exact
//! argument vector that configures it and the shutdown sequence that the
//! owning guard must walk on every exit path.  Each shutdown step is
//! followed by the next whatever became of it: a failed recorder stop
//! still leaves the player killed, reaped, and the socket artifact
//! removal attempted.

use vstd::prelude::*;

verus! {

/// The startup argument vector for the player: the initial file when one
/// is given, then the control-socket designation, a forced window, and
/// staying alive with nothing queued.  Playlist mode further asks the
/// player to remain open after the last file and to start paused, so that
/// the controller's explicit unpause after each load is authoritative.
pub open spec fn spec_player_args(
    initial: Option<Seq<char>>,
    socket_cli: Seq<char>,
    playlist_mode: bool,
) -> Seq<Seq<char>> {
    let head = match initial {
        Option::Some(f) => seq![f],
        Option::None => Seq::<Seq<char>>::empty(),
    };
    let base = head + seq![
        "--input-ipc-server="@ + socket_cli,
        "--force-window"@,
        "--idle=yes"@,
    ];
    if playlist_mode {
        base + seq!["--keep-open=yes"@, "--pause"@]
    } else {
        base
    }
}

/// Build the player's startup argument vector.
pub fn player_args(initial: &Option<String>, socket_cli: &str, playlist_mode: bool) -> (args: Vec<
    String,
>)
    ensures
        args.deep_view() == spec_player_args(
            match initial {
                Option::Some(f) => Option::Some(f@),
                Option::None => Option::None,
            },
            socket_cli@,
            playlist_mode,
        ),
{
    let mut args: Vec<String> = Vec::new();
    match initial {
        Some(f) => { args.push(f.clone()) },
        None => {},
    }
    let mut socket_arg = String::from_str("--input-ipc-server=");
    socket_arg.append(socket_cli);
    args.push(socket_arg);
    args.push(String::from_str("--force-window"));
    args.push(String::from_str("--idle=yes"));
    if playlist_mode {
        args.push(String::from_str("--keep-open=yes"));
        args.push(String::from_str("--pause"));
    }
    proof {
        assert(args.deep_view() =~= spec_player_args(
            match initial {
                Option::Some(f) => Option::Some(f@),
                Option::None => Option::None,
            },
            socket_cli@,
            playlist_mode,
        ));
    }
    args
}

/// One step of the shutdown sequence.
#[derive(Clone, Copy, PartialEq, Eq, Structural, Debug)]
pub enum ShutdownStep {
    /// Best-effort ask the recorder to stop.
    StopRecorder,
    /// Forcibly terminate the player subprocess.
    KillPlayer,
    /// Wait for the terminated subprocess so it is reaped, not leaked.
    ReapPlayer,
    /// Remove the control socket's filesystem artifact where the
    /// platform leaves one behind.
    RemoveSocket,
}

/// The step that follows `step`.  No step is conditional on an earlier
/// step's success: the sequence always runs to the end.
pub open spec fn spec_next_step(step: ShutdownStep) -> Option<ShutdownStep> {
    match step {
        ShutdownStep::StopRecorder => Option::Some(ShutdownStep::KillPlayer),
        ShutdownStep::KillPlayer => Option::Some(ShutdownStep::ReapPlayer),
        ShutdownStep::ReapPlayer => Option::Some(ShutdownStep::RemoveSocket),
        ShutdownStep::RemoveSocket => Option::None,
    }
}

/// The step to take after `step`, given whether `step` itself succeeded.
/// The contract names no condition on `succeeded`: failures are logged by
/// the caller and never cut the sequence short.
pub fn next_shutdown_step(step: ShutdownStep, succeeded: bool) -> (next: Option<ShutdownStep>)
    ensures
        next == spec_next_step(step),
{
    match step {
        ShutdownStep::StopRecorder => Some(ShutdownStep::KillPlayer),
        ShutdownStep::KillPlayer => Some(ShutdownStep::ReapPlayer),
        ShutdownStep::ReapPlayer => Some(ShutdownStep::RemoveSocket),
        ShutdownStep::RemoveSocket => None,
    }
}

/// The whole shutdown sequence, in the order it must run.
pub fn shutdown_plan() -> (plan: Vec<ShutdownStep>)
    ensures
        plan@ == seq![
            ShutdownStep::StopRecorder,
            ShutdownStep::KillPlayer,
            ShutdownStep::ReapPlayer,
            ShutdownStep::RemoveSocket,
        ],
{
    let mut plan: Vec<ShutdownStep> = Vec::new();
    plan.push(ShutdownStep::StopRecorder);
    plan.push(ShutdownStep::KillPlayer);
    plan.push(ShutdownStep::ReapPlayer);
    plan.push(ShutdownStep::RemoveSocket);
    proof {
        assert(plan@ =~= seq![
            ShutdownStep::StopRecorder,
            ShutdownStep::KillPlayer,
            ShutdownStep::ReapPlayer,
            ShutdownStep::RemoveSocket,
        ]);
    }
    plan
}

/// Law: the shutdown sequence is unconditional — what follows a step does
/// not depend on whether the step succeeded, so a recorder-stop failure
/// still leads to the kill, the reap and the socket cleanup.
pub proof fn lemma_shutdown_unconditional(step: ShutdownStep)
    ensures
        step is StopRecorder ==> spec_next_step(step) == Option::Some(ShutdownStep::KillPlayer),
        step is KillPlayer ==> spec_next_step(step) == Option::Some(ShutdownStep::ReapPlayer),
        step is ReapPlayer ==> spec_next_step(step) == Option::Some(ShutdownStep::RemoveSocket),
{
}

} // verus!
