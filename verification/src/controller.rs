//! The synchronization controller: the single authority that turns trigger
//! observations into player and recorder commands.
//!
//! The controller owns the playlist cursor and the optimistically tracked
//! pause and recording flags.  Once per poll tick the surrounding loop
//! reports three observations — is the advance marker present, is the
//! pause marker present, has the player process exited — and `tick`
//! answers with the one outcome of that tick: which marker to consume and
//! which commands to issue.  At most one marker is acted on per tick; the
//! other, if present, is left for a later tick.
//!
//! The flags are tracked without read-back: a command that fails on the
//! wire still flips the local flag, so the local state can drift from the
//! true remote state.  That trade-off is deliberate and kept.

use vstd::prelude::*;

use crate::ipc::PlayerCommand;
use crate::playlist::MediaItem;
use crate::recorder::RecorderAction;

verus! {

/// Which trigger marker a tick consumed.
#[derive(Clone, Copy, PartialEq, Eq, Structural, Debug)]
pub enum MarkerKind {
    Advance,
    PauseToggle,
}

/// Everything one poll tick decided.
#[derive(Debug, PartialEq)]
pub enum TickOutcome {
    /// The player process is gone: leave the loop and run the shutdown
    /// sequence.
    Shutdown,
    /// An advance marker fired with an item left to play: send `load`,
    /// then `unpause`, and show a notification with `notice`.
    Loaded { index: usize, load: PlayerCommand, unpause: PlayerCommand, notice: String },
    /// An advance marker fired past the last item: consume the marker,
    /// log the end of the list, change nothing.
    EndOfList,
    /// A pause marker fired with an item loaded: send `toggle` to the
    /// player, then `recorder` to the recorder.
    Toggled { toggle: PlayerCommand, recorder: RecorderAction },
    /// A pause marker fired before anything was loaded: consume the
    /// marker, do nothing.
    NothingLoaded,
    /// No marker present and the player alive: nothing to do.
    Idle,
}

impl TickOutcome {
    /// Which marker this outcome acknowledges.
    pub open spec fn spec_consumed(&self) -> Option<MarkerKind> {
        match self {
            TickOutcome::Loaded { .. } => Option::Some(MarkerKind::Advance),
            TickOutcome::EndOfList => Option::Some(MarkerKind::Advance),
            TickOutcome::Toggled { .. } => Option::Some(MarkerKind::PauseToggle),
            TickOutcome::NothingLoaded => Option::Some(MarkerKind::PauseToggle),
            TickOutcome::Shutdown => Option::None,
            TickOutcome::Idle => Option::None,
        }
    }

    /// The marker to delete before acting on this outcome.  Deleting it
    /// first is the sole acknowledgment: a failed downstream action must
    /// not cause the event to replay.
    pub fn consumed_marker(&self) -> (m: Option<MarkerKind>)
        ensures
            m == self.spec_consumed(),
    {
        match self {
            TickOutcome::Loaded { .. } => Some(MarkerKind::Advance),
            TickOutcome::EndOfList => Some(MarkerKind::Advance),
            TickOutcome::Toggled { .. } => Some(MarkerKind::PauseToggle),
            TickOutcome::NothingLoaded => Some(MarkerKind::PauseToggle),
            TickOutcome::Shutdown => None,
            TickOutcome::Idle => None,
        }
    }
}

/// The index an advance event would load: the successor of the cursor, or
/// the first item when nothing is loaded yet.
pub open spec fn next_index(cursor: Option<usize>) -> int {
    match cursor {
        Option::None => 0,
        Option::Some(i) => i + 1,
    }
}

/// The cursor after one advance event against a playlist of length `len`:
/// one step forward when an item is left, unchanged otherwise.
pub open spec fn spec_advance(cursor: Option<usize>, len: int) -> Option<usize> {
    if next_index(cursor) < len {
        Option::Some(next_index(cursor) as usize)
    } else {
        cursor
    }
}

/// Which marker one tick consumes: the player's death preempts both
/// markers, and the advance marker is served before the pause marker.
pub open spec fn spec_tick_event(adv: bool, pse: bool, exited: bool) -> Option<MarkerKind> {
    if exited {
        Option::None
    } else if adv {
        Option::Some(MarkerKind::Advance)
    } else if pse {
        Option::Some(MarkerKind::PauseToggle)
    } else {
        Option::None
    }
}

/// The cursor after one tick.
pub open spec fn spec_tick_cursor(
    cursor: Option<usize>,
    len: int,
    adv: bool,
    pse: bool,
    exited: bool,
) -> Option<usize> {
    if spec_tick_event(adv, pse, exited) == Option::Some(MarkerKind::Advance) {
        spec_advance(cursor, len)
    } else {
        cursor
    }
}

/// The pause flag after one tick: a successful load forces play, a pause
/// event with an item loaded flips the flag, everything else keeps it.
pub open spec fn spec_tick_paused(
    cursor: Option<usize>,
    paused: bool,
    len: int,
    adv: bool,
    pse: bool,
    exited: bool,
) -> bool {
    match spec_tick_event(adv, pse, exited) {
        Option::Some(MarkerKind::Advance) => if next_index(cursor) < len {
            false
        } else {
            paused
        },
        Option::Some(MarkerKind::PauseToggle) => if cursor is Some {
            !paused
        } else {
            paused
        },
        Option::None => paused,
    }
}

/// The outcome of an effective advance: load `item`, force play, notify.
pub open spec fn advance_outcome(out: TickOutcome, item: MediaItem, j: int) -> bool {
    match out {
        TickOutcome::Loaded { index, load, unpause, notice } => {
            &&& index == j
            &&& match load {
                PlayerCommand::LoadFile { path } => path@ == item.path@,
                _ => false,
            }
            &&& match unpause {
                PlayerCommand::SetPause { pause } => pause == false,
                _ => false,
            }
            &&& notice@ == item.label@
        },
        _ => false,
    }
}

/// The outcome of a pause toggle that lands on `now_paused`: toggle the
/// player, then pause or resume the recorder to match.
pub open spec fn toggle_outcome(out: TickOutcome, now_paused: bool) -> bool {
    match out {
        TickOutcome::Toggled { toggle, recorder } => {
            &&& toggle is CyclePause
            &&& recorder == if now_paused {
                RecorderAction::Pause
            } else {
                RecorderAction::Resume
            }
        },
        _ => false,
    }
}

/// The controller's whole local state.
pub struct Controller {
    /// The ordered playlist, fixed at startup.
    pub playlist: Vec<MediaItem>,
    /// The index of the item loaded into the player, or `None` before the
    /// first load.  Moves only forward, one step at a time.
    pub cursor: Option<usize>,
    /// The locally tracked pause flag; speculative, never read back.
    pub is_paused: bool,
    /// The locally tracked recording flag; speculative, never read back.
    pub recorder_running: bool,
}

impl Controller {
    /// Well-formedness: the cursor stays inside the non-empty playlist.
    pub open spec fn wf(&self) -> bool {
        &&& self.playlist.len() > 0
        &&& match self.cursor {
            Option::Some(i) => i < self.playlist.len(),
            Option::None => true,
        }
    }

    /// Build a controller over `playlist`.  An empty playlist is a fatal
    /// startup condition, so none is accepted here: the caller aborts.
    pub fn new(playlist: Vec<MediaItem>) -> (r: Option<Controller>)
        ensures
            r is Some <==> playlist.len() > 0,
            r matches Some(c) ==> {
                &&& c.wf()
                &&& c.playlist == playlist
                &&& c.cursor is None
                &&& c.is_paused == true
                &&& c.recorder_running == false
            },
    {
        if playlist.len() == 0 {
            None
        } else {
            Some(Controller { playlist, cursor: None, is_paused: true, recorder_running: false })
        }
    }

    /// Note that recording was requested at startup, and say which
    /// recorder command to issue.  The flag is optimistic: it is set even
    /// if the invocation later fails.
    pub fn begin_recording(&mut self) -> (action: RecorderAction)
        ensures
            action == RecorderAction::Start,
            final(self).recorder_running == true,
            final(self).playlist == old(self).playlist,
            final(self).cursor == old(self).cursor,
            final(self).is_paused == old(self).is_paused,
    {
        self.recorder_running = true;
        RecorderAction::Start
    }

    /// One poll tick.  `advance_present` and `pause_present` report the
    /// two trigger markers, `player_exited` the liveness check; the
    /// outcome names the marker to consume and the commands to issue.
    pub fn tick(&mut self, advance_present: bool, pause_present: bool, player_exited: bool) -> (out:
        TickOutcome)
        requires
            old(self).wf(),
        ensures
            final(self).wf(),
            final(self).playlist == old(self).playlist,
            final(self).recorder_running == old(self).recorder_running,
            final(self).cursor == spec_tick_cursor(
                old(self).cursor,
                old(self).playlist.len() as int,
                advance_present,
                pause_present,
                player_exited,
            ),
            final(self).is_paused == spec_tick_paused(
                old(self).cursor,
                old(self).is_paused,
                old(self).playlist.len() as int,
                advance_present,
                pause_present,
                player_exited,
            ),
            out.spec_consumed() == spec_tick_event(
                advance_present,
                pause_present,
                player_exited,
            ),
            out is Shutdown <==> player_exited,
            ({
                let len = old(self).playlist.len() as int;
                let j = next_index(old(self).cursor);
                if player_exited {
                    *final(self) == *old(self)
                } else if advance_present {
                    if j < len {
                        advance_outcome(out, old(self).playlist[j], j)
                    } else {
                        *final(self) == *old(self) && out is EndOfList
                    }
                } else if pause_present {
                    if old(self).cursor is Some {
                        toggle_outcome(out, !old(self).is_paused)
                    } else {
                        *final(self) == *old(self) && out is NothingLoaded
                    }
                } else {
                    *final(self) == *old(self) && out is Idle
                }
            }),
    {
        if player_exited {
            return TickOutcome::Shutdown;
        }
        if advance_present {
            let j: usize = match self.cursor {
                None => 0,
                Some(i) => i + 1,
            };
            if j < self.playlist.len() {
                let item = &self.playlist[j];
                let load = PlayerCommand::LoadFile { path: item.path.clone() };
                let notice = item.label.clone();
                self.cursor = Some(j);
                self.is_paused = false;
                return TickOutcome::Loaded {
                    index: j,
                    load,
                    unpause: PlayerCommand::SetPause { pause: false },
                    notice,
                };
            }
            return TickOutcome::EndOfList;
        }
        if pause_present {
            if self.cursor.is_some() {
                self.is_paused = !self.is_paused;
                let recorder = if self.is_paused {
                    RecorderAction::Pause
                } else {
                    RecorderAction::Resume
                };
                return TickOutcome::Toggled { toggle: PlayerCommand::CyclePause, recorder };
            }
            return TickOutcome::NothingLoaded;
        }
        TickOutcome::Idle
    }
}

/// `a` is at or before `b` in cursor order, `None` being the start.
pub open spec fn cursor_le(a: Option<usize>, b: Option<usize>) -> bool {
    match (a, b) {
        (Option::None, _) => true,
        (Option::Some(i), Option::Some(j)) => i <= j,
        (Option::Some(_), Option::None) => false,
    }
}

/// The cursor after `n` advance events.
pub open spec fn run_advances(cursor: Option<usize>, len: int, n: nat) -> Option<usize>
    decreases n,
{
    if n == 0 {
        cursor
    } else {
        spec_advance(run_advances(cursor, len, (n - 1) as nat), len)
    }
}

/// Law: one advance event never moves the cursor backward, and when it
/// moves at all it moves by exactly one step — to the first item from the
/// start, to the successor otherwise.
pub proof fn lemma_advance_step(cursor: Option<usize>, len: int)
    requires
        len <= usize::MAX,
        cursor matches Some(i) ==> i < len,
    ensures
        cursor_le(cursor, spec_advance(cursor, len)),
        spec_advance(cursor, len) == cursor || spec_advance(cursor, len) == Option::Some(
            next_index(cursor) as usize,
        ),
        spec_advance(cursor, len) != cursor ==> next_index(cursor) < len,
{
}

/// Law: once the cursor sits on the last item, further advance events
/// change nothing.
pub proof fn lemma_advance_saturates(len: int, n: nat)
    requires
        1 <= len <= usize::MAX,
    ensures
        run_advances(Option::Some((len - 1) as usize), len, n) == Option::Some((len - 1) as usize),
    decreases n,
{
    if n > 0 {
        lemma_advance_saturates(len, (n - 1) as nat);
    }
}

/// Law: over any number of advance events the cursor is non-decreasing
/// and stays inside the playlist.
pub proof fn lemma_cursor_monotonic(cursor: Option<usize>, len: int, n: nat)
    requires
        len <= usize::MAX,
        cursor matches Some(i) ==> i < len,
    ensures
        cursor_le(cursor, run_advances(cursor, len, n)),
        run_advances(cursor, len, n) matches Some(i) ==> i < len,
    decreases n,
{
    if n > 0 {
        lemma_cursor_monotonic(cursor, len, (n - 1) as nat);
        lemma_advance_step(run_advances(cursor, len, (n - 1) as nat), len);
    }
}

/// The cursor after a whole sequence of ticks, each a triple of the
/// observations `(advance_present, pause_present, player_exited)`.
pub open spec fn run_ticks(
    cursor: Option<usize>,
    len: int,
    events: Seq<(bool, bool, bool)>,
) -> Option<usize>
    decreases events.len(),
{
    if events.len() == 0 {
        cursor
    } else {
        let e = events.last();
        spec_tick_cursor(run_ticks(cursor, len, events.drop_last()), len, e.0, e.1, e.2)
    }
}

/// Law: over any sequence of ticks, whatever mix of events they carry,
/// the cursor never decreases and stays inside the playlist.
pub proof fn lemma_run_ticks_monotonic(
    cursor: Option<usize>,
    len: int,
    events: Seq<(bool, bool, bool)>,
)
    requires
        len <= usize::MAX,
        cursor matches Some(i) ==> i < len,
    ensures
        cursor_le(cursor, run_ticks(cursor, len, events)),
        run_ticks(cursor, len, events) matches Some(i) ==> i < len,
    decreases events.len(),
{
    if events.len() > 0 {
        lemma_run_ticks_monotonic(cursor, len, events.drop_last());
        let prev = run_ticks(cursor, len, events.drop_last());
        let e = events.last();
        lemma_tick_cursor_monotonic(prev, len, e.0, e.1, e.2);
    }
}

/// Law: no tick moves the cursor backward, whatever combination of
/// events fired.
pub proof fn lemma_tick_cursor_monotonic(
    cursor: Option<usize>,
    len: int,
    adv: bool,
    pse: bool,
    exited: bool,
)
    requires
        len <= usize::MAX,
        cursor matches Some(i) ==> i < len,
    ensures
        cursor_le(cursor, spec_tick_cursor(cursor, len, adv, pse, exited)),
{
    if spec_tick_event(adv, pse, exited) == Option::Some(MarkerKind::Advance) {
        lemma_advance_step(cursor, len);
    }
}

/// Law: a tick consumes at most one marker, and with both markers present
/// exactly the advance marker is consumed — the pause marker waits for a
/// later tick.
pub proof fn lemma_tick_mutual_exclusion(adv: bool, pse: bool, exited: bool)
    ensures
        adv && pse && !exited ==> spec_tick_event(adv, pse, exited) == Option::Some(
            MarkerKind::Advance,
        ),
        spec_tick_event(adv, pse, exited) == Option::Some(MarkerKind::PauseToggle) ==> !adv,
{
}

/// Law: a marker that is absent is never acted on — a tick without the
/// advance marker consumes no advance event, and likewise for pause, so a
/// marker deleted on one tick cannot re-trigger on the next.
pub proof fn lemma_absent_marker_no_event(adv: bool, pse: bool, exited: bool)
    ensures
        !adv ==> spec_tick_event(adv, pse, exited) != Option::Some(MarkerKind::Advance),
        !pse ==> spec_tick_event(adv, pse, exited) != Option::Some(MarkerKind::PauseToggle),
{
}

/// Law: two pause-toggle ticks cancel out.  From an unpaused state with
/// an item loaded, the first toggle pauses and the second returns the
/// state to unpaused, the cursor untouched throughout.
pub proof fn lemma_pause_toggle_parity(cursor: Option<usize>, len: int)
    requires
        cursor is Some,
    ensures
        ({
            let p1 = spec_tick_paused(cursor, false, len, false, true, false);
            let c1 = spec_tick_cursor(cursor, len, false, true, false);
            let p2 = spec_tick_paused(c1, p1, len, false, true, false);
            p1 == true && c1 == cursor && p2 == false
        }),
{
}

} // verus!
