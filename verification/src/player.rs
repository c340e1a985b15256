//! The playback controller: a state machine over input and stream
//! events.
//!
//! The control loop that polls the terminal and the video stream lives
//! outside the library; it reports each observation as a
//! [`SessionEvent`] and performs the [`ControlAction`] handed back.
//! Everything the controller decides — pausing, speed, looping, help,
//! termination, when the terminal must be restored — is in here and
//! proved against one step function.

use vstd::prelude::*;
use vstd::arithmetic::div_mod::lemma_div_is_ordered;
use vstd::arithmetic::div_mod::lemma_div_multiples_vanish;
use vstd::string::StringExecFns;
use crate::utils;

verus! {

/// Playback flags and speed, owned by the control loop.
#[derive(Debug, Clone, Copy, PartialEq, Eq, Structural)]
pub struct PlaybackState {
    /// Frames are not advanced while set.
    pub paused: bool,
    /// Playback speed in hundredths, kept between 25 and 400.
    pub speed_centi: u32,
    /// Reopen the stream when it ends.
    pub loop_enabled: bool,
    /// The session is over; only terminal restoration remains.
    pub quit_requested: bool,
    /// The help overlay is shown instead of frames.
    pub show_help: bool,
}

/// One key of the player's control surface, already decoded from the
/// terminal's input events.
#[derive(Debug, Clone, Copy, PartialEq, Eq, Structural)]
pub enum InputEvent {
    /// Quit was requested (quit key, escape, or interrupt).
    Quit,
    /// The pause key.
    TogglePause,
    /// The speed-up key.
    SpeedUp,
    /// The slow-down key.
    SpeedDown,
    /// The loop-toggle key.
    ToggleLoop,
    /// The help-toggle key.
    ToggleHelp,
    /// The restart key.
    Restart,
    /// The terminal was resized to the given dimensions.
    Resize(u16, u16),
    /// Any key the player does not react to.
    Other,
}

/// One observation of the playback loop.
#[derive(Debug, Clone, Copy, PartialEq, Eq, Structural)]
pub enum SessionEvent {
    /// A decoded key press or terminal event.
    Input(InputEvent),
    /// The frame source reached its end.
    StreamEnd,
    /// The frame source failed.
    StreamError,
}

/// What the control loop must do after a step.
#[derive(Debug, Clone, Copy, PartialEq, Eq, Structural)]
pub enum ControlAction {
    /// Nothing beyond the state change.
    Idle,
    /// Tell the status collaborator that playback paused.
    NotifyPaused,
    /// Tell the status collaborator that playback resumed.
    NotifyPlaying,
    /// Reopen the frame source from its start and reset the counter.
    ReopenSource,
    /// Re-query the terminal size and refresh the renderer's cache.
    RefreshDimensions,
    /// Leave the loop and restore the terminal, exactly once.
    Shutdown,
}

impl PlaybackState {
    /// The speed stays within a quarter and four times normal.
    pub open spec fn wf(&self) -> bool {
        25 <= self.speed_centi <= 400
    }
}

/// The state a session starts in: playing at normal speed.
pub open spec fn initial_state() -> PlaybackState {
    PlaybackState {
        paused: false,
        speed_centi: 100,
        loop_enabled: false,
        quit_requested: false,
        show_help: false,
    }
}

impl Default for PlaybackState {
    /// The starting state: playing, normal speed, no looping, no
    /// help, not terminated.
    fn default() -> (s: Self)
        ensures
            s == initial_state(),
            s.wf(),
    {
        PlaybackState {
            paused: false,
            speed_centi: 100,
            loop_enabled: false,
            quit_requested: false,
            show_help: false,
        }
    }
}

/// One speed increment: a quarter faster, capped at four times normal.
pub open spec fn speed_up_spec(centi: int) -> int {
    let v = centi * 5 / 4;
    if v > 400 {
        400
    } else {
        v
    }
}

/// One speed decrement: a fifth slower, floored at a quarter of
/// normal.
pub open spec fn speed_down_spec(centi: int) -> int {
    let v = centi * 4 / 5;
    if v < 25 {
        25
    } else {
        v
    }
}

/// The state after one controller step. The terminated state is
/// absorbing: once `quit_requested` is set, no event changes the
/// state.
pub open spec fn step_state(s: PlaybackState, ev: SessionEvent) -> PlaybackState {
    if s.quit_requested {
        s
    } else {
        match ev {
            SessionEvent::Input(ie) => match ie {
                InputEvent::Quit => PlaybackState { quit_requested: true, ..s },
                InputEvent::TogglePause => PlaybackState { paused: !s.paused, ..s },
                InputEvent::SpeedUp => PlaybackState {
                    speed_centi: speed_up_spec(s.speed_centi as int) as u32,
                    ..s
                },
                InputEvent::SpeedDown => PlaybackState {
                    speed_centi: speed_down_spec(s.speed_centi as int) as u32,
                    ..s
                },
                InputEvent::ToggleLoop => PlaybackState { loop_enabled: !s.loop_enabled, ..s },
                InputEvent::ToggleHelp => PlaybackState { show_help: !s.show_help, ..s },
                InputEvent::Restart => s,
                InputEvent::Resize(_, _) => s,
                InputEvent::Other => s,
            },
            SessionEvent::StreamEnd => if s.loop_enabled {
                s
            } else {
                PlaybackState { quit_requested: true, ..s }
            },
            SessionEvent::StreamError => PlaybackState { quit_requested: true, ..s },
        }
    }
}

/// The action one controller step asks of the loop.
pub open spec fn step_action(s: PlaybackState, ev: SessionEvent) -> ControlAction {
    if s.quit_requested {
        ControlAction::Idle
    } else {
        match ev {
            SessionEvent::Input(ie) => match ie {
                InputEvent::Quit => ControlAction::Shutdown,
                InputEvent::TogglePause => if !s.paused {
                    ControlAction::NotifyPaused
                } else {
                    ControlAction::NotifyPlaying
                },
                InputEvent::Restart => ControlAction::ReopenSource,
                InputEvent::Resize(_, _) => ControlAction::RefreshDimensions,
                _ => ControlAction::Idle,
            },
            SessionEvent::StreamEnd => if s.loop_enabled {
                ControlAction::ReopenSource
            } else {
                ControlAction::Shutdown
            },
            SessionEvent::StreamError => ControlAction::Shutdown,
        }
    }
}

impl PlaybackState {
    /// Performs one controller step: updates the state as
    /// [`step_state`] says and reports the loop's duty as
    /// [`step_action`] says.
    pub fn handle_event(&mut self, event: SessionEvent) -> (action: ControlAction)
        requires
            old(self).wf(),
        ensures
            *final(self) == step_state(*old(self), event),
            action == step_action(*old(self), event),
            final(self).wf(),
    {
        proof {
            lemma_step_preserves_wf(*self, event);
        }
        if self.quit_requested {
            return ControlAction::Idle;
        }
        match event {
            SessionEvent::Input(ie) => match ie {
                InputEvent::Quit => {
                    self.quit_requested = true;
                    ControlAction::Shutdown
                },
                InputEvent::TogglePause => {
                    self.paused = !self.paused;
                    if self.paused {
                        ControlAction::NotifyPaused
                    } else {
                        ControlAction::NotifyPlaying
                    }
                },
                InputEvent::SpeedUp => {
                    let v = self.speed_centi * 5 / 4;
                    self.speed_centi = if v > 400 {
                        400
                    } else {
                        v
                    };
                    ControlAction::Idle
                },
                InputEvent::SpeedDown => {
                    let v = self.speed_centi * 4 / 5;
                    self.speed_centi = if v < 25 {
                        25
                    } else {
                        v
                    };
                    ControlAction::Idle
                },
                InputEvent::ToggleLoop => {
                    self.loop_enabled = !self.loop_enabled;
                    ControlAction::Idle
                },
                InputEvent::ToggleHelp => {
                    self.show_help = !self.show_help;
                    ControlAction::Idle
                },
                InputEvent::Restart => ControlAction::ReopenSource,
                InputEvent::Resize(_, _) => ControlAction::RefreshDimensions,
                InputEvent::Other => ControlAction::Idle,
            },
            SessionEvent::StreamEnd => {
                if self.loop_enabled {
                    ControlAction::ReopenSource
                } else {
                    self.quit_requested = true;
                    ControlAction::Shutdown
                }
            },
            SessionEvent::StreamError => {
                self.quit_requested = true;
                ControlAction::Shutdown
            },
        }
    }
}

/// Whether a frame's timestamp has reached the configured end bound,
/// which is an exclusive upper bound on playback time.
pub fn reached_end_bound(timestamp_ms: u64, end_ms: Option<u64>) -> (b: bool)
    ensures
        b == (end_ms matches Some(e) && timestamp_ms >= e),
{
    match end_ms {
        Some(e) => timestamp_ms >= e,
        None => false,
    }
}

/// Law: one step keeps the speed within its bounds.
pub proof fn lemma_step_preserves_wf(s: PlaybackState, ev: SessionEvent)
    requires
        s.wf(),
    ensures
        step_state(s, ev).wf(),
{
    let c = s.speed_centi as int;
    assert(c * 5 / 4 >= c) by {
        lemma_div_is_ordered(c * 4, c * 5, 4);
        lemma_div_multiples_vanish(c, 4);
    }
    assert(c * 4 / 5 <= c) by {
        lemma_div_is_ordered(c * 4, c * 5, 5);
        lemma_div_multiples_vanish(c, 5);
    }
    assert(c * 5 / 4 <= 500) by {
        lemma_div_is_ordered(c * 5, 2000, 4);
    }
    assert(c * 4 / 5 >= 0) by {
        vstd::arithmetic::div_mod::lemma_div_pos_is_pos(c * 4, 5);
    }
}

/// The state after a whole sequence of events.
pub open spec fn run_session(s: PlaybackState, events: Seq<SessionEvent>) -> PlaybackState
    decreases events.len(),
{
    if events.len() == 0 {
        s
    } else {
        run_session(step_state(s, events[0]), events.drop_first())
    }
}

/// How many steps of the sequence ask the loop to shut down.
pub open spec fn count_shutdowns(s: PlaybackState, events: Seq<SessionEvent>) -> nat
    decreases events.len(),
{
    if events.len() == 0 {
        0nat
    } else {
        (if step_action(s, events[0]) is Shutdown {
            1nat
        } else {
            0nat
        }) + count_shutdowns(step_state(s, events[0]), events.drop_first())
    }
}

/// Law: the speed never leaves `[25, 400]` hundredths — a quarter to
/// four times normal speed — however many speed events arrive.
pub proof fn lemma_speed_always_bounded(s: PlaybackState, events: Seq<SessionEvent>)
    requires
        s.wf(),
    ensures
        run_session(s, events).wf(),
        25 <= run_session(s, events).speed_centi <= 400,
    decreases events.len(),
{
    if events.len() > 0 {
        lemma_step_preserves_wf(s, events[0]);
        lemma_speed_always_bounded(step_state(s, events[0]), events.drop_first());
    }
}

/// Law: a step asks for shutdown exactly when it is the step that
/// terminates the session.
pub proof fn lemma_shutdown_iff_terminating(s: PlaybackState, ev: SessionEvent)
    requires
        !s.quit_requested,
    ensures
        step_action(s, ev) is Shutdown <==> step_state(s, ev).quit_requested,
{
}

/// Law: a terminated session stays terminated and never asks for
/// another shutdown.
pub proof fn lemma_terminated_absorbing(s: PlaybackState, events: Seq<SessionEvent>)
    requires
        s.quit_requested,
    ensures
        run_session(s, events) == s,
        count_shutdowns(s, events) == 0,
    decreases events.len(),
{
    if events.len() > 0 {
        assert(step_state(s, events[0]) == s);
        lemma_terminated_absorbing(s, events.drop_first());
    }
}

/// Law: terminal restoration happens exactly once per session — over
/// any sequence of events, a live session asks for shutdown at most
/// once, and exactly once when it ends terminated, however the end
/// came about (quit key, end of stream, or a stream error).
pub proof fn lemma_shutdown_exactly_once(s: PlaybackState, events: Seq<SessionEvent>)
    requires
        !s.quit_requested,
    ensures
        count_shutdowns(s, events) <= 1,
        count_shutdowns(s, events) == 1 <==> run_session(s, events).quit_requested,
    decreases events.len(),
{
    if events.len() > 0 {
        let s1 = step_state(s, events[0]);
        lemma_shutdown_iff_terminating(s, events[0]);
        if s1.quit_requested {
            lemma_terminated_absorbing(s1, events.drop_first());
        } else {
            lemma_shutdown_exactly_once(s1, events.drop_first());
        }
    }
}

/// The share of the video already played, in thousandths, capped at
/// the whole.
pub open spec fn progress_permille(timestamp_ms: nat, duration_ms: nat) -> nat {
    if duration_ms == 0 {
        0nat
    } else {
        let p = timestamp_ms * 1000 / duration_ms;
        if p > 1000 {
            1000nat
        } else {
            p
        }
    }
}

/// The status line shown under a frame: file name, frame counter,
/// elapsed and total time in seconds with one decimal, progress as a
/// percentage with one decimal, speed with two decimals, and the
/// target frame rate with one decimal.
pub open spec fn status_line_spec(
    filename: Seq<char>,
    frame_count: nat,
    timestamp_ms: nat,
    duration_ms: nat,
    speed_centi: nat,
    fps_milli: nat,
) -> Seq<char> {
    filename + " | Frame: "@ + utils::dec_digits(frame_count) + " | Time: "@ + utils::one_decimal(
        timestamp_ms / 100,
    ) + "s/"@ + utils::one_decimal(duration_ms / 100) + "s ("@ + utils::one_decimal(
        progress_permille(timestamp_ms, duration_ms),
    ) + "%) | Speed: "@ + utils::two_decimal(speed_centi) + "x | FPS: "@ + utils::one_decimal(
        fps_milli / 100,
    )
}

/// Builds the status line for one frame.
pub fn format_status(
    filename: &str,
    frame_count: u64,
    timestamp_ms: u64,
    duration_ms: u64,
    speed_centi: u32,
    fps_milli: u32,
) -> (r: String)
    ensures
        r@ == status_line_spec(
            filename@,
            frame_count as nat,
            timestamp_ms as nat,
            duration_ms as nat,
            speed_centi as nat,
            fps_milli as nat,
        ),
{
    let mut r = String::new();
    r.append(filename);
    r.append(" | Frame: ");
    utils::append_decimal(&mut r, frame_count);
    r.append(" | Time: ");
    utils::append_one_decimal(&mut r, timestamp_ms / 100);
    r.append("s/");
    utils::append_one_decimal(&mut r, duration_ms / 100);
    r.append("s (");
    let permille: u64 = if duration_ms == 0 {
        0
    } else {
        let p = ((timestamp_ms as u128) * 1000) / (duration_ms as u128);
        if p > 1000 {
            1000
        } else {
            p as u64
        }
    };
    utils::append_one_decimal(&mut r, permille);
    r.append("%) | Speed: ");
    utils::append_two_decimal(&mut r, speed_centi as u64);
    r.append("x | FPS: ");
    utils::append_one_decimal(&mut r, (fps_milli as u64) / 100);
    proof {
        assert(r@ =~= status_line_spec(
            filename@,
            frame_count as nat,
            timestamp_ms as nat,
            duration_ms as nat,
            speed_centi as nat,
            fps_milli as nat,
        ));
    }
    r
}

/// The label shown while a file is playing.
pub open spec fn playing_label(filename: Seq<char>) -> Seq<char> {
    seq!['\u{25B6}', ' '] + filename
}

/// The label shown while a file is paused.
pub open spec fn paused_label(filename: Seq<char>) -> Seq<char> {
    seq!['\u{23F8}', ' '] + filename
}

/// Builds the labels an external status-bar item is updated with.
/// Invoking the status-bar process with a label is the caller's work;
/// its failures are ignored, as the collaborator is fire-and-forget.
pub struct SketchyBarIntegration {
    /// The status-bar item the labels are destined for.
    pub item_name: String,
}

impl SketchyBarIntegration {
    /// Remembers the status-bar item to address.
    pub fn new(item_name: String) -> (s: Self)
        ensures
            s.item_name@ == item_name@,
    {
        SketchyBarIntegration { item_name }
    }

    /// The label for a playing file: a play mark and the file's name.
    pub fn set_playing(&self, filename: &str) -> (label: String)
        ensures
            label@ == playing_label(filename@),
    {
        proof {
            reveal_strlit("\u{25B6} ");
        }
        let mut label = String::from_str("\u{25B6} ");
        label.append(filename);
        proof {
            assert(label@ =~= playing_label(filename@));
        }
        label
    }

    /// The label for a paused file: a pause mark and the file's name.
    pub fn set_paused(&self, filename: &str) -> (label: String)
        ensures
            label@ == paused_label(filename@),
    {
        proof {
            reveal_strlit("\u{23F8} ");
        }
        let mut label = String::from_str("\u{23F8} ");
        label.append(filename);
        proof {
            assert(label@ =~= paused_label(filename@));
        }
        label
    }

    /// The empty label that clears the status-bar item.
    pub fn clear(&self) -> (label: String)
        ensures
            label@.len() == 0,
    {
        String::new()
    }
}

} // verus!
