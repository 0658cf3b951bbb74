use vstd::prelude::*;

verus! {

/// Where a recording session stands.
#[derive(Clone, Copy, Debug, PartialEq, Eq, Structural)]
pub enum Phase {
    /// An encoder process for the next segment is to be started.
    Spawning,
    /// Frames are being fed to the running encoder, one per pacer tick.
    Streaming,
    /// The encoder's input is to be closed and its exit awaited.
    Draining,
    /// The retained segments are to be merged into a clip.
    Finalizing,
    /// The session is over; nothing more is started.
    Stopped,
}

/// What one pacer tick observed.
#[derive(Clone, Copy, Debug, PartialEq, Eq, Structural)]
pub struct TickInput {
    /// Writing this tick's frame to the encoder failed.
    pub write_failed: bool,
    /// A shutdown request arrived on the control channel.
    pub shutdown: bool,
    /// The abort-recording key combination is held.
    pub abort_combo: bool,
    /// The save-clip hotkey is held.
    pub key_pressed: bool,
}

/// What the session does after a tick.
#[derive(Clone, Copy, Debug, PartialEq, Eq, Structural)]
pub enum TickAction {
    /// Keep streaming.
    Continue,
    /// End the segment and finalize a clip.
    Drain,
    /// Stop recording at once, without a clip.
    Abort,
    /// Leave the session loop, without a clip.
    Shutdown,
}

/// A key press starts when the key is down now and was up at the previous poll.
pub open spec fn rising_edge(was_down: bool, is_down: bool) -> bool {
    is_down && !was_down
}

pub open spec fn tick_action(key_was_down: bool, input: TickInput) -> TickAction {
    if input.shutdown {
        TickAction::Shutdown
    } else if input.abort_combo {
        TickAction::Abort
    } else if input.write_failed || rising_edge(key_was_down, input.key_pressed) {
        TickAction::Drain
    } else {
        TickAction::Continue
    }
}

pub open spec fn phase_after(a: TickAction) -> Phase {
    match a {
        TickAction::Continue => Phase::Streaming,
        TickAction::Drain => Phase::Draining,
        TickAction::Abort => Phase::Stopped,
        TickAction::Shutdown => Phase::Stopped,
    }
}

/// The segment rotation state machine. The hotkey's previous state is kept
/// across segments, so a key still held when the next segment starts does not
/// count as a new press.
pub struct Session {
    phase: Phase,
    key_was_down: bool,
}

impl Session {
    pub closed spec fn spec_phase(&self) -> Phase {
        self.phase
    }

    pub closed spec fn spec_key_was_down(&self) -> bool {
        self.key_was_down
    }

    /// A session about to start its first segment, with the hotkey up.
    pub fn new() -> (r: Session)
        ensures
            r.spec_phase() == Phase::Spawning,
            !r.spec_key_was_down(),
    {
        Session { phase: Phase::Spawning, key_was_down: false }
    }

    pub fn phase(&self) -> (r: Phase)
        ensures
            r == self.spec_phase(),
    {
        self.phase
    }

    /// The encoder process of a new segment has started.
    pub fn spawned(&mut self)
        requires
            old(self).spec_phase() == Phase::Spawning,
        ensures
            final(self).spec_phase() == Phase::Streaming,
            final(self).spec_key_was_down() == old(self).spec_key_was_down(),
    {
        self.phase = Phase::Streaming;
    }

    /// Decides what follows one tick. A shutdown request wins over everything
    /// else, then the abort combination, then a failed write or a new press of
    /// the hotkey.
    pub fn tick(&mut self, input: TickInput) -> (r: TickAction)
        requires
            old(self).spec_phase() == Phase::Streaming,
        ensures
            r == tick_action(old(self).spec_key_was_down(), input),
            final(self).spec_phase() == phase_after(r),
            final(self).spec_key_was_down() == input.key_pressed,
    {
        let was_down = self.key_was_down;
        self.key_was_down = input.key_pressed;
        let action = if input.shutdown {
            TickAction::Shutdown
        } else if input.abort_combo {
            TickAction::Abort
        } else if input.write_failed || (input.key_pressed && !was_down) {
            TickAction::Drain
        } else {
            TickAction::Continue
        };
        self.phase = match action {
            TickAction::Continue => Phase::Streaming,
            TickAction::Drain => Phase::Draining,
            _ => Phase::Stopped,
        };
        action
    }

    /// The encoder's input was closed and the process has exited.
    pub fn drained(&mut self)
        requires
            old(self).spec_phase() == Phase::Draining,
        ensures
            final(self).spec_phase() == Phase::Finalizing,
            final(self).spec_key_was_down() == old(self).spec_key_was_down(),
    {
        self.phase = Phase::Finalizing;
    }

    /// The clip finalizer has returned, whatever its outcome.
    pub fn finalized(&mut self)
        requires
            old(self).spec_phase() == Phase::Finalizing,
        ensures
            final(self).spec_phase() == Phase::Spawning,
            final(self).spec_key_was_down() == old(self).spec_key_was_down(),
    {
        self.phase = Phase::Spawning;
    }
}

/// A tick on which only the hotkey's state is reported.
pub open spec fn key_only(is_down: bool) -> TickInput {
    TickInput { write_failed: false, shutdown: false, abort_combo: false, key_pressed: is_down }
}

/// How many drains a run of ticks requests when only the hotkey changes,
/// starting with the key in state `was_down`.
pub open spec fn key_drains(was_down: bool, keys: Seq<bool>) -> nat
    decreases keys.len(),
{
    if keys.len() == 0 {
        0
    } else {
        (if tick_action(was_down, key_only(keys[0])) is Drain {
            1nat
        } else {
            0nat
        }) + key_drains(keys[0], keys.drop_first())
    }
}

pub open spec fn held(n: nat, is_down: bool) -> Seq<bool> {
    Seq::new(n, |_i: int| is_down)
}

proof fn lemma_key_drains_split(was_down: bool, a: Seq<bool>, b: Seq<bool>)
    requires
        a.len() > 0,
    ensures
        key_drains(was_down, a + b) == key_drains(was_down, a) + key_drains(a.last(), b),
    decreases a.len(),
{
    assert((a + b).drop_first() =~= a.drop_first() + b);
    if a.len() > 1 {
        lemma_key_drains_split(a[0], a.drop_first(), b);
        assert(a.drop_first().last() == a.last());
    } else {
        assert(a.drop_first() =~= Seq::<bool>::empty());
        assert(a.drop_first() + b =~= b);
    }
}

proof fn lemma_steady_key(was_down: bool, n: nat, is_down: bool)
    requires
        was_down == is_down,
    ensures
        key_drains(was_down, held(n, is_down)) == 0,
    decreases n,
{
    if n > 0 {
        assert(held(n, is_down).drop_first() =~= held((n - 1) as nat, is_down));
        lemma_steady_key(is_down, (n - 1) as nat, is_down);
    }
}

proof fn lemma_press(was_down: bool, n: nat)
    requires
        n > 0,
        !was_down,
    ensures
        key_drains(was_down, held(n, true)) == 1,
{
    assert(held(n, true).drop_first() =~= held((n - 1) as nat, true));
    lemma_steady_key(true, (n - 1) as nat, true);
}

proof fn lemma_release(was_down: bool, n: nat)
    requires
        n > 0,
    ensures
        key_drains(was_down, held(n, false)) == 0,
{
    assert(held(n, false).drop_first() =~= held((n - 1) as nat, false));
    lemma_steady_key(false, (n - 1) as nat, false);
}

/// Hotkey edge detection: a key pressed and then held for any number of ticks
/// requests exactly one drain; releasing it for a while and pressing it again
/// requests exactly one more.
pub proof fn lemma_hotkey_edges(pressed: nat, released: nat, pressed_again: nat)
    requires
        pressed > 0,
        released > 0,
        pressed_again > 0,
    ensures
        key_drains(false, held(pressed, true)) == 1,
        key_drains(false, held(pressed, true) + held(released, false)) == 1,
        key_drains(false, held(pressed, true) + held(released, false) + held(pressed_again, true))
            == 2,
{
    let a = held(pressed, true);
    let b = held(released, false);
    let c = held(pressed_again, true);
    lemma_press(false, pressed);
    lemma_key_drains_split(false, a, b);
    lemma_release(true, released);
    assert((a + b).last() == false);
    lemma_key_drains_split(false, a + b, c);
    lemma_press(false, pressed_again);
}

/// Shutdown: a tick that sees a shutdown request ends the session, whatever
/// else it observed, without draining or finalizing. No method of `Session`
/// leaves `Stopped`, so no segment is spawned afterwards.
pub proof fn lemma_shutdown_stops(key_was_down: bool, input: TickInput)
    requires
        input.shutdown,
    ensures
        tick_action(key_was_down, input) == TickAction::Shutdown,
        phase_after(tick_action(key_was_down, input)) == Phase::Stopped,
{
}

} // verus!
