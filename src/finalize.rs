use vstd::prelude::*;
use vstd::set_lib::lemma_len_subset;
use crate::spawn::{
    clip_name_at, clip_name_spec, concat_args, concat_args_spec, views, MAX_UNIX_SECS,
    MIN_UNIX_SECS,
};

verus! {

/// Name of the transient concatenation manifest.
pub const MANIFEST_FILE: &'static str = "concat_list.txt";

/// Output pattern handed to the encoder; `%d` becomes the slot index.
pub const SEGMENT_PATTERN: &'static str = "buffer%d.mp4";

/// One of the two rotating segment files.
#[derive(Clone, Copy, Debug, PartialEq, Eq, Structural)]
pub enum Slot {
    Zero,
    One,
}

pub open spec fn slot_name(s: Slot) -> Seq<char> {
    match s {
        Slot::Zero => "buffer0.mp4"@,
        Slot::One => "buffer1.mp4"@,
    }
}

/// The file name of a segment slot.
pub fn slot_file_name(s: Slot) -> (r: &'static str)
    ensures
        r@ == slot_name(s),
{
    match s {
        Slot::Zero => "buffer0.mp4",
        Slot::One => "buffer1.mp4",
    }
}

/// The slot that the encoder writes the `k`-th segment file to, counting from
/// zero: the slots are reused in turn.
pub open spec fn slot_of(k: nat) -> Slot {
    if k % 2 == 0 {
        Slot::Zero
    } else {
        Slot::One
    }
}

pub fn slot_of_segment(k: u64) -> (r: Slot)
    ensures
        r == slot_of(k as nat),
{
    if k % 2 == 0 {
        Slot::Zero
    } else {
        Slot::One
    }
}

/// The slots that hold files after the first `n` segment files were written.
pub open spec fn slots_written(n: nat) -> Set<Slot> {
    Set::new(|s: Slot| exists|k: nat| k < n && slot_of(k) == s)
}

/// Rotation bound: however many segment files have been written, at most two
/// files exist on disk.
pub proof fn lemma_rotation_bound(n: nat)
    ensures
        slots_written(n).finite(),
        slots_written(n).len() <= 2,
{
    let all = set![Slot::Zero, Slot::One];
    assert(slots_written(n).subset_of(all)) by {
        assert forall|s: Slot| slots_written(n).contains(s) implies all.contains(s) by {
            match s {
                Slot::Zero => {},
                Slot::One => {},
            }
        }
    }
    assert(all.len() == 2) by {
        assert(!set![Slot::Zero].contains(Slot::One));
    }
    lemma_len_subset(slots_written(n), all);
}

/// The slots to concatenate, oldest first, given each slot file's
/// modification time (`None` when the file is absent).
pub open spec fn clip_order_spec(m0: Option<u128>, m1: Option<u128>) -> Seq<Slot> {
    match (m0, m1) {
        (Some(a), Some(b)) => if a < b {
            seq![Slot::Zero, Slot::One]
        } else {
            seq![Slot::One, Slot::Zero]
        },
        (Some(_), None) => seq![Slot::Zero],
        (None, Some(_)) => seq![Slot::One],
        (None, None) => Seq::empty(),
    }
}

/// The slot files to join into a clip, oldest first.
pub fn clip_order(m0: Option<u128>, m1: Option<u128>) -> (r: Vec<Slot>)
    ensures
        r@ == clip_order_spec(m0, m1),
{
    let mut r: Vec<Slot> = Vec::new();
    match (m0, m1) {
        (Some(a), Some(b)) => {
            if a < b {
                r.push(Slot::Zero);
                r.push(Slot::One);
            } else {
                r.push(Slot::One);
                r.push(Slot::Zero);
            }
        },
        (Some(_), None) => r.push(Slot::Zero),
        (None, Some(_)) => r.push(Slot::One),
        (None, None) => {},
    }
    assert(r@ =~= clip_order_spec(m0, m1));
    r
}

pub open spec fn mtime_of(s: Slot, m0: Option<u128>, m1: Option<u128>) -> Option<u128> {
    match s {
        Slot::Zero => m0,
        Slot::One => m1,
    }
}

/// Chronological ordering: with both slot files present and distinct
/// modification times, the earlier-modified file is listed first and both are
/// listed; with one present, exactly that one is listed; with neither, nothing.
pub proof fn lemma_chronological_order(m0: Option<u128>, m1: Option<u128>)
    ensures
        m0 is Some && m1 is Some && m0 != m1 ==> {
            let o = clip_order_spec(m0, m1);
            &&& o.len() == 2
            &&& o[0] != o[1]
            &&& mtime_of(o[0], m0, m1).unwrap() < mtime_of(o[1], m0, m1).unwrap()
        },
        m0 is Some && m1 is None ==> clip_order_spec(m0, m1) == seq![Slot::Zero],
        m0 is None && m1 is Some ==> clip_order_spec(m0, m1) == seq![Slot::One],
        m0 is None && m1 is None ==> clip_order_spec(m0, m1).len() == 0,
{
}

pub open spec fn manifest_line(s: Slot) -> Seq<char> {
    "file '"@ + slot_name(s) + "'\n"@
}

/// The manifest: one `file '<name>'` line per slot, in the given order.
pub open spec fn manifest_spec(order: Seq<Slot>) -> Seq<char>
    decreases order.len(),
{
    if order.len() == 0 {
        Seq::empty()
    } else {
        manifest_spec(order.drop_last()) + manifest_line(order.last())
    }
}

/// Text of the concatenation manifest for the given slots.
pub fn manifest_text(order: &Vec<Slot>) -> (r: String)
    ensures
        r@ == manifest_spec(order@),
{
    let mut text = String::new();
    let mut i: usize = 0;
    while i < order.len()
        invariant
            i <= order.len(),
            text@ == manifest_spec(order@.take(i as int)),
        decreases order.len() - i,
    {
        let ghost before = text@;
        text.append("file '");
        text.append(slot_file_name(order[i]));
        text.append("'\n");
        assert(order@.take(i as int + 1).drop_last() =~= order@.take(i as int));
        assert(text@ =~= before + manifest_line(order@[i as int]));
        i = i + 1;
    }
    assert(order@.take(order.len() as int) =~= order@);
    text
}

/// Where a clip finalization stands.
#[derive(Clone, Copy, Debug, PartialEq, Eq, Structural)]
pub enum Stage {
    Start,
    Writing,
    Concatenating,
    Removing,
    Done,
}

/// How a finalization ended.
#[derive(Clone, Copy, Debug, PartialEq, Eq, Structural)]
pub enum ClipOutcome {
    /// Neither slot file existed: nothing to do.
    NoSegments,
    /// The clip was written.
    Saved,
    /// Writing the manifest or running the concatenation failed.
    Failed,
}

/// The next thing the caller does for a finalization.
#[derive(Clone, Copy, Debug, PartialEq, Eq, Structural)]
pub enum FinalizeStep {
    /// Write the manifest file.
    WriteManifest,
    /// Run the concatenating encoder process on the manifest.
    RunConcat,
    /// Delete the manifest file.
    RemoveManifest,
    /// Finalization is over.
    Finish(ClipOutcome),
}

/// Abstract state of a `Finalizer`.
#[derive(Clone, Copy, Debug, PartialEq, Eq, Structural)]
pub struct FinalizerState {
    pub stage: Stage,
    pub has_segments: bool,
    /// A manifest file may exist on disk.
    pub manifest_pending: bool,
    /// The clip has been given a name.
    pub named: bool,
    pub failed: bool,
}

pub open spec fn outcome_of(s: FinalizerState) -> ClipOutcome {
    if !s.has_segments {
        ClipOutcome::NoSegments
    } else if s.failed {
        ClipOutcome::Failed
    } else {
        ClipOutcome::Saved
    }
}

/// One step: what to do next, given whether the previous step succeeded.
/// The manifest is deleted after it was written, whether the write or the
/// concatenation succeeded or not. A concatenation counts as successful only
/// when the clip was named.
pub open spec fn finalize_step(s: FinalizerState, ok: bool) -> (FinalizeStep, FinalizerState) {
    match s.stage {
        Stage::Start => if !s.has_segments {
            (FinalizeStep::Finish(ClipOutcome::NoSegments), FinalizerState { stage: Stage::Done, ..s })
        } else {
            (
                FinalizeStep::WriteManifest,
                FinalizerState { stage: Stage::Writing, manifest_pending: true, ..s },
            )
        },
        Stage::Writing => if ok {
            (FinalizeStep::RunConcat, FinalizerState { stage: Stage::Concatenating, ..s })
        } else {
            (
                FinalizeStep::RemoveManifest,
                FinalizerState { stage: Stage::Removing, failed: true, ..s },
            )
        },
        Stage::Concatenating => (
            FinalizeStep::RemoveManifest,
            FinalizerState { stage: Stage::Removing, failed: !(ok && s.named), ..s },
        ),
        Stage::Removing => (
            FinalizeStep::Finish(outcome_of(s)),
            FinalizerState { stage: Stage::Done, manifest_pending: false, ..s },
        ),
        Stage::Done => (FinalizeStep::Finish(outcome_of(s)), s),
    }
}

pub open spec fn finalizer_inv(s: FinalizerState) -> bool {
    &&& s.stage is Start ==> !s.manifest_pending && !s.failed
    &&& s.stage is Done ==> !s.manifest_pending
    &&& !s.has_segments ==> (s.stage is Start || s.stage is Done)
    &&& (s.stage is Removing || s.stage is Done) && s.has_segments && !s.failed ==> s.named
}

pub open spec fn finalizer_start(has_segments: bool) -> FinalizerState {
    FinalizerState {
        stage: Stage::Start,
        has_segments,
        manifest_pending: false,
        named: false,
        failed: false,
    }
}

/// Sequences the side effects of turning the retained segments into a clip.
pub struct Finalizer {
    state: FinalizerState,
    clip: Option<String>,
}

impl View for Finalizer {
    type V = FinalizerState;

    closed spec fn view(&self) -> FinalizerState {
        self.state
    }
}

impl Finalizer {
    /// The clip's name, once it has been given one.
    pub closed spec fn spec_clip(&self) -> Option<Seq<char>> {
        match self.clip {
            Some(c) => Some(c@),
            None => None,
        }
    }

    pub closed spec fn wf(&self) -> bool {
        &&& finalizer_inv(self.state)
        &&& self.state.named <==> self.clip is Some
    }

    /// A finalization of `segments` slot files.
    pub fn new(segments: usize) -> (r: Finalizer)
        ensures
            r@ == finalizer_start(segments > 0),
            r.wf(),
            r.spec_clip() is None,
    {
        Finalizer {
            state: FinalizerState {
                stage: Stage::Start,
                has_segments: segments > 0,
                manifest_pending: false,
                named: false,
                failed: false,
            },
            clip: None,
        }
    }

    /// The next step, given whether the previous one succeeded (ignored for
    /// the first step).
    pub fn next(&mut self, last_ok: bool) -> (r: FinalizeStep)
        requires
            old(self).wf(),
        ensures
            (r, final(self)@) == finalize_step(old(self)@, last_ok),
            final(self).wf(),
            final(self).spec_clip() == old(self).spec_clip(),
    {
        let s = self.state;
        let (step, next) = match s.stage {
            Stage::Start => if !s.has_segments {
                (FinalizeStep::Finish(ClipOutcome::NoSegments), FinalizerState { stage: Stage::Done, ..s })
            } else {
                (
                    FinalizeStep::WriteManifest,
                    FinalizerState { stage: Stage::Writing, manifest_pending: true, ..s },
                )
            },
            Stage::Writing => if last_ok {
                (FinalizeStep::RunConcat, FinalizerState { stage: Stage::Concatenating, ..s })
            } else {
                (
                    FinalizeStep::RemoveManifest,
                    FinalizerState { stage: Stage::Removing, failed: true, ..s },
                )
            },
            Stage::Concatenating => (
                FinalizeStep::RemoveManifest,
                FinalizerState { stage: Stage::Removing, failed: !(last_ok && s.named), ..s },
            ),
            Stage::Removing => (
                FinalizeStep::Finish(outcome(&s)),
                FinalizerState { stage: Stage::Done, manifest_pending: false, ..s },
            ),
            Stage::Done => (FinalizeStep::Finish(outcome(&s)), s),
        };
        self.state = next;
        step
    }

    /// Names the clip after the Unix time `unix_secs`, while concatenating,
    /// and returns the arguments of the concatenating encoder process.
    /// `None` where the time cannot be written; the clip then stays unnamed.
    pub fn name_clip(&mut self, unix_secs: i64) -> (r: Option<Vec<String>>)
        requires
            old(self).wf(),
            old(self)@.stage is Concatenating,
        ensures
            final(self).wf(),
            final(self)@ == (FinalizerState { named: r is Some, ..old(self)@ }),
            r is Some <==> MIN_UNIX_SECS <= unix_secs <= MAX_UNIX_SECS,
            r matches Some(a) ==> {
                &&& final(self).spec_clip() == Some(clip_name_spec(unix_secs as int))
                &&& views(a@) == concat_args_spec(clip_name_spec(unix_secs as int))
            },
            r is None ==> final(self).spec_clip() is None,
    {
        match clip_name_at(unix_secs) {
            Some(name) => {
                let args = concat_args(name.as_str());
                self.clip = Some(name);
                self.state = FinalizerState { named: true, ..self.state };
                Some(args)
            },
            None => {
                self.clip = None;
                self.state = FinalizerState { named: false, ..self.state };
                None
            },
        }
    }

    /// The path of the clip written, once finalization has ended with one.
    pub fn clip_path(&self) -> (r: Option<String>)
        requires
            self.wf(),
        ensures
            r is Some <==> self@.stage is Done && outcome_of(self@) == ClipOutcome::Saved,
            r matches Some(p) ==> self.spec_clip() == Some(p@),
    {
        if self.state.stage == Stage::Done && self.state.has_segments && !self.state.failed {
            match &self.clip {
                Some(c) => Some(c.clone()),
                None => None,
            }
        } else {
            None
        }
    }
}

fn outcome(s: &FinalizerState) -> (r: ClipOutcome)
    ensures
        r == outcome_of(*s),
{
    if !s.has_segments {
        ClipOutcome::NoSegments
    } else if s.failed {
        ClipOutcome::Failed
    } else {
        ClipOutcome::Saved
    }
}

/// The state after feeding the given step results, in order.
pub open spec fn finalize_run(s: FinalizerState, oks: Seq<bool>) -> FinalizerState
    decreases oks.len(),
{
    if oks.len() == 0 {
        s
    } else {
        finalize_run(finalize_step(s, oks[0]).1, oks.drop_first())
    }
}

pub open spec fn steps_left(st: Stage) -> nat {
    match st {
        Stage::Start => 4,
        Stage::Writing => 3,
        Stage::Concatenating => 2,
        Stage::Removing => 1,
        Stage::Done => 0,
    }
}

proof fn lemma_run_reaches_done(s: FinalizerState, oks: Seq<bool>)
    requires
        finalizer_inv(s),
        oks.len() >= steps_left(s.stage),
    ensures
        finalize_run(s, oks).stage is Done,
        finalizer_inv(finalize_run(s, oks)),
    decreases oks.len(),
{
    if oks.len() > 0 {
        lemma_run_reaches_done(finalize_step(s, oks[0]).1, oks.drop_first());
    }
}

/// Cleanup: a step that ends a finalization leaves no manifest behind,
/// whether the manifest write and the concatenation succeeded or failed; and
/// from the start, every sequence of step results ends the finalization within
/// four steps.
pub proof fn lemma_manifest_cleanup(s: FinalizerState, ok: bool, has_segments: bool, oks: Seq<bool>)
    requires
        finalizer_inv(s),
    ensures
        finalizer_inv(finalize_step(s, ok).1),
        finalize_step(s, ok).0 is Finish ==> !finalize_step(s, ok).1.manifest_pending,
        oks.len() >= 4 ==> finalize_run(finalizer_start(has_segments), oks).stage is Done,
        oks.len() >= 4 ==> !finalize_run(finalizer_start(has_segments), oks).manifest_pending,
{
    if oks.len() >= 4 {
        lemma_run_reaches_done(finalizer_start(has_segments), oks);
    }
}

} // verus!
