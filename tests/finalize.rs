use ack_replay::finalize::{
    clip_order, manifest_text, slot_file_name, slot_of_segment, ClipOutcome, FinalizeStep,
    Finalizer, Slot,
};

fn run(f: &mut Finalizer, results: &[bool]) -> Vec<FinalizeStep> {
    let mut steps = vec![f.next(true)];
    for &ok in results {
        match steps.last() {
            Some(FinalizeStep::Finish(_)) => break,
            Some(FinalizeStep::RunConcat) => {
                assert!(f.name_clip(1_546_300_800 + 3_723).is_some());
            }
            _ => {}
        }
        steps.push(f.next(ok));
    }
    steps
}

#[test]
fn older_slot_first() {
    assert_eq!(clip_order(Some(5), Some(9)), vec![Slot::Zero, Slot::One]);
    assert_eq!(clip_order(Some(9), Some(5)), vec![Slot::One, Slot::Zero]);
    assert_eq!(clip_order(None, Some(5)), vec![Slot::One]);
    assert_eq!(clip_order(None, None), Vec::<Slot>::new());
}

#[test]
fn only_slot_zero_present() {
    let order = clip_order(Some(123), None);
    assert_eq!(order, vec![Slot::Zero]);
    assert_eq!(manifest_text(&order), "file 'buffer0.mp4'\n");
    let mut f = Finalizer::new(order.len());
    let steps = run(&mut f, &[true, true, true]);
    assert_eq!(
        steps,
        vec![
            FinalizeStep::WriteManifest,
            FinalizeStep::RunConcat,
            FinalizeStep::RemoveManifest,
            FinalizeStep::Finish(ClipOutcome::Saved),
        ]
    );
    assert_eq!(f.clip_path().unwrap(), "clip_2019-01-01.01_02_03.mp4");
}

#[test]
fn unnamed_clip_counts_as_failure() {
    let mut f = Finalizer::new(1);
    assert_eq!(f.next(true), FinalizeStep::WriteManifest);
    assert_eq!(f.next(true), FinalizeStep::RunConcat);
    assert_eq!(f.name_clip(i64::MAX), None);
    assert_eq!(f.next(true), FinalizeStep::RemoveManifest);
    assert_eq!(f.next(true), FinalizeStep::Finish(ClipOutcome::Failed));
    assert_eq!(f.clip_path(), None);
}

#[test]
fn concat_arguments_name_the_clip() {
    let mut f = Finalizer::new(2);
    f.next(true);
    f.next(true);
    let args = f.name_clip(0).unwrap();
    assert_eq!(args.last().unwrap(), "clip_1970-01-01.00_00_00.mp4");
    assert_eq!(args[6], "concat_list.txt");
}

#[test]
fn manifest_lists_both_in_order() {
    let order = clip_order(Some(9), Some(5));
    assert_eq!(manifest_text(&order), "file 'buffer1.mp4'\nfile 'buffer0.mp4'\n");
}

#[test]
fn manifest_removed_after_failures() {
    let mut f = Finalizer::new(2);
    let steps = run(&mut f, &[false, true]);
    assert_eq!(
        steps,
        vec![
            FinalizeStep::WriteManifest,
            FinalizeStep::RemoveManifest,
            FinalizeStep::Finish(ClipOutcome::Failed),
        ]
    );
    let mut f = Finalizer::new(1);
    let steps = run(&mut f, &[true, false, true]);
    assert_eq!(steps[2], FinalizeStep::RemoveManifest);
    assert_eq!(steps[3], FinalizeStep::Finish(ClipOutcome::Failed));
    assert_eq!(f.clip_path(), None);
}

#[test]
fn no_segments_no_clip() {
    let mut f = Finalizer::new(0);
    assert_eq!(f.next(true), FinalizeStep::Finish(ClipOutcome::NoSegments));
    assert_eq!(f.next(true), FinalizeStep::Finish(ClipOutcome::NoSegments));
}

#[test]
fn slots_rotate() {
    assert_eq!(slot_of_segment(0), Slot::Zero);
    assert_eq!(slot_of_segment(1), Slot::One);
    assert_eq!(slot_of_segment(7), Slot::One);
    assert_eq!(slot_file_name(Slot::One), "buffer1.mp4");
}
