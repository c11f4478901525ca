use pathrs::back::Back;
use pathrs::fps::{Fps, FpsSample};
use pathrs::pipeline::{
    dispatch_groups, Extent2D, QueryReadback, SchedulerError, TracerPipeline, MAX_DEPTH,
};
use pathrs::push_constants::PushConstantsData;

fn extent(width: u32, height: u32) -> Extent2D {
    Extent2D { width, height }
}

#[test]
fn every_slot_is_checked_before_it_is_recorded() {
    let mut back = Back::new(extent(64, 32));
    let mut recorded = vec![0usize; MAX_DEPTH];
    for call in 0..(2 * MAX_DEPTH + 1) {
        let expected_slot = back.pipeline().current_frame();
        // An unsignalled fence never leads to a recording.
        if call > 0 {
            let plan = back.present(false, QueryReadback::NotReady, false).unwrap();
            assert!(plan.submission.is_none());
            assert_eq!(back.pipeline().current_frame(), expected_slot);
        }
        let plan = back.present(true, QueryReadback::NotReady, false).unwrap();
        let submission = plan.submission.unwrap();
        assert_eq!(submission.slot, expected_slot);
        recorded[submission.slot] += 1;
        assert_eq!(back.pipeline().current_frame(), (expected_slot + 1) % MAX_DEPTH);
    }
    assert!(recorded.iter().all(|&n| n >= 1));
}

#[test]
fn config_change_uploads_config_but_not_objects_after_first_frame() {
    let mut back = Back::new(extent(16, 16));
    let first = back.present(true, QueryReadback::NotReady, true).unwrap().submission.unwrap();
    assert!(first.upload_objects);
    assert!(first.upload_config);
    assert!(first.wait_for_completion);

    let second = back.present(true, QueryReadback::NotReady, false).unwrap().submission.unwrap();
    assert!(!second.upload_objects);
    assert!(!second.upload_config);
    assert_eq!(second.push_constants.invalidate, 0);

    let third = back.present(true, QueryReadback::NotReady, true).unwrap().submission.unwrap();
    assert!(third.upload_config);
    assert!(!third.upload_objects);
    assert!(!third.wait_for_completion);
    assert_eq!(third.push_constants.invalidate, 1);
    assert_eq!(third.push_constants.frame_index, 2);
    assert_eq!(back.frame_index(), 3);
}

#[test]
fn first_frame_is_invalidated_and_timed() {
    let mut pipeline = TracerPipeline::new(extent(8, 8));
    let plan = pipeline
        .present(true, QueryReadback::Ready { start: 5, end: 9 }, false, PushConstantsData::new(0), false, true)
        .unwrap();
    let submission = plan.submission.unwrap();
    assert_eq!(submission.push_constants.invalidate, 1);
    assert!(submission.need_timestamp);
    assert_eq!(plan.shown_slot, 0);
    assert_eq!(pipeline.last_finished_frame(), Some(0));
}

#[test]
fn render_time_stays_stale_until_results_arrive() {
    let mut pipeline = TracerPipeline::new(extent(8, 8));
    pipeline.present(true, QueryReadback::NotReady, false, PushConstantsData::new(0), false, true).unwrap();
    assert_eq!(pipeline.render_ticks(), None);
    let plan = pipeline.present(true, QueryReadback::NotReady, false, PushConstantsData::new(1), false, false).unwrap();
    assert!(plan.submission.unwrap().need_timestamp);
    assert_eq!(pipeline.render_ticks(), None);

    let plan = pipeline
        .present(true, QueryReadback::Ready { start: 1000, end: 5000 }, false, PushConstantsData::new(2), false, false)
        .unwrap();
    assert!(!plan.submission.unwrap().need_timestamp);
    assert_eq!(pipeline.render_ticks(), Some(4000));
    let period_ns = 1.0f64;
    let render_time_ms = pipeline.render_ticks().unwrap() as f64 * period_ns / 1_000_000.0;
    assert!((render_time_ms - 4000.0 / 1e6).abs() < 1e-12);

    // A later poll that is not ready leaves the reading as it was.
    pipeline.present(true, QueryReadback::NotReady, false, PushConstantsData::new(3), false, false).unwrap();
    assert_eq!(pipeline.render_ticks(), Some(4000));
}

#[test]
fn failed_query_is_an_error() {
    let mut pipeline = TracerPipeline::new(extent(8, 8));
    let r = pipeline.present(true, QueryReadback::Failed(-4), false, PushConstantsData::new(0), false, true);
    assert_eq!(r.err(), Some(SchedulerError::QueryFailed(-4)));
    assert_eq!(pipeline.last_finished_frame(), None);
}

#[test]
fn showing_before_any_frame_completed_is_an_error() {
    let mut back = Back::new(extent(8, 8));
    assert_eq!(back.present(false, QueryReadback::NotReady, false).err(), Some(SchedulerError::NoFrameCompleted));
}

#[test]
fn unsignalled_fence_shows_last_completed_frame() {
    let mut back = Back::new(extent(8, 8));
    back.present(true, QueryReadback::NotReady, false).unwrap();
    let plan = back.present(false, QueryReadback::Ready { start: 0, end: 1 }, true).unwrap();
    assert!(plan.submission.is_none());
    assert_eq!(plan.shown_slot, 0);
    assert_eq!(back.pipeline().render_ticks(), None);
}

#[test]
fn timestamp_wraps_around() {
    let mut pipeline = TracerPipeline::new(extent(8, 8));
    pipeline
        .present(true, QueryReadback::Ready { start: u64::MAX, end: 1 }, false, PushConstantsData::new(0), false, true)
        .unwrap();
    assert_eq!(pipeline.render_ticks(), Some(2));
}

#[test]
fn dispatch_covers_every_pixel() {
    assert_eq!(dispatch_groups(extent(1280, 720)), (80, 45));
    assert_eq!(dispatch_groups(extent(17, 1)), (2, 1));
    assert_eq!(dispatch_groups(extent(0, 16)), (0, 1));
    assert_eq!(dispatch_groups(extent(u32::MAX, 15)), (268_435_456, 1));
}

#[test]
fn resize_rebuilds_only_on_change() {
    let mut back = Back::new(extent(100, 50));
    assert!(!back.resize(extent(100, 50)));
    assert!(back.resize(extent(200, 50)));
    assert_eq!(back.pipeline().viewport(), extent(200, 50));
    assert!(!back.resize(extent(200, 50)));
}

#[test]
fn push_constants_start_clean() {
    let p = PushConstantsData::new(42);
    assert_eq!(p.frame_index, 42);
    assert_eq!(p.invalidate, 0);
    let d = PushConstantsData::default();
    assert_eq!((d.frame_index, d.invalidate), (0, 0));
}

#[test]
fn fps_samples_after_interval() {
    let mut fps = Fps::new(1_000);
    assert_eq!(fps.update(1_100), None);
    assert_eq!(fps.update(1_500), None);
    assert_eq!(fps.update(1_501), Some(FpsSample { frames: 3, elapsed_ms: 501 }));
    assert_eq!(fps.accumulated, 0);
    assert_eq!(fps.prev_calculate_ms, 1_501);
    assert_eq!(fps.update(1_600), None);
    assert_eq!(fps.accumulated, 1);
}
