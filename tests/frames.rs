use vkimage::frame_loop::{Action, FrameLoop, LoopEvent, Phase, SlotState};
use vkimage::surface::{Extent, SurfaceConfig};

fn config(count: u32, w: u32, h: u32) -> SurfaceConfig {
    SurfaceConfig { format_index: 0, format: 44, image_count: count, extent: Extent { width: w, height: h } }
}

fn fresh(count: u32) -> FrameLoop {
    FrameLoop::new(config(count, 640, 480), Extent { width: 640, height: 480 }).unwrap()
}

fn assert_all_free(l: &FrameLoop) {
    for i in 0..l.slot_count() {
        assert_eq!(l.slot_state(i), Some(SlotState::Free));
    }
}

fn one_tick(l: &mut FrameLoop, slot: usize) {
    assert_eq!(l.step(LoopEvent::Tick), Action::Acquire);
    assert_eq!(l.step(LoopEvent::Acquired(slot)), Action::Record(slot));
    assert_eq!(l.slot_state(slot), Some(SlotState::Acquired));
    assert_eq!(l.step(LoopEvent::Recorded), Action::Submit(slot));
    assert_eq!(l.slot_state(slot), Some(SlotState::InFlight));
    assert_eq!(l.step(LoopEvent::Submitted), Action::Present(slot));
    assert_eq!(l.step(LoopEvent::Presented), Action::Wait);
    assert_eq!(l.slot_state(slot), Some(SlotState::Free));
}

#[test]
fn new_rejects_empty_chain() {
    assert!(FrameLoop::new(config(0, 1, 1), Extent { width: 1, height: 1 }).is_none());
    let l = fresh(3);
    assert_eq!(l.phase(), Phase::Idle);
    assert_eq!(l.slot_count(), 3);
    assert_eq!(l.slot_state(3), None);
    assert_eq!(l.presented(), 0);
}

#[test]
fn three_ticks_end_idle_with_three_presentations() {
    let mut l = fresh(3);
    for t in 0..3usize {
        one_tick(&mut l, t % 3);
        assert_eq!(l.phase(), Phase::Idle);
        assert_all_free(&l);
    }
    assert_eq!(l.presented(), 3);
    assert_ne!(l.phase(), Phase::Failed);
}

#[test]
fn many_ticks_keep_one_slot_at_most() {
    let mut l = fresh(2);
    for t in 0..50usize {
        one_tick(&mut l, t % 2);
        assert_all_free(&l);
    }
    assert_eq!(l.presented(), 50);
}

#[test]
fn acquiring_unknown_slot_is_fatal() {
    let mut l = fresh(2);
    assert_eq!(l.step(LoopEvent::Tick), Action::Acquire);
    assert_eq!(l.step(LoopEvent::Acquired(2)), Action::Exit(1));
    assert_eq!(l.phase(), Phase::Failed);
    assert_eq!(l.step(LoopEvent::Tick), Action::Wait);
}

#[test]
fn second_acquisition_report_is_ignored_while_recording() {
    let mut l = fresh(2);
    l.step(LoopEvent::Tick);
    l.step(LoopEvent::Acquired(0));
    assert_eq!(l.step(LoopEvent::Acquired(0)), Action::Wait);
    assert_eq!(l.step(LoopEvent::Acquired(1)), Action::Wait);
    assert_eq!(l.slot_state(0), Some(SlotState::Acquired));
    assert_eq!(l.slot_state(1), Some(SlotState::Free));
}

#[test]
fn stale_acquisition_recreates_for_new_window() {
    let mut l = fresh(2);
    assert_eq!(l.step(LoopEvent::Tick), Action::Acquire);
    let new_size = Extent { width: 1024, height: 768 };
    assert_eq!(l.step(LoopEvent::Resize(new_size)), Action::Wait);
    assert_eq!(l.step(LoopEvent::Stale), Action::Recreate(new_size));
    assert_eq!(l.phase(), Phase::Recreate);
    assert_eq!(l.step(LoopEvent::Recreated(config(3, 1024, 768))), Action::Acquire);
    assert_eq!(l.surface_extent(), new_size);
    assert_eq!(l.slot_count(), 3);
    assert_eq!(l.step(LoopEvent::Acquired(2)), Action::Record(2));
    l.step(LoopEvent::Recorded);
    l.step(LoopEvent::Submitted);
    assert_eq!(l.step(LoopEvent::Presented), Action::Wait);
    one_tick(&mut l, 0);
    assert_eq!(l.presented(), 2);
}

#[test]
fn resize_between_ticks_recreates_on_next_tick() {
    let mut l = fresh(2);
    let size = Extent { width: 300, height: 200 };
    l.step(LoopEvent::Resize(size));
    assert_eq!(l.window_extent(), size);
    assert_eq!(l.step(LoopEvent::Tick), Action::Recreate(size));
    assert_eq!(l.step(LoopEvent::Recreated(config(2, 300, 200))), Action::Acquire);
    assert_eq!(l.surface_extent(), size);
    // the rebuild for the resize does not use up this tick's retry
    assert_eq!(l.step(LoopEvent::Stale), Action::Recreate(size));
    assert_eq!(l.step(LoopEvent::Recreated(config(2, 300, 200))), Action::Acquire);
    // a second stale report after that retry is fatal
    assert_eq!(l.step(LoopEvent::Stale), Action::Exit(1));
}

#[test]
fn stale_twice_in_one_tick_is_fatal() {
    let mut l = fresh(2);
    l.step(LoopEvent::Tick);
    assert_eq!(l.step(LoopEvent::Stale), Action::Recreate(Extent { width: 640, height: 480 }));
    assert_eq!(l.step(LoopEvent::Recreated(config(2, 640, 480))), Action::Acquire);
    assert_eq!(l.step(LoopEvent::Stale), Action::Exit(1));
    assert_eq!(l.phase(), Phase::Failed);
}

#[test]
fn stale_presentation_recreates_and_ends_tick() {
    let mut l = fresh(2);
    l.step(LoopEvent::Tick);
    l.step(LoopEvent::Acquired(1));
    l.step(LoopEvent::Recorded);
    l.step(LoopEvent::Submitted);
    assert_eq!(l.step(LoopEvent::Stale), Action::Recreate(Extent { width: 640, height: 480 }));
    assert_all_free(&l);
    assert_eq!(l.step(LoopEvent::Recreated(config(2, 640, 480))), Action::Wait);
    assert_eq!(l.phase(), Phase::Idle);
    assert_eq!(l.presented(), 0);
    one_tick(&mut l, 0);
}

#[test]
fn failed_recreation_and_submission_are_fatal() {
    let mut l = fresh(2);
    l.step(LoopEvent::Tick);
    l.step(LoopEvent::Stale);
    assert_eq!(l.step(LoopEvent::RecreateFailed), Action::Recreate(Extent { width: 640, height: 480 }));
    assert_eq!(l.phase(), Phase::Recreate);
    assert_eq!(l.step(LoopEvent::RecreateFailed), Action::Exit(1));
    assert_eq!(l.phase(), Phase::Failed);

    let mut l = fresh(2);
    l.step(LoopEvent::Tick);
    l.step(LoopEvent::Stale);
    assert_eq!(l.step(LoopEvent::Recreated(config(0, 640, 480))), Action::Exit(1));

    let mut l = fresh(2);
    l.step(LoopEvent::Tick);
    l.step(LoopEvent::Acquired(0));
    l.step(LoopEvent::Recorded);
    assert_eq!(l.step(LoopEvent::SubmitFailed), Action::Exit(1));
    assert_eq!(l.phase(), Phase::Failed);
}

#[test]
fn close_when_idle_exits_at_once() {
    let mut l = fresh(2);
    assert_eq!(l.step(LoopEvent::Close), Action::Exit(0));
    assert_eq!(l.phase(), Phase::Closed);
    assert_eq!(l.step(LoopEvent::Tick), Action::Wait);
}

#[test]
fn close_mid_tick_waits_for_drain() {
    let mut l = fresh(2);
    l.step(LoopEvent::Tick);
    l.step(LoopEvent::Acquired(0));
    assert_eq!(l.step(LoopEvent::Close), Action::Wait);
    assert_eq!(l.step(LoopEvent::Recorded), Action::Submit(0));
    assert_eq!(l.step(LoopEvent::Submitted), Action::Present(0));
    assert_eq!(l.step(LoopEvent::Presented), Action::Exit(0));
    assert_eq!(l.phase(), Phase::Closed);
    assert_eq!(l.presented(), 1);
}

#[test]
fn red_square_scenario() {
    let buf = image::RgbaImage::from_pixel(4, 4, image::Rgba([255, 0, 0, 255]));
    let mut png: Vec<u8> = Vec::new();
    image::DynamicImage::ImageRgba8(buf).write_to(&mut png, image::ImageOutputFormat::Png).unwrap();

    let pixels = vkimage::pixels::PixelBuffer::decode(&png).unwrap();
    assert_eq!(pixels.byte_len(), 64);
    assert!(pixels.bytes().chunks(4).all(|px| px == [255, 0, 0, 255]));

    let resource = vkimage::upload::plan_upload(&pixels, u64::MAX).unwrap();
    assert_eq!(resource.size, 64);

    let mut l = fresh(3);
    let mut fatal_errors = 0;
    for t in 0..3usize {
        for (ev, want) in [
            (LoopEvent::Tick, Action::Acquire),
            (LoopEvent::Acquired(t), Action::Record(t)),
            (LoopEvent::Recorded, Action::Submit(t)),
            (LoopEvent::Submitted, Action::Present(t)),
            (LoopEvent::Presented, Action::Wait),
        ] {
            let got = l.step(ev);
            if got == Action::Exit(1) {
                fatal_errors += 1;
            }
            assert_eq!(got, want);
        }
        assert_eq!(l.phase(), Phase::Idle);
    }
    assert_eq!(l.presented(), 3);
    assert_eq!(fatal_errors, 0);
}

#[test]
fn one_failed_rebuild_is_retried() {
    let mut l = fresh(2);
    l.step(LoopEvent::Tick);
    l.step(LoopEvent::Stale);
    assert_eq!(l.step(LoopEvent::RecreateFailed), Action::Recreate(Extent { width: 640, height: 480 }));
    assert_eq!(l.step(LoopEvent::Recreated(config(2, 640, 480))), Action::Acquire);
    assert_eq!(l.step(LoopEvent::Acquired(1)), Action::Record(1));
    l.step(LoopEvent::Recorded);
    l.step(LoopEvent::Submitted);
    assert_eq!(l.step(LoopEvent::Presented), Action::Wait);
    // a later single failure is again retried, not fatal
    l.step(LoopEvent::Resize(Extent { width: 10, height: 10 }));
    assert_eq!(l.step(LoopEvent::Tick), Action::Recreate(Extent { width: 10, height: 10 }));
    assert_eq!(l.step(LoopEvent::RecreateFailed), Action::Recreate(Extent { width: 10, height: 10 }));
    assert_eq!(l.step(LoopEvent::Recreated(config(2, 10, 10))), Action::Acquire);
    assert_eq!(l.surface_extent(), Extent { width: 10, height: 10 });
}

#[test]
fn resize_after_earlier_rebuild_recovers_on_next_tick() {
    let mut l = fresh(2);
    l.step(LoopEvent::Tick);
    l.step(LoopEvent::Stale);
    l.step(LoopEvent::Recreated(config(2, 640, 480)));
    l.step(LoopEvent::Acquired(0));
    l.step(LoopEvent::Recorded);
    l.step(LoopEvent::Submitted);
    l.step(LoopEvent::Presented);
    let size = Extent { width: 800, height: 600 };
    assert_eq!(l.step(LoopEvent::Resize(size)), Action::Wait);
    assert_eq!(l.step(LoopEvent::Tick), Action::Recreate(size));
    assert_eq!(l.step(LoopEvent::Recreated(config(3, 800, 600))), Action::Acquire);
    assert_eq!(l.surface_extent(), size);
    assert_eq!(l.slot_count(), 3);
    assert_eq!(l.step(LoopEvent::Acquired(0)), Action::Record(0));
}
