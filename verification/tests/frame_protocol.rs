use std::sync::Arc;

use web_painter::frame::FrameImage;
use web_painter::frame::FramePainter;
use web_painter::frame::FrameStep;
use web_painter::frame::ROOT_VIEWPORT;
use web_painter::frame::ScreenshotEvent;
use web_painter::frame::plan_frame;

fn test_image(width: u32, height: u32, byte: u8) -> FrameImage {
    FrameImage::new(width, height, vec![byte; (4 * width * height) as usize]).unwrap()
}

#[test]
fn plan_orders_uploads_before_draw_and_frees_after() {
    let plan = plan_frame(&vec![1, 2], &vec![3], &vec![7]);
    assert_eq!(
        plan,
        vec![
            FrameStep::UploadTexture(1),
            FrameStep::UploadTexture(2),
            FrameStep::Clear,
            FrameStep::Draw,
            FrameStep::CaptureFrame,
            FrameStep::FreeTexture(3),
        ]
    );
}

#[test]
fn plan_with_empty_capture_has_no_capture_step() {
    let plan = plan_frame(&vec![1], &vec![2], &vec![]);
    assert_eq!(
        plan,
        vec![
            FrameStep::UploadTexture(1),
            FrameStep::Clear,
            FrameStep::Draw,
            FrameStep::FreeTexture(2),
        ]
    );
    assert!(plan.iter().all(|s| *s != FrameStep::CaptureFrame));
}

#[test]
fn plan_with_empty_delta_still_clears_and_draws() {
    let plan = plan_frame(&vec![], &vec![], &vec![]);
    assert_eq!(plan, vec![FrameStep::Clear, FrameStep::Draw]);
}

#[test]
fn plan_captures_once_for_many_tokens() {
    let plan = plan_frame(&vec![], &vec![], &vec![1, 2, 3]);
    let captures = plan.iter().filter(|s| **s == FrameStep::CaptureFrame).count();
    assert_eq!(captures, 1);
}

#[test]
fn image_length_must_match_dimensions() {
    assert!(FrameImage::new(2, 2, vec![0; 16]).is_some());
    assert!(FrameImage::new(2, 2, vec![0; 15]).is_none());
    assert!(FrameImage::new(0, 7, Vec::new()).is_some());
}

#[test]
fn one_capture_two_tokens_two_events_same_image() {
    let mut painter = FramePainter::new(4096);
    painter.record_capture(test_image(2, 1, 9), vec![11, 22]);
    let mut events: Vec<ScreenshotEvent> = Vec::new();
    painter.handle_screenshots(&mut events);
    assert_eq!(events.len(), 2);
    assert_eq!(events[0].token, 11);
    assert_eq!(events[1].token, 22);
    assert_eq!(events[0].viewport, ROOT_VIEWPORT);
    assert_eq!(events[1].viewport, ROOT_VIEWPORT);
    // Both events share one image, not two copies of it.
    assert!(Arc::ptr_eq(&events[0].image, &events[1].image));
    assert_eq!(events[0].image.rgba, vec![9; 8]);
    assert_eq!(painter.pending_screenshots(), 0);
}

#[test]
fn drain_is_fifo_across_paint_calls() {
    let mut painter = FramePainter::new(4096);
    painter.record_capture(test_image(1, 1, 1), vec![100]);
    painter.record_capture(test_image(1, 1, 2), vec![200, 201]);
    painter.record_capture(test_image(1, 1, 3), vec![300]);
    assert_eq!(painter.pending_screenshots(), 3);
    let mut events: Vec<ScreenshotEvent> = Vec::new();
    painter.handle_screenshots(&mut events);
    let tokens: Vec<u64> = events.iter().map(|e| e.token).collect();
    assert_eq!(tokens, vec![100, 200, 201, 300]);
    let first_bytes: Vec<u8> = events[0].image.rgba.clone();
    assert_eq!(first_bytes, vec![1; 4]);
    assert_eq!(events[3].image.rgba, vec![3; 4]);
    assert_eq!(painter.pending_screenshots(), 0);
    // A second drain delivers nothing more.
    painter.handle_screenshots(&mut events);
    assert_eq!(events.len(), 4);
}

#[test]
fn drain_appends_after_existing_events() {
    let mut painter = FramePainter::new(64);
    painter.record_capture(test_image(1, 1, 5), vec![42]);
    let mut events: Vec<ScreenshotEvent> = Vec::new();
    events.push(ScreenshotEvent {
        viewport: ROOT_VIEWPORT,
        image: Arc::new(test_image(1, 1, 0)),
        token: 7,
    });
    painter.handle_screenshots(&mut events);
    assert_eq!(events.len(), 2);
    assert_eq!(events[0].token, 7);
    assert_eq!(events[1].token, 42);
}

#[test]
fn painter_accessors_and_destroy() {
    let mut painter = FramePainter::new(8192);
    assert_eq!(painter.max_texture_side(), 8192);
    assert!(painter.live);
    painter.destroy();
    assert!(!painter.live);
}
