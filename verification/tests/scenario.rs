use rahmen::dataflow::{ImageData, Render, PHOTO_SLOT, STATUS_TEXT_SLOT};
use rahmen::driver::{Driver, DriverAction, DriverState};
use rahmen::errors::{RahmenError, RahmenResult};
use rahmen::provider_list::ListProvider;

fn image(width: u32, height: u32) -> ImageData {
    ImageData { width, height, pixels: vec![9u8; (width * height * 3) as usize] }
}

fn paths(names: &[&str]) -> Vec<String> {
    names.iter().map(|n| n.to_string()).collect()
}

/// Decode stub for the scenario: the path decides whether decoding works
/// and what dimensions come out.
fn decode(path: &str) -> RahmenResult<ImageData> {
    match path {
        "a.jpg" => Ok(image(800, 600)),
        "b.jpg" => Ok(image(1200, 800)),
        _ => Err(RahmenError::Retry),
    }
}

/// Run one driver iteration against the scripted collaborators, returning
/// every batch of instructions dispatched during it.
fn run_iteration(
    driver: &mut Driver<ListProvider>,
    now: u64,
    dims: (u32, u32),
) -> Vec<Vec<Render>> {
    let mut dispatched = Vec::new();
    let mut action = driver.poll(now, dims);
    loop {
        action = match action {
            DriverAction::Decode { path } => driver.offer_decode(decode(&path)),
            DriverAction::FormatStatus { path } => {
                driver.offer_status(Some(vec![format!("showing {}", path)]))
            }
            DriverAction::RasterizeText { request } => {
                driver.offer_text_image(image(request.width, request.height))
            }
            DriverAction::Dispatch { instructions } => {
                dispatched.push(instructions);
                driver.finish_dispatch(true)
            }
            DriverAction::Idle => break,
            DriverAction::Stopped => break,
        };
    }
    dispatched
}

fn expect_image(r: &Render, key: usize, x: i64, y: i64, width: u32, height: u32) {
    match r {
        Render::Image { key: k, x: px, y: py, image } => {
            assert_eq!((*k, *px, *py), (key, x, y));
            assert_eq!((image.width, image.height), (width, height));
        }
        _ => panic!("expected an image instruction"),
    }
}

fn expect_blank(r: &Render, key: usize, x: i64, y: i64, width: u32, height: u32) {
    match r {
        Render::Blank { key: k, x: px, y: py, width: w, height: h } => {
            assert_eq!((*k, *px, *py, *w, *h), (key, x, y, width, height));
        }
        _ => panic!("expected a blank instruction"),
    }
}

#[test]
fn slideshow_runs_the_schedule_end_to_end() {
    let source = ListProvider::new(paths(&["a.jpg", "corrupt.jpg", "b.jpg"]));
    let mut driver = Driver::new(source, 1000, 30, 140, 8);
    let dims = (1000u32, 700u32);

    // tick one: a.jpg decodes at 800x600, fits within 1000x658 unscaled,
    // and is centered; the status strip is 1000x42 at the bottom
    let batches = run_iteration(&mut driver, 10, dims);
    assert_eq!(batches.len(), 1);
    let batch = &batches[0];
    assert_eq!(batch.len(), 2);
    expect_image(&batch[0], PHOTO_SLOT, 100, 29, 800, 600);
    expect_image(&batch[1], STATUS_TEXT_SLOT, 0, 658, 1000, 42);
    assert_eq!(driver.current_state(), DriverState::Running);

    // between ticks nothing is due and nothing is dispatched
    assert!(run_iteration(&mut driver, 500, dims).is_empty());

    // tick two: corrupt.jpg fails and is silently retried past; b.jpg
    // decodes at 1200x800 and is scaled down to 987x658; both slots blank
    // their old boxes strictly before the new images
    let batches = run_iteration(&mut driver, 1100, dims);
    assert_eq!(batches.len(), 1);
    let batch = &batches[0];
    assert_eq!(batch.len(), 4);
    expect_blank(&batch[0], PHOTO_SLOT, 100, 29, 800, 600);
    expect_image(&batch[1], PHOTO_SLOT, 6, 0, 987, 658);
    expect_blank(&batch[2], STATUS_TEXT_SLOT, 0, 658, 1000, 42);
    expect_image(&batch[3], STATUS_TEXT_SLOT, 0, 658, 1000, 42);
    assert_eq!(driver.current_state(), DriverState::Running);

    // tick three: the source is exhausted; the run terminates with no
    // further render calls
    let batches = run_iteration(&mut driver, 2100, dims);
    assert!(batches.is_empty());
    assert_eq!(driver.current_state(), DriverState::Stopped);

    // stopped is terminal
    assert!(matches!(driver.poll(3100, dims), DriverAction::Stopped));
    assert_eq!(driver.current_state(), DriverState::Stopped);
}

#[test]
fn scaled_placement_really_resamples_the_pixels() {
    let source = ListProvider::new(paths(&["b.jpg"]));
    let mut driver = Driver::new(source, 1000, 30, 140, 2);
    let batches = run_iteration(&mut driver, 10, (1000, 700));
    assert_eq!(batches.len(), 1);
    match &batches[0][0] {
        Render::Image { image, .. } => {
            // 1200x800 was resampled down to 987x658: the buffer has the
            // scaled size, not the source size
            assert_eq!(image.pixels.len(), 987 * 658 * 3);
            assert_ne!(image.pixels.len(), 1200 * 800 * 3);
        }
        _ => panic!("expected the scaled photograph"),
    }
}

#[test]
fn clock_jump_yields_one_tick_not_ten() {
    let source = ListProvider::new(paths(&[
        "a.jpg", "a.jpg", "a.jpg", "a.jpg", "a.jpg", "a.jpg", "a.jpg", "a.jpg", "a.jpg", "a.jpg",
        "a.jpg", "a.jpg",
    ]));
    let mut driver = Driver::new(source, 1000, 30, 140, 2);
    let dims = (1000u32, 700u32);
    run_iteration(&mut driver, 10, dims);

    // the clock jumps forward by ten delays: exactly one image is shown
    let batches = run_iteration(&mut driver, 10 + 10 * 1000, dims);
    assert_eq!(batches.len(), 1);
    let images = batches[0]
        .iter()
        .filter(|r| matches!(r, Render::Image { key, .. } if *key == PHOTO_SLOT))
        .count();
    assert_eq!(images, 1);
    // and an immediate further poll shows nothing new
    assert!(run_iteration(&mut driver, 10 + 10 * 1000, dims).is_empty());
}

#[test]
fn missing_status_line_still_shows_the_image() {
    let source = ListProvider::new(paths(&["a.jpg"]));
    let mut driver = Driver::new(source, 1000, 30, 140, 2);
    let dims = (1000u32, 700u32);
    let mut dispatched = Vec::new();
    let mut action = driver.poll(10, dims);
    loop {
        action = match action {
            DriverAction::Decode { path } => driver.offer_decode(decode(&path)),
            // the metadata formatter failed: no text this tick
            DriverAction::FormatStatus { .. } => driver.offer_status(None),
            DriverAction::RasterizeText { .. } => panic!("no text was available"),
            DriverAction::Dispatch { instructions } => {
                dispatched.push(instructions);
                driver.finish_dispatch(true)
            }
            DriverAction::Idle => break,
            DriverAction::Stopped => break,
        };
    }
    assert_eq!(dispatched.len(), 1);
    assert_eq!(dispatched[0].len(), 1);
    expect_image(&dispatched[0][0], PHOTO_SLOT, 100, 29, 800, 600);
}

#[test]
fn display_failure_terminates_the_run() {
    let source = ListProvider::new(paths(&["a.jpg", "b.jpg"]));
    let mut driver = Driver::new(source, 1000, 30, 140, 2);
    let dims = (1000u32, 700u32);
    let mut action = driver.poll(10, dims);
    loop {
        action = match action {
            DriverAction::Decode { path } => driver.offer_decode(decode(&path)),
            DriverAction::FormatStatus { path } => {
                driver.offer_status(Some(vec![path.to_string()]))
            }
            DriverAction::RasterizeText { request } => {
                driver.offer_text_image(image(request.width, request.height))
            }
            DriverAction::Dispatch { .. } => driver.finish_dispatch(false),
            DriverAction::Idle => panic!("the failed dispatch must stop the run"),
            DriverAction::Stopped => break,
        };
    }
    assert_eq!(driver.current_state(), DriverState::Stopped);
}

#[test]
fn viewport_change_between_ticks_reflows_both_slots() {
    let source = ListProvider::new(paths(&["a.jpg", "b.jpg"]));
    let mut driver = Driver::new(source, 1000, 30, 140, 2);
    run_iteration(&mut driver, 10, (1000, 700));

    // the display shrinks while no tick is due: the remembered image is
    // refitted and the status strip is re-laid-out for the new viewport
    let batches = run_iteration(&mut driver, 500, (800, 500));
    assert_eq!(batches.len(), 1);
    let batch = &batches[0];
    assert_eq!(batch.len(), 4);
    // photo: 800x600 into 800x458 -> scaled to 610x458, centered at (95, 0)
    expect_blank(&batch[0], PHOTO_SLOT, 100, 29, 800, 600);
    expect_image(&batch[1], PHOTO_SLOT, 95, 0, 610, 458);
    expect_blank(&batch[2], STATUS_TEXT_SLOT, 0, 658, 1000, 42);
    expect_image(&batch[3], STATUS_TEXT_SLOT, 0, 458, 800, 42);
}
