use rahmen::compose::Compose;
use rahmen::dataflow::{
    strip_height, ConfigAdjuster, Configuration, ImageData, Placement, Render, PHOTO_SLOT,
    STATUS_TEXT_SLOT,
};
use rahmen::layout::TextJoin;
use rahmen::resize::{fit_dims, ResizeJoin};

fn image(width: u32, height: u32) -> ImageData {
    ImageData { width, height, pixels: vec![7u8; (width * height * 3) as usize] }
}

fn lines(text: &str) -> Vec<String> {
    vec![text.to_string()]
}

#[test]
fn strip_height_rounds_up() {
    assert_eq!(strip_height(30, 140), 42);
    assert_eq!(strip_height(30, 100), 30);
    assert_eq!(strip_height(33, 110), 37); // 36.3 rounded up
    assert_eq!(strip_height(0, 140), 0);
}

#[test]
fn adjuster_reserves_the_strip_height() {
    let mut a = ConfigAdjuster::new();
    // with nothing configured a viewport passes through unchanged
    assert_eq!(
        a.adjust(Configuration::ScreenDimensions(1000, 700)),
        Configuration::ScreenDimensions(1000, 700)
    );
    assert_eq!(a.adjust(Configuration::FontSize(30)), Configuration::FontSize(30));
    assert_eq!(
        a.adjust(Configuration::FontCanvasVStretch(140)),
        Configuration::FontCanvasVStretch(140)
    );
    assert_eq!(
        a.adjust(Configuration::ScreenDimensions(1000, 700)),
        Configuration::ScreenDimensions(1000, 658)
    );
    // a viewport lower than the strip is clamped to zero height
    assert_eq!(
        a.adjust(Configuration::ScreenDimensions(100, 30)),
        Configuration::ScreenDimensions(100, 0)
    );
    assert_eq!(a.adjust(Configuration::Tick), Configuration::Tick);
}

#[test]
fn fit_dims_never_upscales() {
    assert_eq!(fit_dims(800, 600, 1000, 658), (800, 600));
    assert_eq!(fit_dims(1, 1, 4000, 4000), (1, 1));
}

#[test]
fn fit_dims_scales_down_preserving_aspect() {
    // height-constrained: 1200x800 into 1000x658
    assert_eq!(fit_dims(1200, 800, 1000, 658), (987, 658));
    // width-constrained: 2000x500 into 1000x658
    assert_eq!(fit_dims(2000, 500, 1000, 658), (1000, 250));
    // extreme aspect ratios are clamped to at least one pixel
    assert_eq!(fit_dims(10_000, 1, 10, 10), (10, 1));
}

#[test]
fn text_join_emits_only_once_all_four_are_known() {
    let mut join = TextJoin::new();
    // nothing known: no emission, not even with text
    assert!(join.on_notify(None, &vec![Configuration::Tick]).is_none());
    assert!(join.on_notify(Some(lines("hello")), &Vec::new()).is_none());
    // viewport and font size alone are not enough
    let cfg = vec![Configuration::ScreenDimensions(1000, 700), Configuration::FontSize(30)];
    assert!(join.on_notify(None, &cfg).is_none());
    // the stretch factor completes the set: this notification emits
    let req = join
        .on_notify(None, &vec![Configuration::FontCanvasVStretch(140)])
        .expect("all four inputs are known");
    assert_eq!(req.lines, lines("hello"));
    assert_eq!(req.font_size, 30);
    assert_eq!(req.width, 1000);
    assert_eq!(req.height, 42);
    assert_eq!(req.x, 0);
    assert_eq!(req.y, 700 - 42);
}

#[test]
fn text_join_stays_silent_without_an_update() {
    let mut join = TextJoin::new();
    let cfg = vec![
        Configuration::ScreenDimensions(1000, 700),
        Configuration::FontSize(30),
        Configuration::FontCanvasVStretch(140),
    ];
    assert!(join.on_notify(None, &cfg).is_none());
    assert!(join.on_notify(Some(lines("first")), &Vec::new()).is_some());
    // a notification with no text and no relevant update emits nothing,
    // and a bare tick is not a relevant update
    assert!(join.on_notify(None, &Vec::new()).is_none());
    assert!(join.on_notify(None, &vec![Configuration::Tick]).is_none());
    // a new text emits exactly once more
    assert!(join.on_notify(Some(lines("second")), &Vec::new()).is_some());
}

#[test]
fn enormous_font_saturates_the_strip_height() {
    let mut join = TextJoin::new();
    let cfg = vec![
        Configuration::ScreenDimensions(100, 100),
        Configuration::FontSize(u32::MAX),
        Configuration::FontCanvasVStretch(u32::MAX),
    ];
    assert!(join.on_notify(None, &cfg).is_none());
    let req = join.on_notify(Some(lines("big")), &Vec::new()).expect("all four are known");
    // the true strip height exceeds any possible strip: the height
    // saturates, and the anchor moves above the viewport accordingly
    assert_eq!(req.height, u32::MAX);
    let strip = ((u128::from(u32::MAX) * u128::from(u32::MAX) + 99) / 100) as i64;
    assert_eq!(req.y, 100 - strip);
}

#[test]
fn resize_join_refuses_a_degenerate_viewport() {
    let mut join = ResizeJoin::new();
    assert!(join.on_notify(Some(image(10, 10)), &Vec::new()).is_none());
    // the strip ate the whole viewport: no placement for a zero-height area
    assert!(join.on_notify(None, &vec![Configuration::ScreenDimensions(100, 0)]).is_none());
    // a usable viewport brings the placement back
    assert!(join.on_notify(None, &vec![Configuration::ScreenDimensions(100, 50)]).is_some());
}

#[test]
fn resize_join_centers_the_fitted_image() {
    let mut join = ResizeJoin::new();
    assert!(join.on_notify(Some(image(800, 600)), &Vec::new()).is_none());
    let p = join
        .on_notify(None, &vec![Configuration::ScreenDimensions(1000, 658)])
        .expect("image and viewport are known");
    assert_eq!(p.key, PHOTO_SLOT);
    assert_eq!((p.x, p.y), (100, 29));
    assert_eq!((p.image.width, p.image.height), (800, 600));
    // the image fits: the pixels went through unchanged
    assert_eq!(p.image.pixels, image(800, 600).pixels);
}

#[test]
fn resize_join_rescales_on_viewport_change() {
    let mut join = ResizeJoin::new();
    assert!(join.on_notify(Some(image(1200, 800)), &Vec::new()).is_none());
    let p = join
        .on_notify(None, &vec![Configuration::ScreenDimensions(1000, 658)])
        .expect("image and viewport are known");
    assert_eq!((p.image.width, p.image.height), (987, 658));
    assert_eq!((p.x, p.y), (6, 0));
    // the buffer was really resampled to the fitted dimensions
    assert_eq!(p.image.pixels.len(), 987 * 658 * 3);
    // a later viewport change rescales the remembered image
    let p2 = join
        .on_notify(None, &vec![Configuration::ScreenDimensions(600, 400)])
        .expect("viewport changed");
    assert_eq!((p2.image.width, p2.image.height), (600, 400));
    assert_eq!((p2.x, p2.y), (0, 0));
    // but a notification without image or viewport emits nothing
    assert!(join.on_notify(None, &vec![Configuration::FontSize(30)]).is_none());
}

#[test]
fn compose_blanks_the_old_box_before_the_new_image() {
    let mut compose = Compose::new();
    // first appearance of a slot: no blank
    let out = compose.on_notify(vec![Placement { key: PHOTO_SLOT, x: 100, y: 29, image: image(800, 600) }]);
    assert_eq!(out.len(), 1);
    match &out[0] {
        Render::Image { key, x, y, image } => {
            assert_eq!((*key, *x, *y), (PHOTO_SLOT, 100, 29));
            assert_eq!((image.width, image.height), (800, 600));
        }
        _ => panic!("expected an image instruction"),
    }
    // the slot shrinks: the old box is blanked strictly before the new image
    let out = compose.on_notify(vec![Placement { key: PHOTO_SLOT, x: 6, y: 0, image: image(987, 658) }]);
    assert_eq!(out.len(), 2);
    match &out[0] {
        Render::Blank { key, x, y, width, height } => {
            assert_eq!((*key, *x, *y, *width, *height), (PHOTO_SLOT, 100, 29, 800, 600));
        }
        _ => panic!("expected the blank to come first"),
    }
    match &out[1] {
        Render::Image { key, x, y, .. } => {
            assert_eq!((*key, *x, *y), (PHOTO_SLOT, 6, 0));
        }
        _ => panic!("expected the image to come second"),
    }
}

#[test]
fn compose_keeps_slots_independent() {
    let mut compose = Compose::new();
    let out = compose.on_notify(vec![
        Placement { key: PHOTO_SLOT, x: 0, y: 0, image: image(10, 10) },
        Placement { key: STATUS_TEXT_SLOT, x: 0, y: 658, image: image(1000, 42) },
    ]);
    assert_eq!(out.len(), 2);
    // only the text slot is updated: the photo slot keeps its contents
    let out = compose.on_notify(vec![
        Placement { key: STATUS_TEXT_SLOT, x: 0, y: 658, image: image(900, 42) },
    ]);
    assert_eq!(out.len(), 2);
    match &out[0] {
        Render::Blank { key, width, height, .. } => {
            assert_eq!((*key, *width, *height), (STATUS_TEXT_SLOT, 1000, 42));
        }
        _ => panic!("expected a blank for the text slot"),
    }
    match &out[1] {
        Render::Image { key, .. } => assert_eq!(*key, STATUS_TEXT_SLOT),
        _ => panic!("expected the new text strip"),
    }
}
