use rahmen::dataflow::ImageData;
use rahmen::errors::{fatal_err, suppress_err, RahmenError, RunControl};
use rahmen::loader::{Loader, LoaderStep};
use rahmen::provider::Provider;
use rahmen::provider_directory::DirectoryProvider;
use rahmen::provider_glob::GlobProvider;
use rahmen::provider_list::ListProvider;

fn image(width: u32, height: u32) -> ImageData {
    ImageData { width, height, pixels: vec![0u8; (width * height * 3) as usize] }
}

fn paths(names: &[&str]) -> Vec<String> {
    names.iter().map(|n| n.to_string()).collect()
}

#[test]
fn list_provider_yields_lines_in_order_then_exhausts() {
    let mut p = ListProvider::new(paths(&["a.jpg", "b.jpg"]));
    assert_eq!(p.next_image().unwrap(), Some("a.jpg".to_string()));
    assert_eq!(p.next_image().unwrap(), Some("b.jpg".to_string()));
    assert_eq!(p.next_image().unwrap(), None);
    assert_eq!(p.next_image().unwrap(), None);
}

#[test]
fn glob_and_directory_providers_yield_their_paths() {
    let mut g = GlobProvider::new(paths(&["x.jpg"]));
    assert_eq!(g.next_image().unwrap(), Some("x.jpg".to_string()));
    assert_eq!(g.next_image().unwrap(), None);
    let mut d = DirectoryProvider::new(paths(&["y.jpg"]));
    assert_eq!(d.next_image().unwrap(), Some("y.jpg".to_string()));
    assert_eq!(d.next_image().unwrap(), None);
}

#[test]
fn fatal_err_maps_exhaustion_and_errors_to_terminate() {
    assert_eq!(fatal_err::<u32>(Ok(Some(7))), Ok(7));
    assert_eq!(fatal_err::<u32>(Ok(None)), Err(RunControl::Terminate));
    assert_eq!(fatal_err::<u32>(Err(RahmenError::Retry)), Err(RunControl::Terminate));
    assert_eq!(
        fatal_err::<u32>(Err(RahmenError::CaseUnknown("nocase".to_string()))),
        Err(RunControl::Terminate)
    );
}

#[test]
fn suppress_err_maps_errors_to_suppressed() {
    assert_eq!(suppress_err::<u32>(Ok(3)), Ok(3));
    assert_eq!(suppress_err::<u32>(Err(RahmenError::Retry)), Err(RunControl::Suppressed));
    assert_eq!(suppress_err::<u32>(Err(RahmenError::Terminate)), Err(RunControl::Suppressed));
}

#[test]
fn retry_consumes_failures_within_the_tick() {
    // two decode failures, then a success: one tick, one loaded pair
    let mut source = ListProvider::new(paths(&["one", "two", "three", "four"]));
    let mut loader = Loader::new(10);

    let step = loader.on_tick(&mut source);
    let p1 = match step {
        LoaderStep::NeedDecode(p) => p,
        _ => panic!("expected a decode request"),
    };
    assert_eq!(p1, "one");

    let step = loader.on_decode(&mut source, Err(RunControl::Suppressed));
    let p2 = match step {
        LoaderStep::NeedDecode(p) => p,
        _ => panic!("expected a decode request"),
    };
    assert_eq!(p2, "two");

    let step = loader.on_decode(&mut source, Err(RunControl::Suppressed));
    let p3 = match step {
        LoaderStep::NeedDecode(p) => p,
        _ => panic!("expected a decode request"),
    };
    assert_eq!(p3, "three");

    let step = loader.on_decode(&mut source, Ok(image(8, 4)));
    match step {
        LoaderStep::Loaded(p, img) => {
            assert_eq!(p, "three");
            assert_eq!(img.width, 8);
            assert_eq!(img.height, 4);
        }
        _ => panic!("expected a loaded pair"),
    }
    // the next tick pulls the next path; nothing was emitted in between
    let step = loader.on_tick(&mut source);
    match step {
        LoaderStep::NeedDecode(p) => assert_eq!(p, "four"),
        _ => panic!("expected a decode request"),
    }
}

#[test]
fn exhausted_source_terminates_the_run() {
    let mut source = ListProvider::new(Vec::new());
    let mut loader = Loader::new(3);
    match loader.on_tick(&mut source) {
        LoaderStep::Terminate => {}
        _ => panic!("expected termination"),
    }
}

#[test]
fn exhaustion_during_retry_terminates_the_run() {
    let mut source = ListProvider::new(paths(&["only"]));
    let mut loader = Loader::new(5);
    match loader.on_tick(&mut source) {
        LoaderStep::NeedDecode(p) => assert_eq!(p, "only"),
        _ => panic!("expected a decode request"),
    }
    match loader.on_decode(&mut source, Err(RunControl::Suppressed)) {
        LoaderStep::Terminate => {}
        _ => panic!("expected termination"),
    }
}

#[test]
fn exceeding_the_retry_bound_terminates_the_run() {
    let mut source = ListProvider::new(paths(&["a", "b", "c", "d"]));
    let mut loader = Loader::new(2);
    match loader.on_tick(&mut source) {
        LoaderStep::NeedDecode(_) => {}
        _ => panic!("expected a decode request"),
    }
    // two retries are tolerated
    match loader.on_decode(&mut source, Err(RunControl::Suppressed)) {
        LoaderStep::NeedDecode(p) => assert_eq!(p, "b"),
        _ => panic!("expected a decode request"),
    }
    match loader.on_decode(&mut source, Err(RunControl::Suppressed)) {
        LoaderStep::NeedDecode(p) => assert_eq!(p, "c"),
        _ => panic!("expected a decode request"),
    }
    // the third consecutive failure exceeds the bound
    match loader.on_decode(&mut source, Err(RunControl::Suppressed)) {
        LoaderStep::Terminate => {}
        _ => panic!("expected termination"),
    }
}
