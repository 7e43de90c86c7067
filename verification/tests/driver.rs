use overlay_hook::driver::{
    check_displaced, check_window, DriverAction, FrameDriver, InitError, Installed,
    OverlaySettings, DISPLAY_HEIGHT, DISPLAY_WIDTH,
};
use overlay_hook::interceptor::{Disposition, ForwardedEvent, Interceptor};
use overlay_hook::keymap::{KeyBinding, LogicalKey};
use overlay_hook::message::{WM_ACTIVATE, WM_CHAR, WM_KEYDOWN, WM_MOUSEWHEEL};
use overlay_hook::timing::{FrameTiming, MICROS_PER_SECOND};

const DISPLACED: isize = 0x5150;

/// What stands outside the driver in these tests: it counts what it is
/// asked to do and builds the overlay as it is told to.
struct Outside {
    constructor_calls: usize,
    original_calls: Vec<isize>,
    frames: Vec<FrameTiming>,
    build: Result<isize, InitError>,
}

impl Outside {
    fn new(build: Result<isize, InitError>) -> Outside {
        Outside {
            constructor_calls: 0,
            original_calls: Vec::new(),
            frames: Vec::new(),
            build,
        }
    }

    /// One presentation call, from the host's call to the original function.
    fn present(&mut self, driver: &mut FrameDriver<u32>, surface: isize, now: u64) {
        let mut action = driver.on_present(surface, now);
        loop {
            action = match action {
                DriverAction::Initialize { .. } => {
                    self.constructor_calls += 1;
                    let outcome = self.build.map(|displaced| Installed {
                        displaced,
                        backend: 0u32,
                    });
                    driver.on_init_finished(outcome)
                }
                DriverAction::Render { timing, backend, .. } => {
                    self.frames.push(timing);
                    // The resources are lent for the frame: the driver has none.
                    assert!(driver.backend().is_none());
                    driver.on_frame_finished(backend + 1)
                }
                DriverAction::CallOriginal { surface } => {
                    self.original_calls.push(surface);
                    return;
                }
                DriverAction::Nothing => panic!("the driver asked for nothing"),
            };
        }
    }
}

#[test]
fn initialization_runs_once_over_many_calls() {
    for calls in [1usize, 2, 3, 10, 100] {
        let mut driver: FrameDriver<u32> = FrameDriver::new();
        let mut outside = Outside::new(Ok(DISPLACED));
        for call in 0..calls {
            outside.present(&mut driver, 0x77, call as u64 * 16_000);
        }
        assert_eq!(outside.constructor_calls, 1);
        assert_eq!(outside.original_calls.len(), calls);
        assert_eq!(outside.frames.len(), calls);
        assert!(driver.is_initialized());
        assert_eq!(*driver.backend().unwrap() as usize, calls);
    }
}

#[test]
fn failed_initialization_is_not_tried_again() {
    for error in [
        InitError::NoWindow,
        InitError::UiContext,
        InitError::Renderer,
        InitError::ProcedureSwap(1400),
    ] {
        let mut driver: FrameDriver<u32> = FrameDriver::new();
        let mut outside = Outside::new(Err(error));
        for call in 0..5u64 {
            outside.present(&mut driver, 0x42 + call as isize, call * 16_000);
        }
        assert_eq!(outside.constructor_calls, 1);
        assert_eq!(outside.original_calls, vec![0x42, 0x43, 0x44, 0x45, 0x46]);
        assert!(outside.frames.is_empty());
        assert!(!driver.is_initialized());
        assert_eq!(driver.failure(), Some(error));
        assert!(driver.backend().is_none());
        assert_eq!(driver.interceptor(), Interceptor::Unarmed);
    }
}

#[test]
fn build_without_displaced_procedure_is_a_failure() {
    let mut driver: FrameDriver<u32> = FrameDriver::new();
    let mut outside = Outside::new(Ok(0));
    outside.present(&mut driver, 1, 0);
    outside.present(&mut driver, 1, 16_000);
    assert_eq!(outside.constructor_calls, 1);
    assert_eq!(outside.original_calls, vec![1, 1]);
    assert!(outside.frames.is_empty());
    assert_eq!(driver.failure(), Some(InitError::ProcedureSwap(0)));
}

#[test]
fn frame_timing_follows_the_presentation_calls() {
    let mut driver: FrameDriver<u32> = FrameDriver::new();
    let mut outside = Outside::new(Ok(DISPLACED));
    let surface = 0x0dc0;
    // Calls at 0 ms, 16 ms later, and 16 ms later again.
    for now in [0u64, 16_000, 32_000] {
        outside.present(&mut driver, surface, now);
    }
    let deltas: Vec<f64> = outside
        .frames
        .iter()
        .map(|timing| timing.delta_micros as f64 / MICROS_PER_SECOND as f64)
        .collect();
    assert_eq!(deltas.len(), 3);
    for (delta, expected) in deltas.iter().zip([0.0, 0.016, 0.016]) {
        assert!((delta - expected).abs() < 0.001);
    }
    assert_eq!(outside.frames[0].delta_micros, 0);
    assert_eq!(outside.frames[1].delta_micros, 16_000);
    assert_eq!(outside.frames[2].delta_micros, 16_000);
    assert_eq!(outside.frames[2].last_micros, Some(32_000));
    // The original function was called once per call, with what was given.
    assert_eq!(outside.original_calls, vec![surface, surface, surface]);
    assert_eq!(outside.constructor_calls, 1);
}

#[test]
fn original_gets_the_surface_of_its_own_call() {
    let mut driver: FrameDriver<u32> = FrameDriver::new();
    let mut outside = Outside::new(Ok(DISPLACED));
    let surfaces = [5isize, -1, 0, isize::MAX, isize::MIN, 5];
    for (call, surface) in surfaces.iter().enumerate() {
        outside.present(&mut driver, *surface, call as u64);
    }
    assert_eq!(outside.original_calls, surfaces.to_vec());
}

#[test]
fn first_call_asks_for_the_overlay_with_its_settings() {
    let mut driver: FrameDriver<()> = FrameDriver::new();
    assert!(!driver.is_initialized());
    assert_eq!(driver.failure(), None);
    assert_eq!(driver.timing(), FrameTiming { last_micros: None, delta_micros: 0 });
    match driver.on_present(0x99, 1_000) {
        DriverAction::Initialize { surface, settings, key_map } => {
            assert_eq!(surface, 0x99);
            assert_eq!(key_map, overlay_hook::keymap::key_map());
            assert_eq!(key_map.len(), 21);
            assert_eq!(
                key_map[0],
                KeyBinding { key: LogicalKey::Tab, code: 0x09 }
            );
            assert_eq!(
                key_map[20],
                KeyBinding { key: LogicalKey::Z, code: 0x5a }
            );
            assert_eq!(settings, OverlaySettings::new());
            assert_eq!(settings.display_width, 600);
            assert_eq!(settings.display_height, 200);
            assert_eq!((DISPLAY_WIDTH, DISPLAY_HEIGHT), (600, 200));
            assert!(settings.nav_active);
            assert!(settings.nav_visible);
            assert!(!settings.persist_settings);
        }
        _ => panic!("the first call must ask for the overlay"),
    }
    assert!(!driver.is_initialized());
    assert_eq!(driver.interceptor(), Interceptor::Unarmed);
}

#[test]
fn presentation_during_initialization_passes_through() {
    let mut driver: FrameDriver<()> = FrameDriver::new();
    assert!(matches!(
        driver.on_present(1, 0),
        DriverAction::Initialize { surface: 1, .. }
    ));
    // A second call arrives before the overlay is built.
    assert!(matches!(
        driver.on_present(2, 5),
        DriverAction::CallOriginal { surface: 2 }
    ));
    assert!(matches!(
        driver.on_present(3, 9),
        DriverAction::CallOriginal { surface: 3 }
    ));
    // The nested calls have not been timed.
    assert_eq!(driver.timing().last_micros, Some(0));
    let built = driver.on_init_finished(Ok(Installed { displaced: DISPLACED, backend: () }));
    assert!(matches!(built, DriverAction::Render { .. }));
    // And one that arrives while the frame is drawn.
    assert!(matches!(
        driver.on_present(4, 12),
        DriverAction::CallOriginal { surface: 4 }
    ));
    assert!(matches!(
        driver.on_frame_finished(()),
        DriverAction::CallOriginal { surface: 1 }
    ));
    assert!(driver.is_initialized());
}

#[test]
fn reports_that_nothing_waits_for_change_nothing() {
    let mut driver: FrameDriver<u8> = FrameDriver::new();
    assert!(matches!(driver.on_frame_finished(9), DriverAction::Nothing));
    assert!(matches!(
        driver.on_init_finished(Ok(Installed { displaced: DISPLACED, backend: 1 })),
        DriverAction::Nothing
    ));
    assert!(!driver.is_initialized());
    assert!(matches!(
        driver.on_present(1, 0),
        DriverAction::Initialize { .. }
    ));
    assert!(matches!(driver.on_frame_finished(9), DriverAction::Nothing));
    assert!(!driver.is_initialized());
    assert!(matches!(
        driver.on_init_finished(Ok(Installed { displaced: DISPLACED, backend: 2 })),
        DriverAction::Render { backend: 2, .. }
    ));
    assert!(matches!(
        driver.on_init_finished(Ok(Installed { displaced: 0x1, backend: 3 })),
        DriverAction::Nothing
    ));
    assert_eq!(driver.interceptor(), Interceptor::Armed(DISPLACED));
    assert_eq!(driver.backend(), None);
    assert!(matches!(
        driver.on_frame_finished(4),
        DriverAction::CallOriginal { surface: 1 }
    ));
    assert_eq!(driver.backend(), Some(&4));
    assert!(matches!(driver.on_frame_finished(5), DriverAction::Nothing));
    assert_eq!(driver.backend(), Some(&4));
    assert!(matches!(
        driver.on_init_finished(Err(InitError::Renderer)),
        DriverAction::Nothing
    ));
    assert!(driver.is_initialized());
    assert_eq!(driver.failure(), None);
}

#[test]
fn resources_are_lent_with_every_frame() {
    let mut driver: FrameDriver<String> = FrameDriver::new();
    driver.on_present(1, 0);
    let lent = match driver.on_init_finished(Ok(Installed {
        displaced: DISPLACED,
        backend: String::from("context"),
    })) {
        DriverAction::Render { backend, .. } => backend,
        _ => panic!("a built overlay draws its first frame"),
    };
    assert_eq!(lent, "context");
    assert!(driver.is_initialized());
    assert_eq!(driver.backend(), None);
    driver.on_frame_finished(lent + " after one frame");
    assert_eq!(
        driver.backend().map(String::as_str),
        Some("context after one frame")
    );
    match driver.on_present(1, 16_000) {
        DriverAction::Render { backend, .. } => {
            assert_eq!(backend, "context after one frame");
            driver.on_frame_finished(backend);
        }
        _ => panic!("a built overlay draws every frame"),
    }
    assert_eq!(
        driver.backend().map(String::as_str),
        Some("context after one frame")
    );
}

#[test]
fn window_events_flow_only_once_the_overlay_is_built() {
    let mut driver: FrameDriver<()> = FrameDriver::new();
    assert_eq!(driver.on_window_event(WM_KEYDOWN, 0x41, 0), None);
    assert_eq!(driver.on_window_event(WM_ACTIVATE, 1, 0), None);
    driver.on_present(1, 0);
    assert_eq!(driver.on_window_event(WM_KEYDOWN, 0x41, 0), None);
    driver.on_init_finished(Ok(Installed { displaced: DISPLACED, backend: () }));
    assert_eq!(driver.interceptor(), Interceptor::Armed(DISPLACED));
    assert_eq!(
        driver.on_window_event(WM_KEYDOWN, 0x41, 7),
        Some(Disposition::Forward(ForwardedEvent {
            procedure: DISPLACED,
            message: WM_KEYDOWN,
            wparam: 0x41,
            lparam: 7,
        }))
    );
    assert_eq!(
        driver.on_window_event(WM_ACTIVATE, 1, 0),
        Some(Disposition::Consumed(1))
    );
    driver.on_frame_finished(());
    assert_eq!(
        driver.on_window_event(0x0400, 3, 4),
        Some(Disposition::Forward(ForwardedEvent {
            procedure: DISPLACED,
            message: 0x0400,
            wparam: 3,
            lparam: 4,
        }))
    );
}

#[test]
fn disabled_driver_lets_window_events_be() {
    let mut driver: FrameDriver<()> = FrameDriver::new();
    driver.on_present(1, 0);
    assert!(matches!(
        driver.on_init_finished(Err(InitError::UiContext)),
        DriverAction::CallOriginal { surface: 1 }
    ));
    assert_eq!(driver.on_window_event(WM_KEYDOWN, 0x41, 0), None);
    assert_eq!(driver.on_window_event(WM_ACTIVATE, 1, 0), None);
}

#[test]
fn a_frame_reads_what_events_wrote_and_resets_the_wheel() {
    let mut driver: FrameDriver<()> = FrameDriver::new();
    driver.on_present(1, 0);
    match driver.on_init_finished(Ok(Installed { displaced: DISPLACED, backend: () })) {
        DriverAction::Render { timing, input, .. } => {
            assert_eq!(timing.delta_micros, 0);
            assert_eq!(input.wheel, 0);
            assert_eq!(input.pointer, None);
            assert!(input.characters.is_empty());
            assert!(input.keys_down.iter().all(|down| !down));
        }
        _ => panic!("a built overlay draws its first frame"),
    }
    driver.on_frame_finished(());
    driver.on_window_event(WM_KEYDOWN, 0x26, 0);
    driver.on_window_event(WM_MOUSEWHEEL, 0x0078_0000, 0);
    driver.on_window_event(WM_MOUSEWHEEL, 0x0078_0000, 0);
    driver.on_window_event(WM_CHAR, 0x6f, 0);
    driver.on_window_event(WM_CHAR, 0x6b, 0);
    match driver.on_present(1, 20_000) {
        DriverAction::Render { timing, input, .. } => {
            assert_eq!(timing.delta_micros, 20_000);
            assert!(input.keys_down[0x26]);
            assert_eq!(input.wheel, 240);
            assert_eq!(input.characters, vec!['o', 'k']);
            // The frame before has left the pointer alone.
            assert_eq!(input.pointer, None);
            assert_eq!(input.mouse_down, [false; 5]);
        }
        _ => panic!("a built overlay draws every frame"),
    }
    // An event that comes while the frame is drawn is kept for the next one.
    driver.on_window_event(WM_MOUSEWHEEL, 0xff88_0000, 0);
    driver.on_frame_finished(());
    match driver.on_present(1, 40_000) {
        DriverAction::Render { input, .. } => {
            assert!(input.keys_down[0x26]);
            assert_eq!(input.wheel, -120);
            assert!(input.characters.is_empty());
        }
        _ => panic!("a built overlay draws every frame"),
    }
}

#[test]
fn presentation_calls_leave_what_is_held() {
    let mut driver: FrameDriver<()> = FrameDriver::new();
    driver.on_present(1, 0);
    driver.on_init_finished(Ok(Installed { displaced: DISPLACED, backend: () }));
    driver.on_frame_finished(());
    driver.on_window_event(WM_KEYDOWN, 0x41, 0);
    driver.on_window_event(WM_KEYDOWN, 0x10, 0);
    driver.on_window_event(0x0201, 1, 0);
    driver.on_window_event(0x020b, 0x0002_0000, 0);
    for call in 1..=3u64 {
        match driver.on_present(1, call * 16_000) {
            DriverAction::Render { input, .. } => {
                let held: Vec<usize> = (0..256).filter(|code| input.keys_down[*code]).collect();
                assert_eq!(held, vec![0x10, 0x41]);
                assert_eq!(input.mouse_down, [true, false, false, false, true]);
                assert_eq!(input.pointer, None);
                assert_eq!(input.wheel, 0);
                assert!(input.characters.is_empty());
            }
            _ => panic!("a built overlay draws every frame"),
        }
        assert_eq!(driver.interceptor(), Interceptor::Armed(DISPLACED));
        driver.on_frame_finished(());
        assert_eq!(driver.interceptor(), Interceptor::Armed(DISPLACED));
    }
}

#[test]
fn window_and_procedure_answers_are_checked() {
    assert_eq!(check_window(0), Err(InitError::NoWindow));
    assert_eq!(check_window(0x1_0000), Ok(0x1_0000));
    assert_eq!(check_window(-1), Ok(-1));
    assert_eq!(check_displaced(0, 1400), Err(InitError::ProcedureSwap(1400)));
    assert_eq!(check_displaced(0, 0), Err(InitError::ProcedureSwap(0)));
    assert_eq!(check_displaced(DISPLACED, 1400), Ok(DISPLACED));
}

#[test]
fn init_errors_have_their_messages() {
    assert_eq!(
        InitError::NoWindow.message(),
        "Failed building overlay: the surface has no window"
    );
    assert_eq!(
        InitError::UiContext.message(),
        "Failed building overlay: no user-interface context"
    );
    assert_eq!(
        InitError::Renderer.message(),
        "Failed building overlay: no renderer"
    );
    assert_eq!(
        InitError::ProcedureSwap(1400).message(),
        "Failed replacing window procedure, GetLastError: 1400"
    );
}
