use window_renderer::{
    dispatcher_system, Dispatcher, Extent, GpuCommand, PresentMode, RendererError,
    RendererStatus, SurfaceCapabilities, SurfaceConfiguration, TextureFormat, Window, WindowId,
    Windows,
};

fn window(id: WindowId, width: u32, height: u32) -> Window {
    Window { id, physical_width: width, physical_height: height, vsync: true }
}

fn capabilities() -> SurfaceCapabilities {
    SurfaceCapabilities {
        formats: vec![TextureFormat::Bgra8Unorm],
        present_modes: vec![PresentMode::Mailbox, PresentMode::Fifo],
    }
}

fn windows(all: &[Window]) -> Windows {
    let mut windows = Windows::new();
    for window in all {
        windows.add(*window);
    }
    windows
}

#[test]
fn windows_are_found_by_their_identifier() {
    let all = windows(&[window(1, 640, 480), window(2, 320, 200)]);
    assert_eq!(all.get(1), Some(&window(1, 640, 480)));
    assert_eq!(all.get(2), Some(&window(2, 320, 200)));
    assert_eq!(all.get(3), None);
    assert_eq!(window(2, 320, 200).physical_extent(), Extent { width: 320, height: 200 });
}

#[test]
fn windows_keep_the_latest_record_of_a_window() {
    let mut all = windows(&[window(1, 640, 480)]);
    all.add(window(1, 800, 600));
    assert_eq!(all.get(1), Some(&window(1, 800, 600)));
}

#[test]
fn new_dispatcher_has_no_renderers() {
    let dispatcher = Dispatcher::new();
    assert_eq!(dispatcher.len(), 0);
    assert_eq!(dispatcher.find(0), None);
}

#[test]
fn created_windows_are_requested_in_the_order_of_their_events() {
    let dispatcher = Dispatcher::new();
    let all = windows(&[window(1, 640, 480), window(2, 320, 200), window(3, 10, 10)]);
    let requests = dispatcher_system(&dispatcher, &vec![3, 1, 2], &all);
    assert_eq!(requests, vec![window(3, 10, 10), window(1, 640, 480), window(2, 320, 200)]);
}

#[test]
fn created_event_for_a_window_that_is_gone_is_dropped() {
    let dispatcher = Dispatcher::new();
    let all = windows(&[window(2, 320, 200)]);
    let requests = dispatcher_system(&dispatcher, &vec![9, 2, 4], &all);
    assert_eq!(requests, vec![window(2, 320, 200)]);
    assert_eq!(dispatcher_system(&dispatcher, &vec![9], &all), Vec::new());
}

#[test]
fn created_window_is_requested_once_however_often_it_is_named() {
    let dispatcher = Dispatcher::new();
    let all = windows(&[window(1, 640, 480), window(2, 320, 200)]);
    let requests = dispatcher_system(&dispatcher, &vec![2, 9, 2, 1, 2, 1], &all);
    assert_eq!(requests, vec![window(2, 320, 200), window(1, 640, 480)]);
}

#[test]
fn no_events_no_requests() {
    let dispatcher = Dispatcher::new();
    let all = windows(&[window(1, 640, 480)]);
    assert_eq!(dispatcher_system(&dispatcher, &Vec::new(), &all), Vec::new());
}

#[test]
fn window_with_a_renderer_is_not_requested_again() {
    let mut dispatcher = Dispatcher::new();
    let all = windows(&[window(1, 640, 480), window(2, 320, 200)]);
    dispatcher.new_renderer(&window(1, 640, 480), &capabilities()).unwrap();
    let requests = dispatcher_system(&dispatcher, &vec![1, 2], &all);
    assert_eq!(requests, vec![window(2, 320, 200)]);
}

#[test]
fn renderers_are_registered_in_the_order_in_which_they_are_made() {
    let mut dispatcher = Dispatcher::new();
    let setup = dispatcher.new_renderer(&window(5, 640, 480), &capabilities()).unwrap();
    dispatcher.new_renderer(&window(3, 320, 200), &capabilities()).unwrap();
    assert_eq!(dispatcher.len(), 2);
    assert_eq!(dispatcher.renderer(0).window_id(), 5);
    assert_eq!(dispatcher.renderer(1).window_id(), 3);
    assert_eq!(dispatcher.find(5), Some(0));
    assert_eq!(dispatcher.find(3), Some(1));
    assert_eq!(dispatcher.find(4), None);
    assert_eq!(setup.len(), 8);
    assert_eq!(
        setup[0],
        GpuCommand::ConfigureSurface(SurfaceConfiguration {
            format: TextureFormat::Bgra8Unorm,
            width: 640,
            height: 480,
            present_mode: PresentMode::Fifo,
        })
    );
    assert_eq!(dispatcher.renderer(0).status(), RendererStatus::Stable);
}

#[test]
fn second_renderer_for_a_window_is_refused() {
    let mut dispatcher = Dispatcher::new();
    dispatcher.new_renderer(&window(5, 640, 480), &capabilities()).unwrap();
    let again = dispatcher.new_renderer(&window(5, 800, 600), &capabilities());
    assert_eq!(again, Err(RendererError::DuplicateWindow));
    assert_eq!(dispatcher.len(), 1);
    assert_eq!(dispatcher.renderer(0).config().width, 640);
}

#[test]
fn refused_renderer_is_not_registered() {
    let mut dispatcher = Dispatcher::new();
    let none = SurfaceCapabilities { formats: Vec::new(), present_modes: Vec::new() };
    assert_eq!(
        dispatcher.new_renderer(&window(1, 640, 480), &none),
        Err(RendererError::NoSurfaceFormat)
    );
    let no_mode =
        SurfaceCapabilities { formats: vec![TextureFormat::Bgra8Unorm], present_modes: Vec::new() };
    assert_eq!(
        dispatcher.new_renderer(&window(1, 640, 480), &no_mode),
        Err(RendererError::NoPresentMode)
    );
    assert_eq!(
        dispatcher.new_renderer(&window(1, 0, 480), &capabilities()),
        Err(RendererError::ZeroExtent)
    );
    assert_eq!(dispatcher.len(), 0);
    assert!(dispatcher.new_renderer(&window(1, 640, 480), &capabilities()).is_ok());
}

#[test]
fn drive_advances_one_renderer_and_leaves_the_others() {
    let mut dispatcher = Dispatcher::new();
    dispatcher.new_renderer(&window(1, 640, 480), &capabilities()).unwrap();
    dispatcher.new_renderer(&window(2, 320, 200), &capabilities()).unwrap();
    let other = dispatcher.renderer(0).state();
    let commands = dispatcher.drive(1, Some(&window(2, 400, 300)));
    assert_eq!(commands.len(), 11);
    assert_eq!(dispatcher.renderer(0).state(), other);
    assert_eq!(dispatcher.renderer(1).config().width, 400);
    assert_eq!(dispatcher.renderer(1).config().height, 300);
    assert_eq!(dispatcher.renderer(1).window_id(), 2);
    let commands = dispatcher.drive(0, None);
    assert_eq!(commands.len(), 5);
}
