use taco::bindings::Bindings;
use taco::builder::WebViewBuilder;
use taco::dispatch::DispatchQueue;
use taco::error::{completion_result, received, EngineError, Error, E_POINTER};
use taco::json::{Json, Number};
use taco::rpc::{decode_invoke, reply_script};
use taco::window::{
    content_frame_size, placement, pump_step, scale_for_dpi, surface_bounds, window_styles,
    PumpStep, Rect, WindowRunner, CW_USEDEFAULT, WM_CLOSE, WM_SIZE, WS_EX_LAYERED,
    WS_OVERLAPPEDWINDOW, WS_POPUP, WS_THICKFRAME,
};

type Work = Box<dyn FnOnce(&mut Vec<u32>)>;

#[test]
fn dispatched_items_run_in_posting_order() {
    let mut q: DispatchQueue<Work> = DispatchQueue::new();
    for i in 1..=5u32 {
        q.post(Box::new(move |log: &mut Vec<u32>| log.push(i)));
    }
    let mut log = Vec::new();
    while let Some(f) = q.take() {
        f(&mut log);
    }
    assert_eq!(log, vec![1, 2, 3, 4, 5]);
    assert!(q.is_empty());
}

#[test]
fn drain_hands_out_everything_oldest_first() {
    let mut q: DispatchQueue<u32> = DispatchQueue::new();
    q.post(10);
    q.post(20);
    assert_eq!(q.take(), Some(10));
    q.post(30);
    assert_eq!(q.len(), 2);
    assert_eq!(q.drain(), vec![20, 30]);
    assert_eq!(q.len(), 0);
    assert_eq!(q.take(), None);
}

#[test]
fn charges_from_dispatched_closures_add_up() {
    let mut reg: Bindings<fn(&mut i64, &[Json]) -> Result<String, String>> = Bindings::new();
    reg.bind("charge".to_string(), |counter, p| match p {
        [Json::Number(Number::Unsigned(x))] => {
            *counter += *x as i64;
            Ok("null".to_string())
        }
        _ => Err("Usage: window.charge(x)".to_string()),
    });
    let mut q: DispatchQueue<u64> = DispatchQueue::new();
    for x in [1u64, 2, 3] {
        q.post(x);
    }
    let mut counter: i64 = 0;
    let mut id = 0u64;
    while let Some(x) = q.take() {
        id += 1;
        let payload = Json::Object(vec![
            ("id".to_string(), Json::Number(Number::Unsigned(id))),
            ("method".to_string(), Json::Str("charge".to_string())),
            ("params".to_string(), Json::Array(vec![Json::Number(Number::Unsigned(x))])),
        ]);
        let m = reg.route(payload).unwrap();
        let out = reg.get(&m.method).unwrap()(&mut counter, &m.params);
        assert_eq!(out, Ok("null".to_string()));
    }
    assert_eq!(counter, 6);
}

#[test]
fn add_scenario_resolves_with_eight() {
    let m = decode_invoke(Json::Object(vec![
        ("id".to_string(), Json::Number(Number::Unsigned(1))),
        ("method".to_string(), Json::Str("add".to_string())),
        (
            "params".to_string(),
            Json::Array(vec![Json::Number(Number::Unsigned(2)), Json::Number(Number::Unsigned(6))]),
        ),
    ]))
    .unwrap();
    let sum: u64 = m
        .params
        .iter()
        .map(|p| match p {
            Json::Number(Number::Unsigned(v)) => *v,
            _ => 0,
        })
        .sum();
    let js = reply_script(m.id, &Ok(sum.to_string()));
    assert!(js.contains("window._rpc[1].resolve(8);"));
    assert!(js.contains("window._rpc[1] = undefined;"));
}

#[test]
fn surface_matches_the_client_area() {
    let r = surface_bounds(Rect { left: 0, top: 0, right: 640, bottom: 480 });
    assert_eq!(r, Rect { left: 0, top: 0, right: 640, bottom: 480 });
    let r = surface_bounds(Rect { left: 10, top: 20, right: 110, bottom: 70 });
    assert_eq!(r, Rect { left: 0, top: 0, right: 100, bottom: 50 });
    let r = surface_bounds(Rect { left: 0, top: 0, right: 0, bottom: 0 });
    assert_eq!(r, Rect { left: 0, top: 0, right: 0, bottom: 0 });
}

#[test]
fn placement_follows_the_suggested_rectangle() {
    assert_eq!(
        placement(Rect { left: 100, top: 50, right: 900, bottom: 650 }),
        (100, 50, 800, 600)
    );
}

#[test]
fn dpi_scaling_is_exact_and_keeps_the_default_marker() {
    assert_eq!(scale_for_dpi(300, 96), 300);
    assert_eq!(scale_for_dpi(300, 144), 450);
    assert_eq!(scale_for_dpi(300, 120), 375);
    assert_eq!(scale_for_dpi(300, 100), 312);
    assert_eq!(scale_for_dpi(-300, 100), -312);
    assert_eq!(scale_for_dpi(CW_USEDEFAULT, 96), CW_USEDEFAULT);
    assert_eq!(scale_for_dpi(CW_USEDEFAULT, 192), CW_USEDEFAULT);
    assert_eq!(scale_for_dpi(i32::MAX, 192), i32::MAX);
}

#[test]
fn content_frame_adds_the_frame() {
    assert_eq!(content_frame_size(100, 200), (226, 471));
    assert_eq!(content_frame_size(0, 0), (26, 71));
}

#[test]
fn styles_follow_the_switches() {
    assert_eq!(
        window_styles(WS_OVERLAPPEDWINDOW, 0, false, true, false),
        (WS_OVERLAPPEDWINDOW, 0)
    );
    assert_eq!(
        window_styles(WS_OVERLAPPEDWINDOW, 0, true, true, false),
        (WS_POPUP | WS_THICKFRAME, 0)
    );
    assert_eq!(
        window_styles(WS_OVERLAPPEDWINDOW, 0, true, false, true),
        (WS_POPUP, WS_EX_LAYERED)
    );
    assert_eq!(
        window_styles(WS_OVERLAPPEDWINDOW, 0, false, false, false),
        (WS_OVERLAPPEDWINDOW & !WS_THICKFRAME, 0)
    );
}

#[test]
fn builder_defaults() {
    let b = WebViewBuilder::default();
    assert_eq!(b.style, WS_OVERLAPPEDWINDOW);
    assert_eq!(b.exstyle, 0);
    assert_eq!((b.x, b.y, b.width, b.height), (CW_USEDEFAULT, CW_USEDEFAULT, CW_USEDEFAULT, CW_USEDEFAULT));
    assert_eq!(b.title, "");
    assert_eq!(b.url, "");
    assert!(b.debug && b.resizable && !b.frameless && !b.transparent);
    assert_eq!(b.styles(), (WS_OVERLAPPEDWINDOW, 0));
    let frameless = WebViewBuilder { frameless: true, transparent: true, ..Default::default() };
    assert_eq!(frameless.styles(), (WS_POPUP | WS_THICKFRAME, WS_EX_LAYERED));
}

#[test]
fn pump_reads_fetch_results() {
    assert_eq!(pump_step(-1), PumpStep::Fail);
    assert_eq!(pump_step(0), PumpStep::Quit);
    assert_eq!(pump_step(1), PumpStep::Dispatch);
    assert_eq!(pump_step(-2), PumpStep::Dispatch);
}

#[test]
fn listeners_are_called_in_order_added() {
    let mut w: WindowRunner<&str> = WindowRunner::new(42);
    assert_eq!(w.hwnd(), 42);
    w.add_event_listener(WM_SIZE, "a");
    w.add_event_listener(WM_CLOSE, "c");
    w.add_event_listener(WM_SIZE, "b");
    assert_eq!(w.listeners(WM_SIZE), Some(&vec!["a", "b"]));
    assert_eq!(w.listeners(WM_CLOSE), Some(&vec!["c"]));
    assert_eq!(w.listeners(0x0200), None);
}

#[test]
fn reset_sends_a_message_back_to_default_handling() {
    let mut w: WindowRunner<u8> = WindowRunner::new(1);
    w.add_event_listener(WM_SIZE, 1);
    w.add_event_listener(WM_CLOSE, 2);
    w.reset_event_listeners(WM_SIZE);
    assert_eq!(w.listeners(WM_SIZE), None);
    assert_eq!(w.listeners(WM_CLOSE), Some(&vec![2]));
    w.reset_event_listeners(WM_SIZE);
    w.add_event_listener(WM_SIZE, 3);
    assert_eq!(w.listeners(WM_SIZE), Some(&vec![3]));
}

#[test]
fn completion_reports_engine_failure() {
    let r: Result<u8, Error> = completion_result(-2147024894, Some(1));
    assert_eq!(r, Err(Error::WebView2Error(EngineError::WindowsError(-2147024894))));
}

#[test]
fn completion_reports_missing_payload() {
    let r: Result<u8, Error> = completion_result(0, None);
    assert_eq!(r, Err(Error::WindowsError(E_POINTER)));
    assert_eq!(E_POINTER, 0x80004003u32 as i32);
}

#[test]
fn completion_hands_back_the_payload() {
    assert_eq!(completion_result(0, Some(5u8)), Ok(5));
    assert_eq!(completion_result(1, Some(6u8)), Ok(6));
}

#[test]
fn dropped_completion_is_a_send_error() {
    let r: Result<u8, Error> = received(None);
    assert_eq!(r, Err(Error::WebView2Error(EngineError::SendError)));
    assert_eq!(received(Some(Ok::<u8, Error>(3))), Ok(3));
    assert_eq!(received::<u8>(Some(Err(Error::LockError))), Err(Error::LockError));
}
