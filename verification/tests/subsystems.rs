use cubixwm::backend::tty::{
    fill_gradient, next_phase, preferred_or_first, select_connector, ConnectorSummary, OutputError,
};
use cubixwm::backend::smithay::{
    clock_text, compose_window_title, parse_u32, react_to_input, ClockReading, uid_from_id_output, uid_from_trimmed, window_title,
    NestedInput, NestedReaction,
};
use cubixwm::backend::{SmithayBackend, TtyBackend, WinitBackend};
use cubixwm::command::{parse_command, Command};
use cubixwm::input::InputState;
use cubixwm::protocol::ProtocolState;
use cubixwm::render::Renderer;
use cubixwm::utils::Error;
use cubixwm::x11::X11State;
use cubixwm::{boot, Application, Backend, Rect, WindowKind};

#[test]
fn names_before_and_after_initialize() {
    let mut backend = Backend::new();
    assert_eq!(backend.name(), "uninitialized");
    assert_eq!(backend.smithay_summary(), "not ready");
    backend.initialize();
    assert_eq!(backend.name(), "smithay-bootstrap");
    assert_eq!(backend.smithay_summary(), "display+event-loop ready");

    let mut smithay = SmithayBackend::new();
    assert_eq!(smithay.name(), "smithay-bootstrap(uninitialized)");
    smithay.initialize();
    assert_eq!(smithay.summary(), "display+event-loop ready");

    let mut winit = WinitBackend::new();
    assert_eq!(winit.name(), "winit-stub(uninitialized)");
    winit.initialize();
    assert_eq!(winit.name(), "winit-stub");

    let mut renderer = Renderer::new();
    assert_eq!(renderer.name(), "renderer-stub(uninitialized)");
    renderer.initialize();
    assert_eq!(renderer.name(), "renderer-stub");
}

#[test]
fn boot_initializes_everything() {
    let mut backend = Backend::new();
    let mut renderer = Renderer::new();
    let mut protocols = ProtocolState::new();
    let mut input = InputState::new();
    let mut x11 = X11State::new();
    input.initialize();
    let summary = boot(&mut backend, &mut renderer, &mut protocols, &mut input, &mut x11);
    assert_eq!(summary.backend_name, "smithay-bootstrap");
    assert_eq!(summary.renderer_name, "renderer-stub");
}

#[test]
fn run_tty_without_the_backend_fails() {
    let mut backend = Backend::new();
    let error: Error = backend.run_tty().unwrap_err();
    assert_eq!(
        error.message(),
        "tty backend is disabled in this build; rebuild with `--features tty-backend`"
    );
    let _ = TtyBackend::new();
}

#[test]
fn application_run_and_demo() {
    let mut app = Application::new();
    assert_eq!(app.wm().workspace_count(), 1);
    let summary = app.run();
    assert_eq!(summary.backend_name, "smithay-bootstrap");
    assert_eq!(summary.renderer_name, "renderer-stub");

    let (terminal, browser) = app.demo();
    let wm = app.wm();
    assert_eq!(wm.stacking(), vec![terminal, browser]);
    assert_eq!(wm.focused(), Some(terminal));
    let b = wm.window(browser).unwrap();
    assert_eq!(b.title, "Browser");
    assert_eq!(b.kind, WindowKind::X11);
    assert_eq!(b.rect, Rect::new(240, 160, 1350, 910));
    assert_eq!(wm.window(terminal).unwrap().rect, Rect::new(40, 40, 960, 540));
    assert!(app.run_tty().is_err());
}

#[test]
fn commands() {
    assert_eq!(parse_command(None).unwrap(), Command::Run);
    assert_eq!(parse_command(Some("run")).unwrap(), Command::Run);
    assert_eq!(parse_command(Some("tty")).unwrap(), Command::Tty);
    assert_eq!(parse_command(Some("demo")).unwrap(), Command::Demo);
    assert_eq!(parse_command(Some("help")).unwrap(), Command::Help);
    assert_eq!(parse_command(Some("--help")).unwrap(), Command::Help);
    assert_eq!(parse_command(Some("-h")).unwrap(), Command::Help);
    let error = parse_command(Some("fly")).unwrap_err();
    assert_eq!(error.message(), "unknown command `fly`; try `run`, `demo` or `help`");
}

#[test]
fn window_titles() {
    assert_eq!(compose_window_title("cubixwm-3", "12:34:56"), "CubixWM | cubixwm-3 | 12:34:56");
    let title = window_title("cubixwm-7");
    assert!(title.starts_with("CubixWM | cubixwm-7 | "));
    let clock: Vec<char> = title["CubixWM | cubixwm-7 | ".len()..].chars().collect();
    assert_eq!(clock.len(), 8);
    assert_eq!(clock[2], ':');
    assert_eq!(clock[5], ':');
    for i in [0, 1, 3, 4, 6, 7] {
        assert!(clock[i].is_ascii_digit());
    }
}

#[test]
fn gradient_paints_rows() {
    let mut bytes = vec![0xAAu8; 2 * 12];
    // two rows of two pixels, 12 bytes per row
    fill_gradient(&mut bytes, 2, 2, 12, 10);
    assert_eq!(&bytes[0..8], &[10, 20, 30, 0, 11, 20, 30, 0]);
    assert_eq!(&bytes[8..12], &[0xAA; 4]);
    assert_eq!(&bytes[12..20], &[10, 21, 30, 0, 11, 21, 30, 0]);
    assert_eq!(&bytes[20..24], &[0xAA; 4]);
}

#[test]
fn gradient_wraps_and_lower_rows_win() {
    let mut bytes = vec![7u8; 12];
    // pitch 4 < 8 bytes per row: row 1 overwrites the second pixel of row 0
    fill_gradient(&mut bytes, 2, 2, 4, 200);
    // phase 200: blue 200+x, green (y + 400) mod 256 = 144 + y, red 600 mod 256 = 88
    assert_eq!(bytes, vec![200, 144, 88, 0, 200, 145, 88, 0, 201, 145, 88, 0]);
    let mut wide = vec![0u8; 4];
    fill_gradient(&mut wide, 1, 1, 0, 255);
    // blue 255, green 510 mod 256 = 254, red 765 mod 256 = 253
    assert_eq!(wide, vec![255, 254, 253, 0]);
    let mut untouched = vec![9u8; 3];
    fill_gradient(&mut untouched, 5, 0, 100, 1);
    assert_eq!(untouched, vec![9, 9, 9]);
}

#[test]
fn output_choices() {
    let none = [
        ConnectorSummary { connected: false, mode_count: 3 },
        ConnectorSummary { connected: true, mode_count: 0 },
    ];
    assert_eq!(select_connector(&none), None);
    let some = [
        ConnectorSummary { connected: false, mode_count: 3 },
        ConnectorSummary { connected: true, mode_count: 2 },
        ConnectorSummary { connected: true, mode_count: 1 },
    ];
    assert_eq!(select_connector(&some), Some(1));
    assert_eq!(preferred_or_first(Some(5), &[7, 8]), Some(5));
    assert_eq!(preferred_or_first(None, &[7, 8]), Some(7));
    assert_eq!(preferred_or_first(None, &[]), None);
    assert_eq!(OutputError::NoEncoder.message(), "connector has no encoder");
    assert_eq!(OutputError::NoCrtc.message(), "encoder has no usable crtc");
}

#[test]
fn nested_input_reactions() {
    assert_eq!(react_to_input(NestedInput::Key, false), NestedReaction::ForwardKey);
    assert_eq!(react_to_input(NestedInput::PointerMotion, true), NestedReaction::FocusFirstToplevel);
    assert_eq!(react_to_input(NestedInput::PointerMotion, false), NestedReaction::Ignore);
    assert_eq!(react_to_input(NestedInput::Other, true), NestedReaction::Ignore);
}

#[test]
fn user_ids_from_id_output() {
    assert_eq!(uid_from_id_output(Some(" 1001\n")), 1001);
    assert_eq!(uid_from_id_output(Some("0")), 0);
    assert_eq!(uid_from_id_output(Some("+42")), 42);
    assert_eq!(uid_from_id_output(Some("root")), 1000);
    assert_eq!(uid_from_id_output(Some("4294967296")), 1000);
    assert_eq!(uid_from_id_output(Some("")), 1000);
    assert_eq!(uid_from_id_output(None), 1000);
    assert_eq!(uid_from_trimmed(" 7"), 1000);
    assert_eq!(uid_from_trimmed("4294967295"), 4294967295);
}

#[test]
fn gradient_phase_steps_by_three() {
    assert_eq!(next_phase(0), 3);
    assert_eq!(next_phase(254), 1);
}

#[test]
fn clock_texts_pad_and_show_leap_seconds() {
    let r = ClockReading { hour: 7, minute: 5, second: 9, nanosecond: 0 };
    assert_eq!(clock_text(r), "07:05:09");
    let leap = ClockReading { hour: 23, minute: 59, second: 59, nanosecond: 1_500_000_000 };
    assert_eq!(clock_text(leap), "23:59:60");
}

#[test]
fn parse_u32_as_std_does() {
    for text in ["0", "+7", "42", "4294967295", "", "+", "-1", "12a", " 1", "4294967296", "++1"] {
        assert_eq!(parse_u32(text), text.parse::<u32>().ok(), "{text:?}");
    }
}
