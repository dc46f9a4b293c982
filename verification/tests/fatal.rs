use boot_console::console::Stdout;
use boot_console::fatal::{Location, PanicHandler, PanicInfo, PanicState};
use boot_console::logger::{init, Facade};

fn written(out: &Stdout) -> String {
    out.sent().iter().collect()
}

fn bad_state(location: Option<Location>) -> PanicInfo {
    PanicInfo { location, message: String::from("bad state") }
}

#[test]
fn panic_with_location() {
    let mut facade = Facade::new();
    assert_eq!(init(&mut facade, None), Ok(()));
    let mut out = Stdout::new();
    let mut handler = PanicHandler::new();
    let info = bad_state(Some(Location { file: String::from("foo.rs"), line: 42 }));
    boot_console::fatal::panic(&mut handler, &mut out, &info);
    assert_eq!(written(&out), "Panicked at foo.rs:42 bad state\n");
    assert_eq!(handler.state(), PanicState::Halted);
    facade.error(&mut out, "filtered");
    assert_eq!(written(&out), "Panicked at foo.rs:42 bad state\n");
}

#[test]
fn panic_without_location() {
    let mut out = Stdout::new();
    let mut handler = PanicHandler::new();
    boot_console::fatal::panic(&mut handler, &mut out, &bad_state(None));
    assert_eq!(written(&out), "Panicked: bad state\n");
    assert_eq!(handler.state(), PanicState::Halted);
}

#[test]
fn panic_line_follows_earlier_output() {
    let mut out = Stdout::new();
    out.write_str("partial line");
    let mut handler = PanicHandler::new();
    let info = PanicInfo {
        location: Some(Location { file: String::from("src/main.rs"), line: 4294967295 }),
        message: String::new(),
    };
    boot_console::fatal::panic(&mut handler, &mut out, &info);
    assert_eq!(written(&out), "partial linePanicked at src/main.rs:4294967295 \n");
}

#[test]
fn handler_moves_forward_stage_by_stage() {
    let mut out = Stdout::new();
    let mut handler = PanicHandler::new();
    assert_eq!(handler.state(), PanicState::Armed);
    assert!(out.sent().is_empty());
    handler.fire(&mut out, &bad_state(None));
    assert_eq!(handler.state(), PanicState::Firing);
    assert_eq!(written(&out), "Panicked: bad state\n");
    handler.halt();
    assert_eq!(handler.state(), PanicState::Halted);
    assert_eq!(written(&out), "Panicked: bad state\n");
}

#[test]
fn line_zero_is_shown() {
    let mut out = Stdout::new();
    let mut handler = PanicHandler::new();
    let info = PanicInfo {
        location: Some(Location { file: String::from("a.rs"), line: 0 }),
        message: String::from("m"),
    };
    handler.fire(&mut out, &info);
    assert_eq!(written(&out), "Panicked at a.rs:0 m\n");
}
