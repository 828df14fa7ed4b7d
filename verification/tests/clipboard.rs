use yank::clipboard::{copy_with, plan, unavailable, Action, ClipboardWriter, Delivery, Environment, Strategy};
use yank::error::YankError;
use yank::handler::{FileRead, Handler};

const HINT: &str =
    "No clipboard utility found. Please install wl-copy (Wayland), xclip/xsel (X11), or pbcopy (macOS)";

fn env(wayland: bool, x11: bool, macos: bool) -> Environment {
    Environment { wayland, x11, macos }
}

#[test]
fn plan_under_wayland() {
    assert_eq!(plan(&env(true, false, false)), vec![Strategy::WaylandHelper, Strategy::Native]);
    assert_eq!(
        plan(&env(true, false, true)),
        vec![Strategy::WaylandHelper, Strategy::MacPasteBuffer, Strategy::Native]
    );
}

#[test]
fn plan_under_x11() {
    let expected = vec![
        Strategy::X11Argument,
        Strategy::X11Selection,
        Strategy::X11Alternate,
        Strategy::Native,
    ];
    assert_eq!(plan(&env(false, true, false)), expected);
}

#[test]
fn plan_under_wayland_and_x11() {
    let expected = vec![
        Strategy::WaylandHelper,
        Strategy::X11Argument,
        Strategy::X11Selection,
        Strategy::X11Alternate,
        Strategy::Native,
    ];
    assert_eq!(plan(&env(true, true, false)), expected);
    assert_eq!(copy_with(&env(true, true, false), &vec![false, false, true]), Ok(Strategy::X11Selection));
    assert_eq!(copy_with(&env(true, true, false), &vec![true, true, true]), Ok(Strategy::WaylandHelper));
}

#[test]
fn plan_with_every_signal() {
    let expected = vec![
        Strategy::WaylandHelper,
        Strategy::X11Argument,
        Strategy::X11Selection,
        Strategy::X11Alternate,
        Strategy::MacPasteBuffer,
        Strategy::Native,
    ];
    assert_eq!(plan(&env(true, true, true)), expected);
}

#[test]
fn plan_on_macos() {
    assert_eq!(plan(&env(false, false, true)), vec![Strategy::MacPasteBuffer, Strategy::Native]);
}

#[test]
fn plan_without_any_signal() {
    assert_eq!(plan(&env(false, false, false)), vec![Strategy::Native]);
}

#[test]
fn delivery_of_each_strategy() {
    assert_eq!(Strategy::WaylandHelper.delivery(), Delivery::StandardInput);
    assert_eq!(Strategy::X11Argument.delivery(), Delivery::Argument);
    assert_eq!(Strategy::X11Selection.delivery(), Delivery::StandardInput);
    assert_eq!(Strategy::X11Alternate.delivery(), Delivery::StandardInput);
    assert_eq!(Strategy::MacPasteBuffer.delivery(), Delivery::StandardInput);
    assert_eq!(Strategy::Native.delivery(), Delivery::InProcess);
}

#[test]
fn settle_time_of_each_strategy() {
    assert_eq!(Strategy::Native.settle_millis(), 100);
    assert_eq!(Strategy::WaylandHelper.settle_millis(), 0);
    assert_eq!(Strategy::X11Argument.settle_millis(), 0);
    assert_eq!(Strategy::X11Selection.settle_millis(), 0);
    assert_eq!(Strategy::X11Alternate.settle_millis(), 0);
    assert_eq!(Strategy::MacPasteBuffer.settle_millis(), 0);
}

#[test]
fn writer_stops_at_first_success() {
    let mut writer = ClipboardWriter::new(&env(false, true, false));
    assert_eq!(writer.next_action(), Action::Attempt(Strategy::X11Argument));
    assert_eq!(writer.outcome(), None);
    assert_eq!(writer.record(false), Action::Attempt(Strategy::X11Selection));
    assert_eq!(writer.record(true), Action::Finished);
    assert_eq!(writer.outcome(), Some(Ok(())));
    assert_eq!(writer.record(false), Action::Finished);
    assert_eq!(writer.record(true), Action::Finished);
    assert_eq!(writer.next_action(), Action::Finished);
}

#[test]
fn writer_gives_up_after_every_failure() {
    let mut writer = ClipboardWriter::new(&env(true, false, false));
    assert_eq!(writer.next_action(), Action::Attempt(Strategy::WaylandHelper));
    assert_eq!(writer.record(false), Action::Attempt(Strategy::Native));
    assert_eq!(writer.record(false), Action::GiveUp);
    assert_eq!(writer.outcome(), Some(Err(YankError::Clipboard(String::from(HINT)))));
    assert_eq!(writer.record(true), Action::GiveUp);
    assert_eq!(writer.next_action(), Action::GiveUp);
}

#[test]
fn writer_tries_each_strategy_once_in_order() {
    let environment = env(false, true, false);
    let order = plan(&environment);
    let mut writer = ClipboardWriter::new(&environment);
    let mut seen = Vec::new();
    let mut action = writer.next_action();
    while let Action::Attempt(strategy) = action {
        seen.push(strategy);
        action = writer.record(false);
    }
    assert_eq!(action, Action::GiveUp);
    assert_eq!(seen, order);
}

#[test]
fn copy_with_picks_first_working() {
    let x11 = env(false, true, false);
    assert_eq!(copy_with(&x11, &vec![true, true, true, true]), Ok(Strategy::X11Argument));
    assert_eq!(copy_with(&x11, &vec![false, true, false, true]), Ok(Strategy::X11Selection));
    assert_eq!(copy_with(&x11, &vec![false, false, true, false]), Ok(Strategy::X11Alternate));
    assert_eq!(copy_with(&x11, &vec![false, false, false, true]), Ok(Strategy::Native));
    assert_eq!(copy_with(&env(false, false, false), &vec![true]), Ok(Strategy::Native));
    assert_eq!(copy_with(&env(false, false, true), &vec![true, false]), Ok(Strategy::MacPasteBuffer));
}

#[test]
fn copy_with_fails_when_nothing_works() {
    let expected = Err(YankError::Clipboard(String::from(HINT)));
    assert_eq!(copy_with(&env(false, true, false), &vec![false, false, false, false]), expected);
    assert_eq!(copy_with(&env(true, false, false), &vec![false, false]), expected);
    assert_eq!(copy_with(&env(false, false, false), &vec![false]), expected);
}

#[test]
fn copy_with_counts_missing_outcomes_as_failures() {
    let expected = Err(YankError::Clipboard(String::from(HINT)));
    assert_eq!(copy_with(&env(false, true, false), &vec![]), expected);
    assert_eq!(copy_with(&env(false, true, false), &vec![false, false]), expected);
    assert_eq!(
        copy_with(&env(true, false, false), &vec![false, false, true, true]),
        expected
    );
}

#[test]
fn unavailable_names_the_helpers() {
    let e = unavailable();
    assert_eq!(e, YankError::Clipboard(String::from(HINT)));
    assert_eq!(e.message(), format!("Clipboard error: {}", HINT));
}

#[test]
fn yank_hands_out_value_and_fresh_writer() {
    let mut store = Handler::with_home(Some(String::from("/home/user"))).unwrap();
    store.load_data(FileRead::Missing).unwrap();
    store.set_value("color", String::from("blue")).unwrap();
    let (value, mut writer) = store.yank_value("color", &env(true, false, false)).unwrap();
    assert_eq!(value, "blue");
    assert_eq!(writer.next_action(), Action::Attempt(Strategy::WaylandHelper));
    assert_eq!(writer.record(true), Action::Finished);
    assert_eq!(writer.outcome(), Some(Ok(())));
}

#[test]
fn yank_missing_key_fails_and_names_it() {
    let mut store = Handler::with_home(Some(String::from("/home/user"))).unwrap();
    store.load_data(FileRead::Missing).unwrap();
    match store.yank_value("missing", &env(false, false, false)) {
        Err(e) => {
            assert_eq!(e, YankError::KeyNotFound(String::from("missing")));
            assert!(e.message().contains("missing"));
        }
        Ok(_) => panic!("found a value in an empty store"),
    }
}

#[test]
fn program_of_each_strategy() {
    assert_eq!(Strategy::WaylandHelper.program(), Some("wl-copy"));
    assert_eq!(Strategy::X11Argument.program(), Some("wl-copy"));
    assert_eq!(Strategy::X11Selection.program(), Some("xclip"));
    assert_eq!(Strategy::X11Alternate.program(), Some("xsel"));
    assert_eq!(Strategy::MacPasteBuffer.program(), Some("pbcopy"));
    assert_eq!(Strategy::Native.program(), None);
}

#[test]
fn arguments_of_each_strategy() {
    let none: Vec<String> = Vec::new();
    assert_eq!(Strategy::WaylandHelper.arguments(), none);
    assert_eq!(Strategy::X11Argument.arguments(), none);
    assert_eq!(
        Strategy::X11Selection.arguments(),
        vec![String::from("-selection"), String::from("clipboard")]
    );
    assert_eq!(
        Strategy::X11Alternate.arguments(),
        vec![String::from("--clipboard"), String::from("--input")]
    );
    assert_eq!(Strategy::MacPasteBuffer.arguments(), none);
    assert_eq!(Strategy::Native.arguments(), none);
}
