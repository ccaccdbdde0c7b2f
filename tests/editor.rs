use kv_demo::decimal::decimal;
use kv_demo::{LoadStep, Loader, State, Store, LOAD_MS};

fn s(x: &str) -> String {
    x.to_string()
}

fn ready_state() -> State {
    let mut st = State::default();
    st.frame(0);
    st.frame(LOAD_MS);
    assert_eq!(st.frame(LOAD_MS), LoadStep::Finish);
    assert!(st.is_ready());
    st
}

#[test]
fn default_state() {
    let st = State::default();
    assert_eq!(st.key, "message");
    assert_eq!(st.value, "This is a test value");
    assert_eq!(st.output(), "");
    assert!(st.docs().is_empty());
    assert!(!st.is_ready());
    assert_eq!(st.progress_ms(), 0);
    assert!(st.show_main_window());
    assert!(!st.show_style_editor());
    assert!(!st.show_window_2());
    assert!(st.pending_delete().is_none());
    assert!(st.lookup(&s("message")).is_none());
}

#[test]
fn example_scenario() {
    let mut st = ready_state();
    st.key = s("a");
    st.value = s("1");
    st.set();
    assert_eq!(st.lookup(&s("a")), Some(&s("1")));
    assert!(st.output().contains("Setting key `a`"));
    assert_eq!(st.value, "");
    st.value = s("2");
    st.set();
    assert!(st.output().contains("exists, removing old value"));
    assert_eq!(st.lookup(&s("a")), Some(&s("2")));
    assert!(st.request_delete());
    assert_eq!(st.pending_delete(), Some(&s("a")));
    st.confirm_delete();
    assert!(st.lookup(&s("a")).is_none());
    assert!(st.output().contains("Removing key `a`"));
    assert_eq!(
        st.output(),
        "Setting key `a` = `1`\nKey a exists, removing old value.\nSetting key `a` = `2`\nRemoving key `a`!\n"
    );
}

#[test]
fn set_then_get_yields_value() {
    let mut st = ready_state();
    st.key = s("colour");
    st.value = s("blue");
    st.set();
    assert_eq!(st.value, "");
    st.get();
    assert_eq!(st.value, "blue");
    assert!(st.output().ends_with("Got `colour`s value: `blue`\n"));
}

#[test]
fn set_empty_value_is_refused() {
    let mut st = ready_state();
    st.key = s("k");
    st.value = s("v");
    st.set();
    st.value = s("");
    st.set();
    assert_eq!(st.lookup(&s("k")), Some(&s("v")));
    assert!(st.output().ends_with(
        "Value for `k` is blank, not setting.\nUse the [Del] button to remove a key.\n"
    ));
    st.key = s("other");
    st.set();
    assert!(st.lookup(&s("other")).is_none());
}

#[test]
fn get_missing_key_reports_not_set() {
    let mut st = ready_state();
    st.key = s("nope");
    st.value = s("kept");
    st.get();
    assert_eq!(st.value, "kept");
    assert_eq!(st.output(), "Key `nope` is not set!\n");
}

#[test]
fn delete_without_confirmation_keeps_store() {
    let mut st = ready_state();
    st.key = s("k");
    st.value = s("v");
    st.set();
    assert!(st.request_delete());
    assert_eq!(st.lookup(&s("k")), Some(&s("v")));
    st.cancel_delete();
    assert!(st.pending_delete().is_none());
    assert_eq!(st.lookup(&s("k")), Some(&s("v")));
    st.confirm_delete();
    assert_eq!(st.lookup(&s("k")), Some(&s("v")));
}

#[test]
fn confirmed_delete_then_get_reports_not_set() {
    let mut st = ready_state();
    st.key = s("k");
    st.value = s("v");
    st.set();
    st.key = s("j");
    st.value = s("w");
    st.set();
    st.key = s("k");
    assert!(st.request_delete());
    st.confirm_delete();
    assert!(st.lookup(&s("k")).is_none());
    assert_eq!(st.lookup(&s("j")), Some(&s("w")));
    st.get();
    assert!(st.output().ends_with("Key `k` is not set!\n"));
}

#[test]
fn delete_missing_or_empty_key() {
    let mut st = ready_state();
    st.key = s("ghost");
    assert!(!st.request_delete());
    assert_eq!(st.output(), "Key `ghost` is not set!\n");
    st.key = s("");
    assert!(!st.request_delete());
    assert_eq!(st.output(), "Key `ghost` is not set!\n");
}

#[test]
fn new_document_goes_first() {
    let mut st = ready_state();
    st.new_document();
    assert_eq!(st.docs(), &vec![s("New Document 1")]);
    st.new_document();
    st.new_document();
    assert_eq!(
        st.docs(),
        &vec![s("New Document 3"), s("New Document 2"), s("New Document 1")]
    );
    for _ in 0..9 {
        st.new_document();
    }
    assert_eq!(st.docs().len(), 12);
    assert_eq!(st.docs()[0], "New Document 12");
}

#[test]
fn toggles() {
    let mut st = ready_state();
    st.toggle_style_editor();
    assert!(st.show_style_editor());
    st.toggle_style_editor();
    assert!(!st.show_style_editor());
    st.toggle_window_2();
    assert!(st.show_window_2());
    st.toggle_window_2();
    assert!(!st.show_window_2());
    assert_eq!(st.output(), "Showing window!\nHiding window!\n");
}

#[test]
fn loading_progress_and_single_transition() {
    let mut l = Loader::new();
    assert_eq!(l.frame(0), LoadStep::Show { progress_ms: 0 });
    assert_eq!(l.frame(500), LoadStep::Show { progress_ms: 500 });
    assert_eq!(l.frame(400), LoadStep::Show { progress_ms: 500 });
    assert_eq!(l.frame(1999), LoadStep::Show { progress_ms: 1999 });
    assert!(!l.ready);
    assert_eq!(l.frame(2500), LoadStep::Show { progress_ms: 2000 });
    assert!(!l.ready);
    assert_eq!(l.frame(2600), LoadStep::Finish);
    assert!(l.ready);
    assert_eq!(l.frame(0), LoadStep::Run);
    assert_eq!(l.frame(9000), LoadStep::Run);
    assert!(l.ready);
    assert_eq!(l.progress_ms, 2000);
}

#[test]
fn state_frames_follow_loader() {
    let mut st = State::default();
    assert_eq!(st.frame(1000), LoadStep::Show { progress_ms: 1000 });
    assert_eq!(st.progress_ms(), 1000);
    assert_eq!(st.frame(3000), LoadStep::Show { progress_ms: 2000 });
    assert_eq!(st.frame(3100), LoadStep::Finish);
    assert_eq!(st.frame(3200), LoadStep::Run);
    assert!(st.is_ready());
}

#[test]
fn decimal_text() {
    assert_eq!(decimal(0), "0");
    assert_eq!(decimal(7), "7");
    assert_eq!(decimal(10), "10");
    assert_eq!(decimal(4096), "4096");
    assert_eq!(decimal(usize::MAX), usize::MAX.to_string());
}

#[test]
fn store_operations() {
    let mut st = Store::new();
    assert!(!st.contains_key(&s("a")));
    assert!(!st.insert(s("a"), s("1")));
    assert!(!st.insert(s("b"), s("2")));
    assert!(st.insert(s("a"), s("3")));
    assert_eq!(st.get(&s("a")), Some(&s("3")));
    assert_eq!(st.get(&s("b")), Some(&s("2")));
    assert!(st.remove(&s("a")));
    assert!(!st.remove(&s("a")));
    assert!(st.get(&s("a")).is_none());
    assert!(st.contains_key(&s("b")));
}

#[test]
fn entering_input_then_set() {
    let mut st = ready_state();
    st.enter_key(s("lang"));
    st.enter_value(s("rust"));
    assert_eq!(st.key, "lang");
    assert_eq!(st.value, "rust");
    st.set();
    assert_eq!(st.lookup(&s("lang")), Some(&s("rust")));
    assert_eq!(st.output(), "Setting key `lang` = `rust`\n");
}
