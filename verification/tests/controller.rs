use ripclip::clipboard::ClipboardText;
use ripclip::config::Config;
use ripclip::controller::Controller;

fn text(s: &str) -> ClipboardText {
    ClipboardText(s.as_bytes().to_vec())
}

fn history_of(controller: &Controller) -> Vec<Vec<u8>> {
    let stack = controller.history();
    let mut out = Vec::new();
    let mut i = 0;
    while i < stack.len() {
        out.push(stack.get(i).0.clone());
        i += 1;
    }
    out
}

fn config_with_capacity(capacity: Option<usize>) -> Config {
    let mut config = Config::default();
    config.max_stack_size = capacity;
    config
}

#[test]
fn basic_history_scenario() {
    // Empty stack, capacity 3; external text changes deliver a, b, c, d;
    // then a pop removes d and the clipboard is told to show c.
    let mut controller = Controller::new(config_with_capacity(Some(3)));
    for s in ["a", "b", "c", "d"] {
        controller.on_text_changed(text(s));
    }
    assert_eq!(history_of(&controller), vec![b"b".to_vec(), b"c".to_vec(), b"d".to_vec()]);
    let write = controller.pop();
    assert_eq!(write.unwrap().0, b"c".to_vec());
    assert_eq!(history_of(&controller), vec![b"b".to_vec(), b"c".to_vec()]);
    assert!(controller.is_managing());
}

#[test]
fn swap_scenario() {
    // Stack [x, y] with y the current clipboard; swap makes the stack
    // [y, x] and asks for x to be written.
    let mut controller = Controller::new(config_with_capacity(Some(10)));
    controller.on_text_changed(text("x"));
    controller.on_text_changed(text("y"));
    assert!(controller.can_swap());
    let write = controller.swap();
    assert_eq!(write.unwrap().0, b"x".to_vec());
    assert_eq!(history_of(&controller), vec![b"y".to_vec(), b"x".to_vec()]);
}

#[test]
fn clear_then_push_scenario() {
    // Stack [a, b]; clear empties everything; a later external change
    // delivering z leaves the stack holding just z.
    let mut controller = Controller::new(config_with_capacity(Some(10)));
    controller.on_text_changed(text("a"));
    controller.on_text_changed(text("b"));
    controller.clear();
    assert_eq!(history_of(&controller).len(), 0);
    assert!(controller.is_managing());
    controller.on_text_changed(text("z"));
    assert_eq!(history_of(&controller), vec![b"z".to_vec()]);
}

#[test]
fn swap_declines_without_ownership() {
    // A non-text clipboard change drops ownership; a swap afterwards must
    // not touch the stack and must ask for no write.
    let mut controller = Controller::new(config_with_capacity(Some(10)));
    controller.on_text_changed(text("x"));
    controller.on_text_changed(text("y"));
    controller.on_non_text_changed();
    assert!(!controller.is_managing());
    assert!(!controller.can_swap());
    let write = controller.swap();
    assert!(write.is_none());
    assert_eq!(history_of(&controller), vec![b"x".to_vec(), b"y".to_vec()]);
    assert!(!controller.is_managing());
}

#[test]
fn swap_declines_on_short_history() {
    let mut controller = Controller::new(config_with_capacity(Some(10)));
    controller.on_text_changed(text("only"));
    assert!(!controller.can_swap());
    assert!(controller.swap().is_none());
    assert_eq!(history_of(&controller), vec![b"only".to_vec()]);
}

#[test]
fn duplicate_push_is_suppressed_when_configured() {
    let mut config = config_with_capacity(Some(10));
    config.prevent_duplicate_push = true;
    let mut controller = Controller::new(config);
    controller.on_text_changed(text("same"));
    controller.on_text_changed(text("same"));
    assert_eq!(history_of(&controller), vec![b"same".to_vec()]);
    controller.on_text_changed(text("other"));
    controller.on_text_changed(text("same"));
    assert_eq!(
        history_of(&controller),
        vec![b"same".to_vec(), b"other".to_vec(), b"same".to_vec()]
    );
}

#[test]
fn duplicate_push_is_kept_by_default() {
    let mut controller = Controller::new(config_with_capacity(Some(10)));
    controller.on_text_changed(text("same"));
    controller.on_text_changed(text("same"));
    assert_eq!(history_of(&controller), vec![b"same".to_vec(), b"same".to_vec()]);
}

#[test]
fn pop_gains_ownership_even_without_it() {
    // Pop claims the clipboard unconditionally: without ownership the
    // stack is kept as it is, the current tail is written, and the
    // controller manages the clipboard afterwards.
    let mut controller = Controller::new(config_with_capacity(Some(10)));
    controller.on_text_changed(text("a"));
    controller.on_non_text_changed();
    let write = controller.pop();
    assert_eq!(write.unwrap().0, b"a".to_vec());
    assert_eq!(history_of(&controller), vec![b"a".to_vec()]);
    assert!(controller.is_managing());
}

#[test]
fn pop_on_empty_history_leaves_clipboard_empty() {
    let mut controller = Controller::new(config_with_capacity(Some(10)));
    let write = controller.pop();
    assert!(write.is_none());
    assert!(controller.is_managing());
}

#[test]
fn reload_replaces_only_the_config() {
    let mut controller = Controller::new(config_with_capacity(Some(10)));
    controller.on_text_changed(text("keep"));
    let mut new_config = Config::default();
    new_config.max_stack_size = Some(1);
    new_config.show_tray_icon = false;
    controller.reload(new_config);
    assert_eq!(controller.current_config(), new_config);
    assert_eq!(history_of(&controller), vec![b"keep".to_vec()]);
    assert!(controller.is_managing());
}
