use ripclip::clipboard::ClipboardText;
use ripclip::stack::HistoryStack;

fn text(s: &str) -> ClipboardText {
    ClipboardText(s.as_bytes().to_vec())
}

fn contents(stack: &HistoryStack) -> Vec<Vec<u8>> {
    let mut out = Vec::new();
    let mut i = 0;
    while i < stack.len() {
        out.push(stack.get(i).0.clone());
        i += 1;
    }
    out
}

#[test]
fn capacity_bounds_the_stack() {
    // With capacity 3, the length after each push is min(pushes, 3) and the
    // retained entries are the three most recent.
    let mut stack = HistoryStack::new();
    let capacity = Some(3);
    stack.push(capacity, text("a"));
    assert_eq!(stack.len(), 1);
    stack.push(capacity, text("b"));
    assert_eq!(stack.len(), 2);
    stack.push(capacity, text("c"));
    assert_eq!(stack.len(), 3);
    stack.push(capacity, text("d"));
    assert_eq!(stack.len(), 3);
    assert_eq!(contents(&stack), vec![b"b".to_vec(), b"c".to_vec(), b"d".to_vec()]);
    stack.push(capacity, text("e"));
    assert_eq!(contents(&stack), vec![b"c".to_vec(), b"d".to_vec(), b"e".to_vec()]);
}

#[test]
fn unbounded_stack_keeps_everything() {
    let mut stack = HistoryStack::new();
    for i in 0..200u32 {
        stack.push(None, ClipboardText(i.to_be_bytes().to_vec()));
    }
    assert_eq!(stack.len(), 200);
    assert_eq!(stack.get(0).0, 0u32.to_be_bytes().to_vec());
    assert_eq!(stack.get(199).0, 199u32.to_be_bytes().to_vec());
}

#[test]
fn pop_tail_returns_newest_first() {
    let mut stack = HistoryStack::new();
    stack.push(None, text("x"));
    stack.push(None, text("y"));
    assert_eq!(stack.pop_tail().unwrap().0, b"y".to_vec());
    assert_eq!(stack.pop_tail().unwrap().0, b"x".to_vec());
    assert!(stack.pop_tail().is_none());
}

#[test]
fn swap_exchanges_the_top_two() {
    let mut stack = HistoryStack::new();
    stack.push(None, text("a"));
    stack.push(None, text("x"));
    stack.push(None, text("y"));
    stack.swap_top_two();
    assert_eq!(contents(&stack), vec![b"a".to_vec(), b"y".to_vec(), b"x".to_vec()]);
}

#[test]
fn swap_twice_restores_the_order() {
    let mut stack = HistoryStack::new();
    stack.push(None, text("a"));
    stack.push(None, text("b"));
    stack.push(None, text("c"));
    let before = contents(&stack);
    stack.swap_top_two();
    stack.swap_top_two();
    assert_eq!(contents(&stack), before);
}

#[test]
fn swap_on_short_stack_is_a_no_op() {
    let mut stack = HistoryStack::new();
    stack.swap_top_two();
    assert_eq!(stack.len(), 0);
    stack.push(None, text("only"));
    stack.swap_top_two();
    assert_eq!(contents(&stack), vec![b"only".to_vec()]);
}

#[test]
fn clear_empties_the_stack() {
    let mut stack = HistoryStack::new();
    stack.push(None, text("a"));
    stack.push(None, text("b"));
    stack.clear();
    assert_eq!(stack.len(), 0);
    assert!(stack.peek_tail().is_none());
}

#[test]
fn peek_tail_sees_the_newest_entry() {
    let mut stack = HistoryStack::new();
    assert!(stack.peek_tail().is_none());
    stack.push(None, text("first"));
    stack.push(None, text("second"));
    assert_eq!(stack.peek_tail().unwrap().0, b"second".to_vec());
    assert_eq!(stack.len(), 2);
}

#[test]
fn snapshot_equality_is_byte_for_byte() {
    assert!(text("same") == text("same"));
    assert!(text("one") != text("two"));
    assert!(ClipboardText(vec![0, 1, 2]) == ClipboardText(vec![0, 1, 2]));
    assert!(ClipboardText(vec![0, 1, 2]) != ClipboardText(vec![0, 1]));
}
