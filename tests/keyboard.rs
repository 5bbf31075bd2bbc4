use psh_front::keyboard::{Edit, KeySlot, MultiTap, Pending, TimerCmd};

const A: KeySlot = KeySlot::Pair('a', '~');
const B: KeySlot = KeySlot::Pair('b', ',');

#[test]
fn single_tap_commits_primary_on_timeout() {
    let mut k = MultiTap::new();
    let out = k.press(A);
    assert!(out.edits.is_empty());
    assert_eq!(out.timer, TimerCmd::Restart);
    assert_eq!(k.timer_fired(), vec![Edit::Append('a')]);
    assert_eq!(k.pending, None);
}

#[test]
fn double_tap_commits_secondary_on_timeout() {
    let mut k = MultiTap::new();
    assert!(k.press(A).edits.is_empty());
    let out = k.press(A);
    assert!(out.edits.is_empty());
    assert_eq!(out.timer, TimerCmd::Restart);
    assert!(k.shows_secondary('a', '~'));
    assert_eq!(k.timer_fired(), vec![Edit::Append('~')]);
}

#[test]
fn triple_tap_returns_to_primary() {
    let mut k = MultiTap::new();
    k.press(A);
    k.press(A);
    k.press(A);
    assert_eq!(k.timer_fired(), vec![Edit::Append('a')]);
}

#[test]
fn switching_keys_commits_previous() {
    let mut k = MultiTap::new();
    k.press(A);
    let out = k.press(B);
    assert_eq!(out.edits, vec![Edit::Append('a')]);
    assert_eq!(out.timer, TimerCmd::Restart);
    assert_eq!(k.pending, Some(Pending { primary: 'b', secondary: ',', is_primary: true }));
    assert_eq!(k.timer_fired(), vec![Edit::Append('b')]);
}

#[test]
fn switching_commits_toggled_glyph() {
    let mut k = MultiTap::new();
    k.press(A);
    k.press(A);
    assert_eq!(k.press(B).edits, vec![Edit::Append('~')]);
}

#[test]
fn space_commits_pending_then_space() {
    let mut k = MultiTap::new();
    k.press(A);
    let out = k.press(KeySlot::Space);
    assert_eq!(out.edits, vec![Edit::Append('a'), Edit::Append(' ')]);
    assert_eq!(out.timer, TimerCmd::Cancel);
    assert_eq!(k.pending, None);
}

#[test]
fn space_alone_commits_at_once() {
    let mut k = MultiTap::new();
    assert_eq!(k.press(KeySlot::Space).edits, vec![Edit::Append(' ')]);
}

#[test]
fn backspace_drops_pending() {
    let mut k = MultiTap::new();
    k.press(A);
    let out = k.press(KeySlot::Backspace);
    assert_eq!(out.edits, vec![Edit::DeleteLast]);
    assert_eq!(out.timer, TimerCmd::Cancel);
    assert_eq!(k.pending, None);
    assert!(k.timer_fired().is_empty());
}

#[test]
fn empty_key_does_nothing() {
    let mut k = MultiTap::new();
    k.press(A);
    let out = k.press(KeySlot::Empty);
    assert!(out.edits.is_empty());
    assert_eq!(out.timer, TimerCmd::Keep);
    assert_eq!(k.pending, Some(Pending { primary: 'a', secondary: '~', is_primary: true }));
}

#[test]
fn timer_with_nothing_pending_emits_nothing() {
    let mut k = MultiTap::new();
    assert!(k.timer_fired().is_empty());
}
