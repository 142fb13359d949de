use tui_runtime::alert::AlertDialog;
use tui_runtime::event::{Event, Key};
use tui_runtime::selector::{GroupList, ListUpdate};

fn press(list: &mut GroupList, key: Key) -> ListUpdate {
    list.update(Event::Input(key))
}

#[test]
fn default_selector_has_eight_entries_first_selected() {
    let s = GroupList::new();
    assert_eq!(s.groups.len(), 8);
    for (i, g) in s.groups.iter().enumerate() {
        assert_eq!(g, &format!("Entry {}", i + 1));
    }
    assert_eq!(s.selected, 0);
    assert_eq!(s.frame_count, 0);
}

#[test]
fn down_moves_selection_and_clamps_at_end() {
    let mut s = GroupList::with_groups(vec!["a".to_string(), "b".to_string(), "c".to_string()]);
    press(&mut s, Key::Down);
    assert_eq!(s.selected, 1);
    press(&mut s, Key::Down);
    assert_eq!(s.selected, 2);
    press(&mut s, Key::Down);
    assert_eq!(s.selected, 2);
    press(&mut s, Key::Down);
    assert_eq!(s.selected, 2);
}

#[test]
fn up_at_zero_stays_at_zero() {
    let mut s = GroupList::new();
    press(&mut s, Key::Up);
    assert_eq!(s.selected, 0);
    press(&mut s, Key::Up);
    assert_eq!(s.selected, 0);
}

#[test]
fn empty_list_navigation_is_a_no_op() {
    let mut s = GroupList::with_groups(Vec::new());
    press(&mut s, Key::Down);
    assert_eq!(s.selected, 0);
    press(&mut s, Key::Up);
    assert_eq!(s.selected, 0);
    let r = press(&mut s, Key::Char('\n'));
    assert!(matches!(r, ListUpdate::Continue));
}

#[test]
fn quit_keys_complete_the_selector() {
    let mut s = GroupList::new();
    assert!(matches!(press(&mut s, Key::Esc), ListUpdate::Done));
    let mut s = GroupList::new();
    assert!(matches!(press(&mut s, Key::Char('q')), ListUpdate::Done));
    let mut s = GroupList::new();
    assert!(matches!(press(&mut s, Key::Char('x')), ListUpdate::Continue));
    assert!(matches!(s.update(Event::Tick), ListUpdate::Continue));
}

#[test]
fn confirm_opens_alert_for_selected_entry() {
    let mut s = GroupList::new();
    press(&mut s, Key::Down);
    press(&mut s, Key::Down);
    let r = press(&mut s, Key::Char('\n'));
    match r {
        ListUpdate::Open(alert) => {
            assert_eq!(alert.text, "You selected:\n'Entry 3'");
            assert_eq!(alert.offset, 0);
        }
        _ => panic!("confirm must open the alert"),
    }
    assert_eq!(s.selected, 2);
}

#[test]
fn selector_render_lists_entries_and_counts_frames() {
    let mut s = GroupList::new();
    press(&mut s, Key::Down);
    let first = s.render();
    assert_eq!(first.frame, 0);
    assert_eq!(first.items, s.groups);
    assert_eq!(first.selected, 1);
    let second = s.render();
    assert_eq!(second.frame, 1);
    assert_eq!(second.items, first.items);
    assert_eq!(second.selected, first.selected);
    assert_eq!(s.frame_count, 2);
}

#[test]
fn alert_scroll_has_floor_zero_and_counts_up() {
    let mut a = AlertDialog::new("hello".to_string());
    assert!(!a.update(Event::Input(Key::Up)));
    assert_eq!(a.offset, 0);
    assert!(!a.update(Event::Input(Key::Down)));
    assert!(!a.update(Event::Input(Key::Down)));
    assert_eq!(a.offset, 2);
    assert!(!a.update(Event::Input(Key::Up)));
    assert_eq!(a.offset, 1);
    assert!(!a.update(Event::Tick));
    assert_eq!(a.offset, 1);
}

#[test]
fn alert_scroll_saturates_at_field_width() {
    let mut a = AlertDialog::new("x".to_string());
    a.offset = u16::MAX;
    assert!(!a.update(Event::Input(Key::Down)));
    assert_eq!(a.offset, u16::MAX);
}

#[test]
fn alert_completes_on_quit_or_confirm() {
    for key in [Key::Esc, Key::Char('q'), Key::Char('\n')] {
        let mut a = AlertDialog::new("note".to_string());
        a.update(Event::Input(Key::Down));
        assert!(a.update(Event::Input(key)));
        assert_eq!(a.text, "note");
        assert_eq!(a.offset, 1);
    }
    let mut a = AlertDialog::new("note".to_string());
    assert!(!a.update(Event::Input(Key::Char('z'))));
    assert!(!a.update(Event::Input(Key::Other)));
}

#[test]
fn alert_render_is_pure() {
    let mut a = AlertDialog::new("body text".to_string());
    a.update(Event::Input(Key::Down));
    let c1 = a.render();
    let c2 = a.render();
    assert_eq!(c1.text, "body text");
    assert_eq!(c1.scroll, 1);
    assert_eq!(c2.text, c1.text);
    assert_eq!(c2.scroll, c1.scroll);
}
