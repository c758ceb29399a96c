use float_pane_sized::navigation::{clamp_cursor, move_down, move_up};
use float_pane_sized::overlay::{Action, Key, ResizeRequest, State};
use float_pane_sized::pane_index::PaneIndex;
use float_pane_sized::resize_input::{parse_dimension, ResizeInput, Stage};
use float_pane_sized::selection::refresh_selected;
use float_pane_sized::snapshot::{PaneDescriptor, PaneRecord, SessionRecord, TabRecord};

fn pane(id: u32, floating: bool, title: &str) -> PaneRecord {
    PaneRecord {
        id,
        is_plugin: false,
        is_floating: floating,
        title: title.to_string(),
        x: 1,
        y: 2,
        rows: 10,
        columns: 40,
    }
}

fn tab(tab_id: usize, position: usize, panes: Vec<PaneRecord>) -> TabRecord {
    TabRecord { tab_id, position, name: format!("tab{}", tab_id), panes }
}

fn session(is_current: bool, tabs: Vec<TabRecord>) -> SessionRecord {
    SessionRecord { is_current, tabs }
}

fn three_floating() -> Vec<SessionRecord> {
    vec![session(
        true,
        vec![
            tab(0, 0, vec![pane(1, false, "shell"), pane(2, true, "a"), pane(3, true, "b")]),
            tab(1, 1, vec![pane(4, true, "c"), pane(5, false, "d")]),
        ],
    )]
}

fn chars(s: &str) -> Vec<char> {
    s.chars().collect()
}

fn type_text(state: &mut State, text: &str) {
    for c in text.chars() {
        assert_eq!(state.handle_key(Key::Char(c)), Action::Nothing);
    }
}

#[test]
fn rebuild_keys_floating_panes_in_tab_then_pane_order() {
    let mut index = PaneIndex::new();
    index.rebuild(&three_floating());
    assert_eq!(index.len(), 3);
    assert_eq!(index.get(1).unwrap().pane_id, 2);
    assert_eq!(index.get(2).unwrap().pane_id, 3);
    assert_eq!(index.get(3).unwrap().pane_id, 4);
    assert_eq!(index.get(3).unwrap().tab.tab_id, 1);
    assert!(index.get(0).is_none());
    assert!(index.get(4).is_none());
}

#[test]
fn rebuild_uses_only_the_current_session() {
    let sessions = vec![
        session(false, vec![tab(0, 0, vec![pane(9, true, "other")])]),
        session(true, vec![tab(0, 0, vec![pane(7, true, "mine")])]),
    ];
    let mut index = PaneIndex::new();
    index.rebuild(&sessions);
    assert_eq!(index.len(), 1);
    assert_eq!(index.get(1).unwrap().pane_id, 7);
    assert_eq!(index.get(1).unwrap().title, "mine");
}

#[test]
fn rebuild_replaces_previous_entries() {
    let mut index = PaneIndex::new();
    index.rebuild(&three_floating());
    let smaller = vec![session(true, vec![tab(0, 0, vec![pane(3, true, "b")])])];
    index.rebuild(&smaller);
    assert_eq!(index.len(), 1);
    assert_eq!(index.get(1).unwrap().pane_id, 3);
    index.clear();
    assert!(index.is_empty());
}

#[test]
fn rebuild_without_floating_panes_is_empty() {
    let sessions = vec![session(true, vec![tab(0, 0, vec![pane(1, false, "x")])])];
    let mut index = PaneIndex::new();
    index.rebuild(&sessions);
    assert!(index.is_empty());
    assert!(index.entries().is_empty());
}

#[test]
fn ring_closure_down_and_up() {
    for count in 1..6usize {
        for start in 1..=count {
            let mut c = Some(start);
            for _ in 0..count {
                c = move_down(c, count);
            }
            assert_eq!(c, Some(start));
            let mut c = Some(start);
            for _ in 0..count {
                c = move_up(c, count);
            }
            assert_eq!(c, Some(start));
        }
    }
}

#[test]
fn move_up_from_first_wraps_to_last() {
    assert_eq!(move_up(Some(1), 3), Some(3));
    assert_eq!(move_up(Some(2), 3), Some(1));
    assert_eq!(move_down(Some(1), 3), Some(2));
    assert_eq!(move_up(None, 3), Some(1));
}

#[test]
fn clamp_cursor_after_shrink() {
    assert_eq!(clamp_cursor(Some(3), 2), Some(2));
    assert_eq!(clamp_cursor(Some(2), 2), Some(2));
    assert_eq!(clamp_cursor(Some(1), 0), None);
    assert_eq!(clamp_cursor(None, 4), None);
}

#[test]
fn scenario_empty_workspace_keeps_cursor_absent() {
    assert_eq!(move_down(None, 0), None);
    assert_eq!(move_up(None, 0), None);
    let mut state = State::new();
    state.on_snapshot(&vec![session(true, vec![])]);
    assert_eq!(state.handle_key(Key::Down), Action::Nothing);
    assert_eq!(state.cursor(), None);
    assert_eq!(state.handle_key(Key::Up), Action::Nothing);
    assert_eq!(state.cursor(), None);
    state.handle_key(Key::Char('\n'));
    assert!(state.selected().is_none());
}

#[test]
fn scenario_select_and_resize_eighty_by_twenty_four() {
    let mut state = State::new();
    state.on_snapshot(&three_floating());
    state.handle_key(Key::Down);
    state.handle_key(Key::Down);
    assert_eq!(state.cursor(), Some(2));
    assert_eq!(state.handle_key(Key::Char('\n')), Action::Nothing);
    assert_eq!(state.selected().as_ref().unwrap().pane_id, 3);
    type_text(&mut state, "80");
    assert_eq!(state.handle_key(Key::Char('\n')), Action::Nothing);
    assert_eq!(state.input().stage(), Stage::AwaitingHeight);
    assert_eq!(state.input().width(), 80);
    type_text(&mut state, "24");
    let action = state.handle_key(Key::Char('\n'));
    assert_eq!(
        action,
        Action::Resize(ResizeRequest {
            tab_id: 0,
            pane_id: 3,
            is_plugin: false,
            width: 80,
            height: 24
        })
    );
    assert_eq!(state.input().stage(), Stage::AwaitingWidth);
    assert!(state.input().buffer().is_empty());
    assert_eq!(state.input().width(), 0);
    assert_eq!(state.input().height(), 0);
    assert!(state.selected().is_some());
}

#[test]
fn scenario_out_of_range_width_commits_zero() {
    let mut input = ResizeInput::new();
    for c in "999".chars() {
        input.push_digit(c);
    }
    assert_eq!(input.commit(), None);
    assert_eq!(input.width(), 0);
    assert_eq!(input.stage(), Stage::AwaitingHeight);
    assert!(input.buffer().is_empty());
}

#[test]
fn scenario_cursor_at_last_key_wraps_to_first() {
    let mut state = State::new();
    state.on_snapshot(&three_floating());
    state.handle_key(Key::Up);
    state.handle_key(Key::Up);
    assert_eq!(state.cursor(), Some(3));
    state.handle_key(Key::Down);
    assert_eq!(state.cursor(), Some(1));
}

#[test]
fn scenario_selection_kept_when_tab_disappears() {
    let mut state = State::new();
    state.on_snapshot(&three_floating());
    state.handle_key(Key::Down);
    state.handle_key(Key::Char('\n'));
    let before = state.selected().clone().unwrap();
    assert_eq!(before.pane_id, 2);
    let other = vec![session(true, vec![tab(5, 0, vec![pane(8, true, "new")])])];
    state.on_snapshot(&other);
    let after = state.selected().clone().unwrap();
    assert_eq!(after.pane_id, before.pane_id);
    assert_eq!(after.title, before.title);
    assert_eq!(after.tab.tab_id, before.tab.tab_id);
    assert_eq!(state.panes().len(), 1);
    assert_eq!(state.cursor(), Some(1));
}

#[test]
fn selection_persists_across_many_snapshots() {
    let mut state = State::new();
    state.on_snapshot(&three_floating());
    state.handle_key(Key::Down);
    state.handle_key(Key::Char('\n'));
    for n in 0..5u32 {
        let snap = vec![session(true, vec![tab(0, 0, vec![pane(100 + n, true, "x")])])];
        state.on_snapshot(&snap);
        let sel = state.selected().clone().unwrap();
        assert_eq!(sel.pane_id, 2);
        assert_eq!(sel.title, "a");
    }
    state.on_snapshot(&vec![session(true, vec![])]);
    assert!(state.selected().is_some());
    assert_eq!(state.cursor(), None);
}

#[test]
fn selection_refresh_picks_up_new_metadata() {
    let mut state = State::new();
    state.on_snapshot(&three_floating());
    state.handle_key(Key::Down);
    state.handle_key(Key::Char('\n'));
    let mut renamed = pane(2, false, "renamed");
    renamed.columns = 99;
    let snap = vec![session(true, vec![tab(0, 3, vec![renamed])])];
    state.on_snapshot(&snap);
    let sel = state.selected().clone().unwrap();
    assert_eq!(sel.title, "renamed");
    assert_eq!(sel.columns, 99);
    assert_eq!(sel.tab.position, 3);
}

#[test]
fn refresh_selected_finds_pane_by_tab_and_id() {
    let tabs = vec![tab(0, 0, vec![pane(1, true, "one")]), tab(1, 1, vec![pane(1, true, "two")])];
    let stale = PaneDescriptor::new(&pane(1, true, "old"), &tab(1, 1, vec![]));
    let fresh = refresh_selected(&stale, &tabs);
    assert_eq!(fresh.title, "two");
    let missing = PaneDescriptor::new(&pane(6, true, "gone"), &tab(1, 1, vec![]));
    assert_eq!(refresh_selected(&missing, &tabs).title, "gone");
}

#[test]
fn parse_dimension_values() {
    assert_eq!(parse_dimension(&chars("0")), 0);
    assert_eq!(parse_dimension(&chars("7")), 7);
    assert_eq!(parse_dimension(&chars("80")), 80);
    assert_eq!(parse_dimension(&chars("255")), 255);
    assert_eq!(parse_dimension(&chars("0255")), 255);
    assert_eq!(parse_dimension(&chars("256")), 0);
    assert_eq!(parse_dimension(&chars("999")), 0);
    assert_eq!(parse_dimension(&chars("12345678901234567890")), 0);
    assert_eq!(parse_dimension(&chars("")), 0);
    assert_eq!(parse_dimension(&chars("1a")), 0);
}

#[test]
fn commit_height_returns_to_start() {
    let mut input = ResizeInput::new();
    input.push_digit('5');
    input.push_digit('x');
    assert_eq!(input.buffer(), &vec!['5']);
    assert_eq!(input.commit(), None);
    input.push_digit('6');
    assert_eq!(input.commit(), Some((5, 6)));
    assert_eq!(input.stage(), Stage::AwaitingWidth);
    assert_eq!((input.width(), input.height()), (0, 0));
    input.push_digit('1');
    assert_eq!(input.commit(), None);
    assert_eq!(input.commit(), Some((1, 0)));
}

#[test]
fn empty_commits_give_zero_pair() {
    let mut input = ResizeInput::new();
    assert_eq!(input.commit(), None);
    assert_eq!(input.commit(), Some((0, 0)));
}

#[test]
fn take_pending_zeroes_values() {
    let mut input = ResizeInput::new();
    input.push_digit('4');
    input.push_digit('2');
    input.commit();
    input.push_digit('9');
    assert_eq!(input.take_pending(), (42, 0));
    assert_eq!(input.width(), 0);
    assert_eq!(input.stage(), Stage::AwaitingHeight);
    assert_eq!(input.buffer(), &vec!['9']);
    input.reset();
    assert!(input.buffer().is_empty());
    assert_eq!(input.stage(), Stage::AwaitingWidth);
}

#[test]
fn ctrl_s_sends_pending_values() {
    let mut state = State::new();
    state.on_snapshot(&three_floating());
    assert_eq!(state.handle_key(Key::Ctrl('s')), Action::Nothing);
    state.handle_key(Key::Down);
    state.handle_key(Key::Char('\n'));
    type_text(&mut state, "50");
    state.handle_key(Key::Char('\n'));
    let action = state.handle_key(Key::Ctrl('s'));
    assert_eq!(
        action,
        Action::Resize(ResizeRequest {
            tab_id: 0,
            pane_id: 2,
            is_plugin: false,
            width: 50,
            height: 0
        })
    );
    assert_eq!(state.input().width(), 0);
}

#[test]
fn ctrl_r_aborts_entry_but_keeps_selection() {
    let mut state = State::new();
    state.on_snapshot(&three_floating());
    state.handle_key(Key::Down);
    state.handle_key(Key::Char('\n'));
    type_text(&mut state, "33");
    state.handle_key(Key::Char('\n'));
    type_text(&mut state, "4");
    assert_eq!(state.handle_key(Key::Ctrl('r')), Action::Nothing);
    assert_eq!(state.input().stage(), Stage::AwaitingWidth);
    assert_eq!(state.input().width(), 0);
    assert!(state.input().buffer().is_empty());
    assert!(state.selected().is_some());
}

#[test]
fn escape_and_delete_clear_selection_or_hide() {
    let mut state = State::new();
    state.on_snapshot(&three_floating());
    assert_eq!(state.handle_key(Key::Esc), Action::Hide);
    assert_eq!(state.handle_key(Key::Delete), Action::Hide);
    state.handle_key(Key::Down);
    state.handle_key(Key::Char('\n'));
    type_text(&mut state, "12");
    assert_eq!(state.handle_key(Key::Esc), Action::Nothing);
    assert!(state.selected().is_none());
    assert!(state.input().buffer().is_empty());
    state.handle_key(Key::Char('\n'));
    assert!(state.selected().is_some());
    assert_eq!(state.handle_key(Key::Delete), Action::Nothing);
    assert!(state.selected().is_none());
}

#[test]
fn ctrl_e_closes_with_or_without_selection() {
    let mut state = State::new();
    state.on_snapshot(&three_floating());
    assert_eq!(state.handle_key(Key::Ctrl('e')), Action::Close);
    state.handle_key(Key::Down);
    state.handle_key(Key::Char('\n'));
    assert_eq!(state.handle_key(Key::Ctrl('e')), Action::Close);
    assert!(state.selected().is_some());
}

#[test]
fn digits_ignored_without_selection() {
    let mut state = State::new();
    state.on_snapshot(&three_floating());
    type_text(&mut state, "12");
    assert!(state.input().buffer().is_empty());
    assert_eq!(state.handle_key(Key::Other), Action::Nothing);
    assert_eq!(state.handle_key(Key::Char('q')), Action::Nothing);
    assert_eq!(state.cursor(), None);
}

#[test]
fn commit_select_copies_descriptor_under_cursor() {
    let mut state = State::new();
    state.on_snapshot(&three_floating());
    state.handle_key(Key::Up);
    state.handle_key(Key::Up);
    state.handle_key(Key::Char('\n'));
    let sel = state.selected().clone().unwrap();
    assert_eq!(sel.pane_id, 4);
    assert_eq!(sel.title, "c");
    assert_eq!(sel.tab.name, "tab1");
    assert_eq!(state.panes().entries().len(), 3);
}
