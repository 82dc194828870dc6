use sentaku::cli::{MultiSentakuAction, MultiSentakuCli, RowStyle, SingleSentakuCli};
use sentaku::key::Key;
use sentaku::keymap::Keymap;
use sentaku::{
    get_default_keymap, get_default_multi_sentaku_keymap, wait_for_input,
    wait_for_input_with_keymap, SentakuAction, SentakuError, SentakuItem,
};

fn fruits() -> Vec<SentakuItem<String>> {
    vec!["apple", "banana", "berry"]
        .iter()
        .map(|s| SentakuItem::from_str(s))
        .collect()
}

const ENTER: Key = Key::Char('\n');
const SPACE: Key = Key::Char(' ');
const CTRL_C: Key = Key::Ctrl('c');

#[test]
fn it_works() {
    assert_eq!(2 + 2, 4);
}

#[test]
fn items_keep_label_and_value() {
    let a = SentakuItem::from_str("apple");
    assert_eq!(a.label(), "apple");
    assert_eq!(a.value(), "apple");
    let b = SentakuItem::new("two", 2u32);
    assert_eq!(b.label(), "two");
    assert_eq!(*b.value(), 2);
}

#[test]
fn single_move_down_once_selects_banana() {
    let items = fruits();
    let r = wait_for_input(&vec![Key::Down, ENTER], &items);
    assert_eq!(r.unwrap(), "banana");
}

#[test]
fn single_move_down_twice_selects_berry() {
    let items = fruits();
    let r = wait_for_input(&vec![Key::Down, Key::Down, ENTER], &items);
    assert_eq!(r.unwrap(), "berry");
}

#[test]
fn single_vi_keys_move_the_cursor() {
    let items = fruits();
    let r = wait_for_input(&vec![Key::Char('j'), Key::Char('j'), Key::Char('k'), ENTER], &items);
    assert_eq!(r.unwrap(), "banana");
}

#[test]
fn single_cursor_clamps_at_both_ends() {
    let items = fruits();
    let up = wait_for_input(&vec![Key::Up, Key::Up, ENTER], &items);
    assert_eq!(up.unwrap(), "apple");
    let down = wait_for_input(&vec![Key::Down; 10].into_iter().chain([ENTER]).collect(), &items);
    assert_eq!(down.unwrap(), "berry");
}

#[test]
fn single_empty_list_is_an_error() {
    let items: Vec<SentakuItem<String>> = Vec::new();
    let r = wait_for_input(&vec![ENTER], &items);
    assert!(matches!(r, Err(SentakuError::EmptyList)));
    let cli = SingleSentakuCli::new(&items);
    assert!(matches!(cli.start(), Err(SentakuError::EmptyList)));
}

#[test]
fn single_cancel_anywhere() {
    let items = fruits();
    assert!(matches!(wait_for_input(&vec![CTRL_C], &items), Err(SentakuError::Canceled)));
    assert!(matches!(
        wait_for_input(&vec![Key::Down, Key::Down, CTRL_C, ENTER], &items),
        Err(SentakuError::Canceled)
    ));
}

#[test]
fn single_keys_after_select_are_ignored() {
    let items = fruits();
    let r = wait_for_input(&vec![ENTER, Key::Down, CTRL_C], &items);
    assert_eq!(r.unwrap(), "apple");
}

#[test]
fn single_input_running_out_keeps_cursor_item() {
    let items = fruits();
    let r = wait_for_input(&vec![Key::Down], &items);
    assert_eq!(r.unwrap(), "banana");
}

#[test]
fn single_unbound_key_changes_nothing() {
    let items = fruits();
    let cli = SingleSentakuCli::new(&items);
    let mut st = cli.start().unwrap();
    cli.handle_key(&mut st, &Key::Down);
    let before = st;
    assert_eq!(cli.handle_key(&mut st, &Key::Char('x')), None);
    assert_eq!(st, before);
    let r = wait_for_input(&vec![Key::Down, Key::Char('x'), Key::F(3), ENTER], &items);
    assert_eq!(r.unwrap(), "banana");
}

#[test]
fn single_custom_action_reports_handle_and_keeps_state() {
    let items = fruits();
    let mut cli = SingleSentakuCli::new(&items);
    cli.add_key_assign(Key::Char('o'), SentakuAction::Action(7));
    let mut st = cli.start().unwrap();
    cli.handle_key(&mut st, &Key::Down);
    let before = st;
    assert_eq!(cli.handle_key(&mut st, &Key::Char('o')), Some(7));
    assert_eq!(st, before);
    assert_eq!(cli.wait_for_input(&vec![Key::Down, Key::Char('o'), ENTER]).unwrap(), "banana");
}

#[test]
fn single_rebinding_and_unbinding_keys() {
    let items = fruits();
    let mut cli = SingleSentakuCli::new(&items);
    cli.add_key_assign(ENTER, SentakuAction::Down);
    cli.add_key_assign(Key::Char('s'), SentakuAction::Select);
    assert_eq!(cli.wait_for_input(&vec![ENTER, Key::Char('s')]).unwrap(), "banana");
    cli.remove_key_assign(Key::Down);
    cli.remove_key_assign(Key::Down);
    assert_eq!(cli.wait_for_input(&vec![Key::Down, Key::Char('s')]).unwrap(), "apple");
}

#[test]
fn single_with_custom_keymap() {
    let items = fruits();
    let mut km = Keymap::new();
    km.insert(Key::Right, SentakuAction::Down);
    km.insert(Key::Esc, SentakuAction::Cancel);
    km.insert(Key::Char('y'), SentakuAction::Select);
    let r = wait_for_input_with_keymap(&vec![Key::Right, Key::Down, Key::Char('y')], &items, km);
    assert_eq!(r.unwrap(), "banana");
}

#[test]
fn single_row_styles_mark_cursor() {
    let items = fruits();
    let cli = SingleSentakuCli::new(&items);
    assert_eq!(cli.row_styles(1), vec![RowStyle::Plain, RowStyle::Cursor, RowStyle::Plain]);
}

#[test]
fn default_keymaps_bind_expected_keys() {
    let km = get_default_keymap();
    assert_eq!(km.lookup(&Key::Up), Some(SentakuAction::Up));
    assert_eq!(km.lookup(&Key::Char('k')), Some(SentakuAction::Up));
    assert_eq!(km.lookup(&Key::Down), Some(SentakuAction::Down));
    assert_eq!(km.lookup(&Key::Char('j')), Some(SentakuAction::Down));
    assert_eq!(km.lookup(&ENTER), Some(SentakuAction::Select));
    assert_eq!(km.lookup(&CTRL_C), Some(SentakuAction::Cancel));
    assert_eq!(km.lookup(&SPACE), None);
    let mk = get_default_multi_sentaku_keymap();
    assert_eq!(mk.lookup(&SPACE), Some(MultiSentakuAction::Select));
    assert_eq!(mk.lookup(&ENTER), Some(MultiSentakuAction::Finish));
    assert_eq!(mk.lookup(&CTRL_C), Some(MultiSentakuAction::Cancel));
    assert_eq!(mk.lookup(&Key::Char('j')), Some(MultiSentakuAction::Down));
    assert_eq!(mk.lookup(&Key::Char('q')), None);
}

#[test]
fn keymap_insert_replaces_and_remove_is_quiet() {
    let mut km = Keymap::new();
    km.insert(Key::Up, SentakuAction::Up);
    km.insert(Key::Up, SentakuAction::Cancel);
    assert_eq!(km.lookup(&Key::Up), Some(SentakuAction::Cancel));
    km.remove(&Key::Down);
    assert_eq!(km.lookup(&Key::Up), Some(SentakuAction::Cancel));
    km.remove(&Key::Up);
    assert_eq!(km.lookup(&Key::Up), None);
}

#[test]
fn multi_toggles_return_in_item_order() {
    let items = fruits();
    let cli = MultiSentakuCli::new(&items);
    let r = cli.wait_for_input(&vec![SPACE, Key::Down, Key::Down, SPACE, ENTER]);
    assert_eq!(r.unwrap(), vec!["apple".to_string(), "berry".to_string()]);
}

#[test]
fn multi_order_is_item_order_not_toggle_order() {
    let items = fruits();
    let cli = MultiSentakuCli::new(&items);
    let r = cli.wait_for_input(&vec![Key::Down, Key::Down, SPACE, Key::Up, Key::Up, SPACE, ENTER]);
    assert_eq!(r.unwrap(), vec!["apple".to_string(), "berry".to_string()]);
}

#[test]
fn multi_double_toggle_unselects() {
    let items = fruits();
    let cli = MultiSentakuCli::new(&items);
    let mut st = cli.start().unwrap();
    let before = st.selected.clone();
    cli.handle_key(&mut st, &SPACE);
    assert_eq!(st.selected, vec![true, false, false]);
    cli.handle_key(&mut st, &SPACE);
    assert_eq!(st.selected, before);
    let r = cli.wait_for_input(&vec![Key::Down, SPACE, SPACE, ENTER]);
    assert_eq!(r.unwrap(), Vec::<String>::new());
}

#[test]
fn multi_finish_without_toggles_is_empty() {
    let items = fruits();
    let cli = MultiSentakuCli::new(&items);
    assert_eq!(cli.wait_for_input(&vec![ENTER]).unwrap(), Vec::<String>::new());
}

#[test]
fn multi_empty_list_and_cancel() {
    let empty: Vec<SentakuItem<String>> = Vec::new();
    let cli = MultiSentakuCli::new(&empty);
    assert!(matches!(cli.wait_for_input(&vec![ENTER]), Err(SentakuError::EmptyList)));
    let items = fruits();
    let cli = MultiSentakuCli::new(&items);
    assert!(matches!(cli.wait_for_input(&vec![SPACE, CTRL_C]), Err(SentakuError::Canceled)));
}

#[test]
fn multi_unbound_and_custom_keys_change_nothing() {
    let items = fruits();
    let mut cli = MultiSentakuCli::new(&items);
    cli.add_key_assign(Key::Char('o'), MultiSentakuAction::Action(2));
    let mut st = cli.start().unwrap();
    cli.handle_key(&mut st, &SPACE);
    cli.handle_key(&mut st, &Key::Down);
    let (pos, sel, done) = (st.pos, st.selected.clone(), st.terminated);
    assert_eq!(cli.handle_key(&mut st, &Key::Char('z')), None);
    assert_eq!((st.pos, st.selected.clone(), st.terminated), (pos, sel.clone(), done));
    assert_eq!(cli.handle_key(&mut st, &Key::Char('o')), Some(2));
    assert_eq!((st.pos, st.selected.clone(), st.terminated), (pos, sel, done));
    assert_eq!(cli.selected_values(&st), vec!["apple".to_string()]);
}

#[test]
fn multi_row_styles_distinguish_three_states() {
    let items = fruits();
    let cli = MultiSentakuCli::new(&items);
    let mut st = cli.start().unwrap();
    cli.handle_key(&mut st, &SPACE);
    cli.handle_key(&mut st, &Key::Down);
    assert_eq!(
        cli.row_styles(&st),
        vec![RowStyle::Selected, RowStyle::Cursor, RowStyle::Plain]
    );
}
