use vstd::prelude::*;

pub mod cli;
pub mod key;
pub mod keymap;
pub mod laws;

use crate::cli::{single_returns, MultiSentakuAction, SingleSentakuCli};
use crate::key::Key;
use crate::keymap::Keymap;

verus! {

/// Declares std's `std::io::Error` so that `SentakuError` can carry it; it is
/// passed through unopened.
#[verifier::external_type_specification]
#[verifier::external_body]
pub struct ExIoError(std::io::Error);

/// Why a selection produced no value.
#[derive(Debug)]
pub enum SentakuError {
    /// There was nothing to choose from.
    EmptyList,
    /// The input is not an interactive terminal.
    NotTTY,
    /// The user canceled the selection.
    Canceled,
    /// Reading from or writing to the terminal failed.
    IoError(std::io::Error),
}

impl std::convert::From<std::io::Error> for SentakuError {
    fn from(e: std::io::Error) -> (r: SentakuError)
        ensures
            r == SentakuError::IoError(e),
    {
        SentakuError::IoError(e)
    }
}

impl vstd::std_specs::convert::FromSpecImpl<std::io::Error> for SentakuError {
    open spec fn obeys_from_spec() -> bool {
        true
    }

    open spec fn from_spec(e: std::io::Error) -> SentakuError {
        SentakuError::IoError(e)
    }
}

/// One choice offered to the user: `label` is displayed, and `value` is what
/// the selection returns.
pub struct SentakuItem<T> {
    label: String,
    value: T,
}

impl<T> SentakuItem<T> {
    /// The displayed text.
    pub closed spec fn spec_label(&self) -> Seq<char> {
        self.label@
    }

    /// The value handed back when this item is chosen.
    pub closed spec fn spec_value(&self) -> T {
        self.value
    }

    /// An item displayed as `label` that stands for `value`.
    pub fn new(label: &str, value: T) -> (r: Self)
        ensures
            r.spec_label() == label@,
            r.spec_value() == value,
    {
        SentakuItem { label: label.to_owned(), value }
    }

    /// The displayed text.
    pub fn label(&self) -> (r: &str)
        ensures
            r@ == self.spec_label(),
    {
        self.label.as_str()
    }

    /// The value handed back when this item is chosen.
    pub fn value(&self) -> (r: &T)
        ensures
            *r == self.spec_value(),
    {
        &self.value
    }
}

impl SentakuItem<String> {
    /// An item whose value is its own label.
    pub fn from_str(label: &str) -> (r: Self)
        ensures
            r.spec_label() == label@,
            r.spec_value()@ == label@,
    {
        SentakuItem { label: label.to_owned(), value: label.to_owned() }
    }
}

/// What a key does in single selection. `Action(h)` asks the caller to run
/// its custom callback number `h` on the value under the cursor.
#[derive(Clone, Copy, Debug, PartialEq, Eq, Structural)]
pub enum SentakuAction {
    Up,
    Down,
    Cancel,
    Select,
    Action(usize),
}

/// The bindings of `get_default_keymap`.
pub open spec fn default_keymap() -> Map<Key, SentakuAction> {
    map![
        Key::Up => SentakuAction::Up,
        Key::Down => SentakuAction::Down,
        Key::Char('k') => SentakuAction::Up,
        Key::Char('j') => SentakuAction::Down,
        Key::Char('\n') => SentakuAction::Select,
        Key::Ctrl('c') => SentakuAction::Cancel,
    ]
}

/// The bindings of `get_default_multi_sentaku_keymap`.
pub open spec fn default_multi_keymap() -> Map<Key, MultiSentakuAction> {
    map![
        Key::Up => MultiSentakuAction::Up,
        Key::Down => MultiSentakuAction::Down,
        Key::Char('k') => MultiSentakuAction::Up,
        Key::Char('j') => MultiSentakuAction::Down,
        Key::Char(' ') => MultiSentakuAction::Select,
        Key::Char('\n') => MultiSentakuAction::Finish,
        Key::Ctrl('c') => MultiSentakuAction::Cancel,
    ]
}

/// The single-selection keymap: the arrows and `k` / `j` move the cursor,
/// Enter selects and Ctrl-C cancels.
pub fn get_default_keymap() -> (r: Keymap<SentakuAction>)
    ensures
        r.wf(),
        r@ == default_keymap(),
{
    let mut result = Keymap::new();
    result.insert(Key::Up, SentakuAction::Up);
    result.insert(Key::Down, SentakuAction::Down);
    result.insert(Key::Char('k'), SentakuAction::Up);
    result.insert(Key::Char('j'), SentakuAction::Down);
    result.insert(Key::Char('\n'), SentakuAction::Select);
    result.insert(Key::Ctrl('c'), SentakuAction::Cancel);
    result
}

/// The multi-selection keymap: the arrows and `k` / `j` move the cursor,
/// Space toggles the item under it, Enter finishes and Ctrl-C cancels.
pub fn get_default_multi_sentaku_keymap() -> (r: Keymap<MultiSentakuAction>)
    ensures
        r.wf(),
        r@ == default_multi_keymap(),
{
    let mut result = Keymap::new();
    result.insert(Key::Up, MultiSentakuAction::Up);
    result.insert(Key::Down, MultiSentakuAction::Down);
    result.insert(Key::Char('k'), MultiSentakuAction::Up);
    result.insert(Key::Char('j'), MultiSentakuAction::Down);
    result.insert(Key::Char(' '), MultiSentakuAction::Select);
    result.insert(Key::Char('\n'), MultiSentakuAction::Finish);
    result.insert(Key::Ctrl('c'), MultiSentakuAction::Cancel);
    result
}

/// Runs a single selection over `items` with the bindings of `keymap` on the
/// keys of `input`; see `SingleSentakuCli::wait_for_input`.
pub fn wait_for_input_with_keymap<T: Clone>(
    input: &Vec<Key>,
    items: &Vec<SentakuItem<T>>,
    keymap: Keymap<SentakuAction>,
) -> (r: Result<T, SentakuError>)
    requires
        keymap.wf(),
    ensures
        single_returns(items@, keymap@, input@, r),
{
    let cli = SingleSentakuCli::with_keymap(items, keymap);
    cli.wait_for_input(input)
}

/// Runs a single selection over `items` with the default keymap on the keys
/// of `input`.
pub fn wait_for_input<T: Clone>(input: &Vec<Key>, items: &Vec<SentakuItem<T>>) -> (r: Result<
    T,
    SentakuError,
>)
    ensures
        single_returns(items@, default_keymap(), input@, r),
{
    wait_for_input_with_keymap(input, items, get_default_keymap())
}

} // verus!
