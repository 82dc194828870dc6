use vstd::prelude::*;

use crate::key::Key;
use crate::keymap::{bound_to, Keymap};
use crate::{get_default_keymap, get_default_multi_sentaku_keymap, SentakuAction, SentakuError, SentakuItem};

verus! {

/// What a key does in multi selection. `Action(h)` asks the caller to run its
/// custom callback number `h` on the values selected so far.
#[derive(Clone, Copy, Debug, PartialEq, Eq, Structural)]
pub enum MultiSentakuAction {
    Up,
    Down,
    Cancel,
    /// Toggles the item under the cursor.
    Select,
    Finish,
    Action(usize),
}

/// How a row is drawn: the three must look different on screen.
#[derive(Clone, Copy, Debug, PartialEq, Eq, Structural)]
pub enum RowStyle {
    Plain,
    Cursor,
    Selected,
}

/// The cursor after a move down among `len` rows: it stops at the last row.
pub open spec fn cursor_down(len: int, pos: int) -> int {
    if pos + 1 < len - 1 {
        pos + 1
    } else {
        len - 1
    }
}

/// The cursor after a move up: it stops at the first row.
pub open spec fn cursor_up(pos: int) -> int {
    if pos > 0 {
        pos - 1
    } else {
        0
    }
}

fn move_down(len: usize, pos: usize) -> (r: usize)
    requires
        pos < len,
    ensures
        r == cursor_down(len as int, pos as int),
{
    if pos + 1 < len - 1 {
        pos + 1
    } else {
        len - 1
    }
}

fn move_up(pos: usize) -> (r: usize)
    ensures
        r == cursor_up(pos as int),
{
    if pos > 0 {
        pos - 1
    } else {
        0
    }
}

// ----- single selection -----

/// Where a single-selection session stands.
#[derive(Clone, Copy, Debug, PartialEq, Eq, Structural)]
pub struct SingleState {
    /// The row under the cursor.
    pub pos: usize,
    /// The session is over.
    pub terminated: bool,
    /// It ended by a cancel.
    pub canceled: bool,
}

/// The state that a session among `len` rows starts in.
pub open spec fn single_initial() -> SingleState {
    SingleState { pos: 0, terminated: false, canceled: false }
}

/// The state after one key whose binding is `a` (`None`: the key is unbound).
pub open spec fn single_next(len: int, st: SingleState, a: Option<SentakuAction>) -> SingleState {
    match a {
        Some(SentakuAction::Down) => SingleState {
            pos: cursor_down(len, st.pos as int) as usize,
            terminated: st.terminated,
            canceled: st.canceled,
        },
        Some(SentakuAction::Up) => SingleState {
            pos: cursor_up(st.pos as int) as usize,
            terminated: st.terminated,
            canceled: st.canceled,
        },
        Some(SentakuAction::Select) => SingleState {
            pos: st.pos,
            terminated: true,
            canceled: st.canceled,
        },
        Some(SentakuAction::Cancel) => SingleState { pos: st.pos, terminated: true, canceled: true },
        _ => st,
    }
}

/// The state after the keys of `keys` are read one by one, until the session
/// ends or the keys run out.
pub open spec fn single_run(
    len: int,
    km: Map<Key, SentakuAction>,
    st: SingleState,
    keys: Seq<Key>,
) -> SingleState
    decreases keys.len(),
{
    if st.terminated || keys.len() == 0 {
        st
    } else {
        single_run(len, km, single_next(len, st, bound_to(km, keys[0])), keys.drop_first())
    }
}

/// The custom callback that an action asks for, if any.
pub open spec fn single_custom(a: Option<SentakuAction>) -> Option<usize> {
    match a {
        Some(SentakuAction::Action(h)) => Some(h),
        _ => None,
    }
}

/// `r` is what a single selection over `items` with the bindings `km`
/// returns on the keys `keys`: `EmptyList` for no items, `Canceled` if the
/// session was canceled, otherwise a clone of the value under the cursor
/// where the session ended or the keys ran out.
pub open spec fn single_returns<T: Clone>(
    items: Seq<SentakuItem<T>>,
    km: Map<Key, SentakuAction>,
    keys: Seq<Key>,
    r: Result<T, SentakuError>,
) -> bool {
    if items.len() == 0 {
        r matches Err(SentakuError::EmptyList)
    } else {
        let fin = single_run(items.len() as int, km, single_initial(), keys);
        if fin.canceled {
            r matches Err(SentakuError::Canceled)
        } else {
            r matches Ok(v) && cloned(items[fin.pos as int].spec_value(), v)
        }
    }
}

/// A single-selection session over a borrowed list of items.
pub struct SingleSentakuCli<'a, T> {
    items: &'a Vec<SentakuItem<T>>,
    keymap: Keymap<SentakuAction>,
}

impl<'a, T: Clone> SingleSentakuCli<'a, T> {
    /// The items offered.
    pub fn items(&self) -> (r: &'a Vec<SentakuItem<T>>)
        ensures
            r@ == self.spec_items(),
    {
        self.items
    }

    /// The items offered.
    pub closed spec fn spec_items(&self) -> Seq<SentakuItem<T>> {
        self.items@
    }

    /// The key bindings.
    pub closed spec fn spec_keymap(&self) -> Map<Key, SentakuAction> {
        self.keymap@
    }

    /// The keymap binds each key once.
    pub closed spec fn wf(&self) -> bool {
        self.keymap.wf()
    }

    /// A session over `items` with the default keymap.
    pub fn new(items: &'a Vec<SentakuItem<T>>) -> (r: Self)
        ensures
            r.wf(),
            r.spec_items() == items@,
            r.spec_keymap() == crate::default_keymap(),
    {
        Self::with_keymap(items, get_default_keymap())
    }

    /// A session over `items` with the given keymap.
    pub fn with_keymap(items: &'a Vec<SentakuItem<T>>, keymap: Keymap<SentakuAction>) -> (r: Self)
        requires
            keymap.wf(),
        ensures
            r.wf(),
            r.spec_items() == items@,
            r.spec_keymap() == keymap@,
    {
        SingleSentakuCli { items, keymap }
    }

    /// Binds `key` to `action`, replacing its former binding.
    pub fn add_key_assign(&mut self, key: Key, action: SentakuAction)
        requires
            old(self).wf(),
        ensures
            final(self).wf(),
            final(self).spec_items() == old(self).spec_items(),
            final(self).spec_keymap() == old(self).spec_keymap().insert(key, action),
    {
        self.keymap.insert(key, action);
    }

    /// Unbinds `key`; an unbound key is left alone.
    pub fn remove_key_assign(&mut self, key: Key)
        requires
            old(self).wf(),
        ensures
            final(self).wf(),
            final(self).spec_items() == old(self).spec_items(),
            final(self).spec_keymap() == old(self).spec_keymap().remove(key),
    {
        self.keymap.remove(&key);
    }

    /// Opens a session: fails with `EmptyList` when there is nothing to choose.
    pub fn start(&self) -> (r: Result<SingleState, SentakuError>)
        ensures
            self.spec_items().len() == 0 <==> r matches Err(SentakuError::EmptyList),
            self.spec_items().len() > 0 ==> r == Ok::<SingleState, SentakuError>(single_initial()),
    {
        if self.items.len() == 0 {
            Err(SentakuError::EmptyList)
        } else {
            Ok(SingleState { pos: 0, terminated: false, canceled: false })
        }
    }

    /// Applies one key to `state`. Returns the custom callback that the key
    /// asks to run on the value under the cursor, if any.
    pub fn handle_key(&self, state: &mut SingleState, key: &Key) -> (r: Option<usize>)
        requires
            self.wf(),
            old(state).pos < self.spec_items().len(),
        ensures
            *final(state) == single_next(
                self.spec_items().len() as int,
                *old(state),
                bound_to(self.spec_keymap(), *key),
            ),
            final(state).pos < self.spec_items().len(),
            r == single_custom(bound_to(self.spec_keymap(), *key)),
    {
        let action = self.keymap.lookup(key);
        match action {
            Some(SentakuAction::Down) => {
                state.pos = move_down(self.items.len(), state.pos);
                None
            },
            Some(SentakuAction::Up) => {
                state.pos = move_up(state.pos);
                None
            },
            Some(SentakuAction::Select) => {
                state.terminated = true;
                None
            },
            Some(SentakuAction::Cancel) => {
                state.terminated = true;
                state.canceled = true;
                None
            },
            Some(SentakuAction::Action(h)) => Some(h),
            None => None,
        }
    }

    /// What a session that stands at `state` returns: `Canceled` if it was
    /// canceled, otherwise a clone of the value under the cursor.
    pub fn outcome(&self, state: &SingleState) -> (r: Result<T, SentakuError>)
        requires
            state.pos < self.spec_items().len(),
        ensures
            if state.canceled {
                r matches Err(SentakuError::Canceled)
            } else {
                r matches Ok(v) && cloned(self.spec_items()[state.pos as int].spec_value(), v)
            },
    {
        if state.canceled {
            Err(SentakuError::Canceled)
        } else {
            Ok(self.items[state.pos].value().clone())
        }
    }

    /// How each row is drawn with the cursor at `pos`.
    pub fn row_styles(&self, pos: usize) -> (r: Vec<RowStyle>)
        ensures
            r@.len() == self.spec_items().len(),
            forall|i: int|
                0 <= i < r@.len() ==> r@[i] == if i == pos {
                    RowStyle::Cursor
                } else {
                    RowStyle::Plain
                },
    {
        let mut r: Vec<RowStyle> = Vec::new();
        let mut i: usize = 0;
        while i < self.items.len()
            invariant
                i <= self.items@.len(),
                r@.len() == i,
                forall|j: int|
                    0 <= j < i ==> r@[j] == if j == pos {
                        RowStyle::Cursor
                    } else {
                        RowStyle::Plain
                    },
            decreases self.items@.len() - i,
        {
            if i == pos {
                r.push(RowStyle::Cursor);
            } else {
                r.push(RowStyle::Plain);
            }
            i = i + 1;
        }
        r
    }

    /// Runs a session on the keys of `input`, read in order until one ends
    /// it. Input that runs out first leaves the item under the cursor chosen.
    /// Custom actions change nothing here: running their callbacks is left to
    /// a caller that drives `handle_key` itself.
    pub fn wait_for_input(&self, input: &Vec<Key>) -> (r: Result<T, SentakuError>)
        requires
            self.wf(),
        ensures
            single_returns(self.spec_items(), self.spec_keymap(), input@, r),
    {
        let mut state = match self.start() {
            Ok(s) => s,
            Err(e) => return Err(e),
        };
        let ghost len = self.spec_items().len() as int;
        let ghost km = self.spec_keymap();
        let mut i: usize = 0;
        assert(input@.subrange(0, input@.len() as int) == input@);
        while i < input.len()
            invariant
                self.wf(),
                len == self.spec_items().len(),
                km == self.spec_keymap(),
                i <= input@.len(),
                state.pos < len,
                single_run(len, km, single_initial(), input@) == single_run(
                    len,
                    km,
                    state,
                    input@.subrange(i as int, input@.len() as int),
                ),
            ensures
                state.pos < len,
                single_run(len, km, single_initial(), input@) == single_run(
                    len,
                    km,
                    state,
                    input@.subrange(i as int, input@.len() as int),
                ),
                state.terminated || i == input@.len(),
            decreases input@.len() - i,
        {
            if state.terminated {
                break;
            }
            let ghost rest = input@.subrange(i as int, input@.len() as int);
            let _ = self.handle_key(&mut state, &input[i]);
            assert(rest.drop_first() == input@.subrange(i + 1, input@.len() as int));
            assert(rest[0] == input@[i as int]);
            i = i + 1;
        }
        proof {
            let rest = input@.subrange(i as int, input@.len() as int);
            if !state.terminated {
                assert(rest.len() == 0);
            }
        }
        self.outcome(&state)
    }
}

// ----- multi selection -----

/// Where a multi-selection session stands, as a mathematical value.
pub ghost struct MultiModel {
    pub pos: int,
    /// `selected[i]`: row `i` is toggled on.
    pub selected: Seq<bool>,
    pub terminated: bool,
    pub canceled: bool,
}

/// Where a multi-selection session stands.
#[derive(Clone, Debug)]
pub struct MultiState {
    /// The row under the cursor.
    pub pos: usize,
    /// One flag per row: whether it is selected.
    pub selected: Vec<bool>,
    /// The session is over.
    pub terminated: bool,
    /// It ended by a cancel.
    pub canceled: bool,
}

impl MultiState {
    pub open spec fn view(&self) -> MultiModel {
        MultiModel {
            pos: self.pos as int,
            selected: self.selected@,
            terminated: self.terminated,
            canceled: self.canceled,
        }
    }
}

/// The set of selected rows.
pub open spec fn selection_set(flags: Seq<bool>) -> Set<int> {
    Set::new(|i: int| 0 <= i < flags.len() && flags[i])
}

/// The state that a session among `len` rows starts in: nothing selected.
pub open spec fn multi_initial(len: int) -> MultiModel {
    MultiModel {
        pos: 0,
        selected: Seq::new(len as nat, |i: int| false),
        terminated: false,
        canceled: false,
    }
}

/// The state after one key whose binding is `a` (`None`: the key is unbound).
pub open spec fn multi_next(len: int, m: MultiModel, a: Option<MultiSentakuAction>) -> MultiModel {
    match a {
        Some(MultiSentakuAction::Down) => MultiModel { pos: cursor_down(len, m.pos), ..m },
        Some(MultiSentakuAction::Up) => MultiModel { pos: cursor_up(m.pos), ..m },
        Some(MultiSentakuAction::Select) => MultiModel {
            selected: m.selected.update(m.pos, !m.selected[m.pos]),
            ..m
        },
        Some(MultiSentakuAction::Finish) => MultiModel { terminated: true, ..m },
        Some(MultiSentakuAction::Cancel) => MultiModel { terminated: true, canceled: true, ..m },
        _ => m,
    }
}

/// The state after the keys of `keys` are read one by one, until the session
/// ends or the keys run out.
pub open spec fn multi_run(
    len: int,
    km: Map<Key, MultiSentakuAction>,
    m: MultiModel,
    keys: Seq<Key>,
) -> MultiModel
    decreases keys.len(),
{
    if m.terminated || keys.len() == 0 {
        m
    } else {
        multi_run(len, km, multi_next(len, m, bound_to(km, keys[0])), keys.drop_first())
    }
}

/// The custom callback that an action asks for, if any.
pub open spec fn multi_custom(a: Option<MultiSentakuAction>) -> Option<usize> {
    match a {
        Some(MultiSentakuAction::Action(h)) => Some(h),
        _ => None,
    }
}

/// The selected rows, in ascending order.
pub open spec fn selected_indices(flags: Seq<bool>) -> Seq<int>
    decreases flags.len(),
{
    if flags.len() == 0 {
        Seq::empty()
    } else {
        let rest = selected_indices(flags.drop_last());
        if flags.last() {
            rest.push(flags.len() - 1)
        } else {
            rest
        }
    }
}

/// How row `i` is drawn: the cursor row first, then selected rows.
pub open spec fn multi_row_style(pos: int, flags: Seq<bool>, i: int) -> RowStyle {
    if i == pos {
        RowStyle::Cursor
    } else if flags[i] {
        RowStyle::Selected
    } else {
        RowStyle::Plain
    }
}

/// `v` holds clones of the values of the rows that `flags` selects, in the
/// order of the rows.
pub open spec fn clones_of_selected<T: Clone>(
    items: Seq<SentakuItem<T>>,
    flags: Seq<bool>,
    v: Seq<T>,
) -> bool {
    &&& v.len() == selected_indices(flags).len()
    &&& forall|j: int|
        0 <= j < v.len() ==> cloned(items[#[trigger] selected_indices(flags)[j]].spec_value(), v[j])
}

/// `r` is what a multi selection over `items` with the bindings `km` returns
/// on the keys `keys`: `EmptyList` for no items, `Canceled` if the session was
/// canceled, otherwise clones of the values selected where the session ended
/// or the keys ran out, in the order of the items.
pub open spec fn multi_returns<T: Clone>(
    items: Seq<SentakuItem<T>>,
    km: Map<Key, MultiSentakuAction>,
    keys: Seq<Key>,
    r: Result<Vec<T>, SentakuError>,
) -> bool {
    if items.len() == 0 {
        r matches Err(SentakuError::EmptyList)
    } else {
        let fin = multi_run(items.len() as int, km, multi_initial(items.len() as int), keys);
        if fin.canceled {
            r matches Err(SentakuError::Canceled)
        } else {
            r matches Ok(v) && clones_of_selected(items, fin.selected, v@)
        }
    }
}

/// A multi-selection session over a borrowed list of items.
pub struct MultiSentakuCli<'a, T> {
    items: &'a Vec<SentakuItem<T>>,
    keymap: Keymap<MultiSentakuAction>,
}

impl<'a, T: Clone> MultiSentakuCli<'a, T> {
    /// The items offered.
    pub fn items(&self) -> (r: &'a Vec<SentakuItem<T>>)
        ensures
            r@ == self.spec_items(),
    {
        self.items
    }

    /// The items offered.
    pub closed spec fn spec_items(&self) -> Seq<SentakuItem<T>> {
        self.items@
    }

    /// The key bindings.
    pub closed spec fn spec_keymap(&self) -> Map<Key, MultiSentakuAction> {
        self.keymap@
    }

    /// The keymap binds each key once.
    pub closed spec fn wf(&self) -> bool {
        self.keymap.wf()
    }

    /// A state fits this session: one flag per item and the cursor on an item.
    pub open spec fn fits(&self, m: MultiModel) -> bool {
        &&& m.selected.len() == self.spec_items().len()
        &&& 0 <= m.pos < self.spec_items().len()
    }

    /// A session over `items` with the default keymap.
    pub fn new(items: &'a Vec<SentakuItem<T>>) -> (r: Self)
        ensures
            r.wf(),
            r.spec_items() == items@,
            r.spec_keymap() == crate::default_multi_keymap(),
    {
        Self::with_keymap(items, get_default_multi_sentaku_keymap())
    }

    /// A session over `items` with the given keymap.
    pub fn with_keymap(items: &'a Vec<SentakuItem<T>>, keymap: Keymap<MultiSentakuAction>) -> (r:
        Self)
        requires
            keymap.wf(),
        ensures
            r.wf(),
            r.spec_items() == items@,
            r.spec_keymap() == keymap@,
    {
        MultiSentakuCli { items, keymap }
    }

    /// Binds `key` to `action`, replacing its former binding.
    pub fn add_key_assign(&mut self, key: Key, action: MultiSentakuAction)
        requires
            old(self).wf(),
        ensures
            final(self).wf(),
            final(self).spec_items() == old(self).spec_items(),
            final(self).spec_keymap() == old(self).spec_keymap().insert(key, action),
    {
        self.keymap.insert(key, action);
    }

    /// Unbinds `key`; an unbound key is left alone.
    pub fn remove_key_assign(&mut self, key: Key)
        requires
            old(self).wf(),
        ensures
            final(self).wf(),
            final(self).spec_items() == old(self).spec_items(),
            final(self).spec_keymap() == old(self).spec_keymap().remove(key),
    {
        self.keymap.remove(&key);
    }

    /// Opens a session: fails with `EmptyList` when there is nothing to choose.
    pub fn start(&self) -> (r: Result<MultiState, SentakuError>)
        ensures
            self.spec_items().len() == 0 <==> r matches Err(SentakuError::EmptyList),
            self.spec_items().len() > 0 ==> (r matches Ok(s) && s@ == multi_initial(
                self.spec_items().len() as int,
            )),
    {
        if self.items.len() == 0 {
            return Err(SentakuError::EmptyList);
        }
        let mut selected: Vec<bool> = Vec::new();
        let mut i: usize = 0;
        while i < self.items.len()
            invariant
                i <= self.items@.len(),
                selected@ == Seq::new(i as nat, |j: int| false),
            decreases self.items@.len() - i,
        {
            selected.push(false);
            i = i + 1;
        }
        Ok(MultiState { pos: 0, selected, terminated: false, canceled: false })
    }

    /// Applies one key to `state`. Returns the custom callback that the key
    /// asks to run on the selected values, if any.
    pub fn handle_key(&self, state: &mut MultiState, key: &Key) -> (r: Option<usize>)
        requires
            self.wf(),
            self.fits(old(state)@),
        ensures
            final(state)@ == multi_next(
                self.spec_items().len() as int,
                old(state)@,
                bound_to(self.spec_keymap(), *key),
            ),
            self.fits(final(state)@),
            r == multi_custom(bound_to(self.spec_keymap(), *key)),
    {
        let action = self.keymap.lookup(key);
        match action {
            Some(MultiSentakuAction::Down) => {
                state.pos = move_down(self.items.len(), state.pos);
                None
            },
            Some(MultiSentakuAction::Up) => {
                state.pos = move_up(state.pos);
                None
            },
            Some(MultiSentakuAction::Select) => {
                let on = state.selected[state.pos];
                state.selected.set(state.pos, !on);
                None
            },
            Some(MultiSentakuAction::Finish) => {
                state.terminated = true;
                None
            },
            Some(MultiSentakuAction::Cancel) => {
                state.terminated = true;
                state.canceled = true;
                None
            },
            Some(MultiSentakuAction::Action(h)) => Some(h),
            None => None,
        }
    }

    /// Clones of the selected values, in the order of the items.
    pub fn selected_values(&self, state: &MultiState) -> (r: Vec<T>)
        requires
            state.selected@.len() == self.spec_items().len(),
        ensures
            clones_of_selected(self.spec_items(), state.selected@, r@),
    {
        let ghost flags = state.selected@;
        let mut values: Vec<T> = Vec::new();
        let mut i: usize = 0;
        while i < self.items.len()
            invariant
                i <= self.items@.len(),
                flags.len() == self.items@.len(),
                flags == state.selected@,
                values@.len() == selected_indices(flags.subrange(0, i as int)).len(),
                forall|j: int|
                    0 <= j < values@.len() ==> cloned(
                        self.spec_items()[#[trigger] selected_indices(
                            flags.subrange(0, i as int),
                        )[j]].spec_value(),
                        values@[j],
                    ),
            decreases self.items@.len() - i,
        {
            let ghost before = flags.subrange(0, i as int);
            let ghost after = flags.subrange(0, i + 1);
            assert(after.drop_last() == before);
            if state.selected[i] {
                values.push(self.items[i].value().clone());
            }
            i = i + 1;
        }
        assert(flags.subrange(0, flags.len() as int) == flags);
        values
    }

    /// What a session that stands at `state` returns: `Canceled` if it was
    /// canceled, otherwise clones of the selected values in the order of the
    /// items (none selected gives an empty list).
    pub fn outcome(&self, state: &MultiState) -> (r: Result<Vec<T>, SentakuError>)
        requires
            state.selected@.len() == self.spec_items().len(),
        ensures
            if state.canceled {
                r matches Err(SentakuError::Canceled)
            } else {
                r matches Ok(v) && clones_of_selected(self.spec_items(), state.selected@, v@)
            },
    {
        if state.canceled {
            Err(SentakuError::Canceled)
        } else {
            Ok(self.selected_values(state))
        }
    }

    /// How each row is drawn in `state`.
    pub fn row_styles(&self, state: &MultiState) -> (r: Vec<RowStyle>)
        requires
            state.selected@.len() == self.spec_items().len(),
        ensures
            r@.len() == self.spec_items().len(),
            forall|i: int|
                0 <= i < r@.len() ==> r@[i] == multi_row_style(
                    state.pos as int,
                    state.selected@,
                    i,
                ),
    {
        let mut r: Vec<RowStyle> = Vec::new();
        let mut i: usize = 0;
        while i < self.items.len()
            invariant
                i <= self.items@.len(),
                state.selected@.len() == self.items@.len(),
                r@.len() == i,
                forall|j: int|
                    0 <= j < i ==> r@[j] == multi_row_style(state.pos as int, state.selected@, j),
            decreases self.items@.len() - i,
        {
            if i == state.pos {
                r.push(RowStyle::Cursor);
            } else if state.selected[i] {
                r.push(RowStyle::Selected);
            } else {
                r.push(RowStyle::Plain);
            }
            i = i + 1;
        }
        r
    }

    /// Runs a session on the keys of `input`, read in order until one ends
    /// it. Input that runs out first finishes with what is selected. Custom
    /// actions change nothing here: running their callbacks is left to a
    /// caller that drives `handle_key` itself.
    pub fn wait_for_input(&self, input: &Vec<Key>) -> (r: Result<Vec<T>, SentakuError>)
        requires
            self.wf(),
        ensures
            multi_returns(self.spec_items(), self.spec_keymap(), input@, r),
    {
        let mut state = match self.start() {
            Ok(s) => s,
            Err(e) => return Err(e),
        };
        let ghost len = self.spec_items().len() as int;
        let ghost km = self.spec_keymap();
        let ghost init = multi_initial(len);
        let mut i: usize = 0;
        assert(input@.subrange(0, input@.len() as int) == input@);
        while i < input.len()
            invariant
                self.wf(),
                len == self.spec_items().len(),
                km == self.spec_keymap(),
                i <= input@.len(),
                self.fits(state@),
                multi_run(len, km, init, input@) == multi_run(
                    len,
                    km,
                    state@,
                    input@.subrange(i as int, input@.len() as int),
                ),
            ensures
                self.fits(state@),
                multi_run(len, km, init, input@) == multi_run(
                    len,
                    km,
                    state@,
                    input@.subrange(i as int, input@.len() as int),
                ),
                state.terminated || i == input@.len(),
            decreases input@.len() - i,
        {
            if state.terminated {
                break;
            }
            let ghost rest = input@.subrange(i as int, input@.len() as int);
            let _ = self.handle_key(&mut state, &input[i]);
            assert(rest.drop_first() == input@.subrange(i + 1, input@.len() as int));
            assert(rest[0] == input@[i as int]);
            i = i + 1;
        }
        proof {
            let rest = input@.subrange(i as int, input@.len() as int);
            if !state.terminated {
                assert(rest.len() == 0);
            }
        }
        self.outcome(&state)
    }
}

} // verus!
