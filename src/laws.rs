use vstd::prelude::*;

use crate::cli::{
    multi_next, multi_run, selection_set, single_next, single_run, MultiModel, MultiSentakuAction,
    SingleState,
};
use crate::key::Key;
use crate::keymap::bound_to;
use crate::SentakuAction;

verus! {

/// Whatever keys a single selection reads, the cursor stays on a row; a move
/// up on the first row and a move down on the last row leave it where it is.
pub proof fn lemma_single_cursor_in_range(
    len: int,
    km: Map<Key, SentakuAction>,
    st: SingleState,
    keys: Seq<Key>,
)
    requires
        0 < len <= usize::MAX,
        st.pos < len,
    ensures
        single_run(len, km, st, keys).pos < len,
        single_next(len, SingleState { pos: 0, ..st }, Some(SentakuAction::Up)).pos == 0,
        single_next(len, SingleState { pos: (len - 1) as usize, ..st }, Some(SentakuAction::Down)).pos
            == len - 1,
    decreases keys.len(),
{
    if !st.terminated && keys.len() > 0 {
        lemma_single_cursor_in_range(
            len,
            km,
            single_next(len, st, bound_to(km, keys[0])),
            keys.drop_first(),
        );
    }
}

/// A cancel ends a single selection as canceled, wherever the cursor is.
pub proof fn lemma_single_cancel(len: int, km: Map<Key, SentakuAction>, st: SingleState, k: Key)
    requires
        !st.terminated,
        bound_to(km, k) == Some(SentakuAction::Cancel),
    ensures
        single_run(len, km, st, seq![k]).terminated,
        single_run(len, km, st, seq![k]).canceled,
{
    let next = single_next(len, st, bound_to(km, k));
    assert(seq![k][0] == k);
    assert(seq![k].drop_first().len() == 0);
    assert(single_run(len, km, next, seq![k].drop_first()) == next);
}

/// A cancel ends a multi selection as canceled, wherever the cursor is.
pub proof fn lemma_multi_cancel(len: int, km: Map<Key, MultiSentakuAction>, m: MultiModel, k: Key)
    requires
        !m.terminated,
        bound_to(km, k) == Some(MultiSentakuAction::Cancel),
    ensures
        multi_run(len, km, m, seq![k]).terminated,
        multi_run(len, km, m, seq![k]).canceled,
{
    let next = multi_next(len, m, bound_to(km, k));
    assert(seq![k][0] == k);
    assert(seq![k].drop_first().len() == 0);
    assert(multi_run(len, km, next, seq![k].drop_first()) == next);
}

/// Toggling the same row twice leaves the selection as it was.
pub proof fn lemma_double_toggle(len: int, m: MultiModel)
    requires
        0 <= m.pos < m.selected.len(),
    ensures
        multi_next(
            len,
            multi_next(len, m, Some(MultiSentakuAction::Select)),
            Some(MultiSentakuAction::Select),
        ) == m,
        selection_set(
            multi_next(
                len,
                multi_next(len, m, Some(MultiSentakuAction::Select)),
                Some(MultiSentakuAction::Select),
            ).selected,
        ) == selection_set(m.selected),
{
    let once = multi_next(len, m, Some(MultiSentakuAction::Select));
    let twice = multi_next(len, once, Some(MultiSentakuAction::Select));
    assert(twice.selected =~= m.selected);
}

/// A key with no binding, read at any point of a single selection, changes
/// nothing: the session goes on as if the key had not been pressed.
pub proof fn lemma_single_unbound_key(
    len: int,
    km: Map<Key, SentakuAction>,
    st: SingleState,
    before: Seq<Key>,
    k: Key,
    after: Seq<Key>,
)
    requires
        !km.contains_key(k),
    ensures
        single_next(len, st, bound_to(km, k)) == st,
        single_run(len, km, st, before + seq![k] + after) == single_run(len, km, st, before + after),
    decreases before.len(),
{
    let keys = before + seq![k] + after;
    if st.terminated {
    } else if before.len() == 0 {
        assert(before + after =~= after);
        assert(keys.drop_first() =~= after);
        assert(keys[0] == k);
    } else {
        let next = single_next(len, st, bound_to(km, before[0]));
        lemma_single_unbound_key(len, km, next, before.drop_first(), k, after);
        assert(keys.drop_first() =~= before.drop_first() + seq![k] + after);
        assert((before + after).drop_first() =~= before.drop_first() + after);
        assert(keys[0] == before[0]);
        assert((before + after)[0] == before[0]);
    }
}

/// A key with no binding, read at any point of a multi selection, changes
/// neither the cursor, nor the selection, nor whether the session is over:
/// it goes on as if the key had not been pressed.
pub proof fn lemma_multi_unbound_key(
    len: int,
    km: Map<Key, MultiSentakuAction>,
    m: MultiModel,
    before: Seq<Key>,
    k: Key,
    after: Seq<Key>,
)
    requires
        !km.contains_key(k),
    ensures
        multi_next(len, m, bound_to(km, k)) == m,
        multi_run(len, km, m, before + seq![k] + after) == multi_run(len, km, m, before + after),
    decreases before.len(),
{
    let keys = before + seq![k] + after;
    if m.terminated {
    } else if before.len() == 0 {
        assert(before + after =~= after);
        assert(keys.drop_first() =~= after);
        assert(keys[0] == k);
    } else {
        let next = multi_next(len, m, bound_to(km, before[0]));
        lemma_multi_unbound_key(len, km, next, before.drop_first(), k, after);
        assert(keys.drop_first() =~= before.drop_first() + seq![k] + after);
        assert((before + after).drop_first() =~= before.drop_first() + after);
        assert(keys[0] == before[0]);
        assert((before + after)[0] == before[0]);
    }
}

/// A custom action leaves the state of either kind of session as it was:
/// running its callback is its only effect.
pub proof fn lemma_custom_action_keeps_state(len: int, st: SingleState, m: MultiModel, h: usize)
    ensures
        single_next(len, st, Some(SentakuAction::Action(h))) == st,
        multi_next(len, m, Some(MultiSentakuAction::Action(h))) == m,
{
}

} // verus!
