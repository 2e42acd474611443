use vstd::prelude::*;

use crate::actions::{action_step, command_undoable, undo_offered, ActionStep, BlockCommand};
use crate::dates::{date_key_text, days_in_month, next_day, shift_days, upcoming_keys, CivilDate};
use crate::text::{
    ascii_words, command_words, decimal, is_ascii_white_space, lex, is_white_space, signed_zero_padded, trim_end,
    trim_start, trimmed, zero_padded,
};
use crate::toast::{drain_step, drained, fresh_toasts, undo_of, GuiAction, Toast, TOAST_LIFETIME_SECS};
use crate::model::{BlockCardModel, Status};
use crate::view::{
    card_hover_action, hover_buttons_shown, last_marked,
    command_after_escape, is_first_match, position_of, selection_after_escape, selection_after_keys,
    KeyInput,
};

verus! {

/// Positions listed in `idxs`.
pub open spec fn listed(idxs: Seq<usize>) -> Set<int> {
    Set::new(|i: int| exists|k: int| 0 <= k < idxs.len() && idxs[k] as int == i)
}

/// Positions strictly increase along `idxs`.
pub open spec fn strictly_increasing(idxs: Seq<usize>) -> bool {
    forall|a: int, b: int| 0 <= a < b < idxs.len() ==> idxs[a] < idxs[b]
}

/// The toasts of `ts` whose positions are not in `gone`, in order.
pub open spec fn kept_toasts<P>(ts: Seq<Toast<P>>, gone: Set<int>) -> Seq<Toast<P>>
    decreases ts.len(),
{
    if ts.len() == 0 {
        seq![]
    } else {
        let rest = kept_toasts(ts.drop_last(), gone);
        if gone.contains(ts.len() - 1) {
            rest
        } else {
            rest.push(ts.last())
        }
    }
}

/// The undo actions of the toasts at `idxs`, from the last position listed to the first.
pub open spec fn undo_at<P>(ts: Seq<Toast<P>>, idxs: Seq<usize>) -> Seq<GuiAction<P>>
    decreases idxs.len(),
{
    if idxs.len() == 0 {
        seq![]
    } else {
        undo_of(ts[idxs.last() as int]) + undo_at(ts, idxs.drop_last())
    }
}

proof fn lemma_kept_agree<P>(ts: Seq<Toast<P>>, a: Set<int>, b: Set<int>)
    requires
        forall|i: int| 0 <= i < ts.len() ==> (a.contains(i) <==> b.contains(i)),
    ensures
        kept_toasts(ts, a) == kept_toasts(ts, b),
    decreases ts.len(),
{
    if ts.len() > 0 {
        lemma_kept_agree(ts.drop_last(), a, b);
    }
}

proof fn lemma_kept_remove<P>(ts: Seq<Toast<P>>, gone: Set<int>, m: int)
    requires
        0 <= m < ts.len(),
        forall|i: int| gone.contains(i) ==> i < m,
    ensures
        kept_toasts(ts.remove(m), gone) == kept_toasts(ts, gone.insert(m)),
    decreases ts.len(),
{
    let n = ts.len();
    if m == n - 1 {
        assert(ts.remove(m) =~= ts.drop_last());
        lemma_kept_agree(ts.drop_last(), gone, gone.insert(m));
    } else {
        let r = ts.remove(m);
        assert(r.drop_last() =~= ts.drop_last().remove(m));
        assert(r.last() == ts.last());
        lemma_kept_remove(ts.drop_last(), gone, m);
        assert(!gone.contains(r.len() - 1));
        assert(!gone.insert(m).contains(n - 1));
    }
}

proof fn lemma_undo_at_remove<P>(ts: Seq<Toast<P>>, idxs: Seq<usize>, m: int)
    requires
        0 <= m < ts.len(),
        forall|k: int| 0 <= k < idxs.len() ==> idxs[k] < m,
    ensures
        undo_at(ts.remove(m), idxs) == undo_at(ts, idxs),
    decreases idxs.len(),
{
    if idxs.len() > 0 {
        lemma_undo_at_remove(ts, idxs.drop_last(), m);
        assert(ts.remove(m)[idxs.last() as int] == ts[idxs.last() as int]);
    }
}

/// Taking the undo actions of dismissed toasts, when the positions come in
/// increasing order and name toasts on screen (as the frame lists them):
/// exactly the toasts at those positions leave, the others stay in order,
/// and the undo actions handed out are those of the dismissed toasts, from
/// the last dismissed to the first.
pub proof fn law_dismissed_toasts_leave<P>(ts: Seq<Toast<P>>, idxs: Seq<usize>)
    requires
        strictly_increasing(idxs),
        forall|k: int| 0 <= k < idxs.len() ==> #[trigger] idxs[k] < ts.len(),
    ensures
        drained(ts, idxs).0 == kept_toasts(ts, listed(idxs)),
        drained(ts, idxs).1 == undo_at(ts, idxs),
    decreases idxs.len(),
{
    if idxs.len() == 0 {
        lemma_kept_agree(ts, listed(idxs), Set::empty());
        assert(kept_toasts(ts, Set::<int>::empty()) == ts) by {
            lemma_kept_none(ts);
        }
    } else {
        let m = idxs.last();
        let rest = idxs.drop_last();
        let ts2 = ts.remove(m as int);
        assert forall|k: int| 0 <= k < rest.len() implies #[trigger] rest[k] < m by {
            assert(idxs[k] < idxs[idxs.len() - 1]);
        }
        assert forall|k: int| 0 <= k < rest.len() implies #[trigger] rest[k] < ts2.len() by {
            assert(rest[k] < m);
        }
        law_dismissed_toasts_leave(ts2, rest);
        assert(drain_step(ts, m) == (ts2, undo_of(ts[m as int])));
        lemma_kept_remove(ts, listed(rest), m as int);
        assert(listed(rest).insert(m as int) =~= listed(idxs)) by {
            assert forall|i: int| listed(idxs).contains(i) implies #[trigger] listed(
                rest,
            ).insert(m as int).contains(i) by {
                let k = choose|k: int| 0 <= k < idxs.len() && idxs[k] as int == i;
                if k < idxs.len() - 1 {
                    assert(rest[k] as int == i);
                }
            }
            assert forall|i: int| #[trigger] listed(rest).insert(m as int).contains(i) implies listed(
                idxs,
            ).contains(i) by {
                if i == m as int {
                    assert(idxs[idxs.len() - 1] as int == i);
                } else {
                    let k = choose|k: int| 0 <= k < rest.len() && rest[k] as int == i;
                    assert(idxs[k] as int == i);
                }
            }
        }
        lemma_undo_at_remove(ts, rest, m as int);
    }
}

proof fn lemma_kept_none<P>(ts: Seq<Toast<P>>)
    ensures
        kept_toasts(ts, Set::empty()) == ts,
    decreases ts.len(),
{
    if ts.len() > 0 {
        lemma_kept_none(ts.drop_last());
        assert(ts.drop_last().push(ts.last()) =~= ts);
    }
}

/// When every dismissed position holds a toast with an undo action (only
/// those show an "Undo" button), one undo action comes out per dismissed
/// toast, and the toasts left and the actions handed out add up to the toasts
/// shown.
pub proof fn law_each_undo_click_yields_one_action<P>(ts: Seq<Toast<P>>, idxs: Seq<usize>)
    requires
        strictly_increasing(idxs),
        forall|k: int| 0 <= k < idxs.len() ==> #[trigger] idxs[k] < ts.len(),
        forall|k: int| 0 <= k < idxs.len() ==> (#[trigger] ts[idxs[k] as int]).undo_action is Some,
    ensures
        drained(ts, idxs).1.len() == idxs.len(),
        drained(ts, idxs).0.len() + drained(ts, idxs).1.len() == ts.len(),
    decreases idxs.len(),
{
    if idxs.len() > 0 {
        let m = idxs.last();
        let rest = idxs.drop_last();
        let ts2 = ts.remove(m as int);
        assert forall|k: int| 0 <= k < rest.len() implies #[trigger] rest[k] < m by {
            assert(idxs[k] < idxs[idxs.len() - 1]);
        }
        assert forall|k: int| 0 <= k < rest.len() implies #[trigger] rest[k] < ts2.len() by {
            assert(rest[k] < m);
        }
        assert forall|k: int| 0 <= k < rest.len() implies (#[trigger] ts2[rest[k] as int]).undo_action is Some by {
            assert(rest[k] < m);
            assert(ts2[rest[k] as int] == ts[rest[k] as int]);
            assert(ts[idxs[k] as int].undo_action is Some);
        }
        law_each_undo_click_yields_one_action(ts2, rest);
        assert(ts[idxs[idxs.len() - 1] as int].undo_action is Some);
    }
}

/// The positions of the toasts whose age has reached the lifetime.
pub open spec fn aged_out(ages: Seq<u64>) -> Set<int> {
    Set::new(|i: int| 0 <= i < ages.len() && ages[i] >= TOAST_LIFETIME_SECS)
}

/// Expiry removes exactly the toasts whose age has reached the lifetime and
/// keeps the others in order: every toast kept is younger than the lifetime.
pub proof fn law_expiry_removes_exactly_the_aged<P>(ts: Seq<Toast<P>>, ages: Seq<u64>)
    requires
        ages.len() == ts.len(),
    ensures
        fresh_toasts(ts, ages) == kept_toasts(ts, aged_out(ages)),
{
    lemma_fresh_is_kept(ts, ages);
}

proof fn lemma_fresh_is_kept<P>(ts: Seq<Toast<P>>, ages: Seq<u64>)
    requires
        ages.len() >= ts.len(),
    ensures
        fresh_toasts(ts, ages) == kept_toasts(ts, aged_out(ages)),
    decreases ts.len(),
{
    if ts.len() > 0 {
        lemma_fresh_is_kept(ts.drop_last(), ages);
    }
}

/// One frame of toasts: after expiry and the Undo clicks (positions into the
/// toasts left, in increasing order), the toasts still shown are exactly
/// those neither aged out nor clicked away, in their order.
pub proof fn law_toasts_leave_only_on_expiry_or_undo<P>(
    ts: Seq<Toast<P>>,
    ages: Seq<u64>,
    idxs: Seq<usize>,
)
    requires
        ages.len() == ts.len(),
        strictly_increasing(idxs),
        forall|k: int| 0 <= k < idxs.len() ==> #[trigger] idxs[k] < fresh_toasts(ts, ages).len(),
    ensures
        drained(fresh_toasts(ts, ages), idxs).0 == kept_toasts(
            kept_toasts(ts, aged_out(ages)),
            listed(idxs),
        ),
{
    law_expiry_removes_exactly_the_aged(ts, ages);
    law_dismissed_toasts_leave(fresh_toasts(ts, ages), idxs);
}

/// Expiry never adds toasts and keeps their order: the toasts kept are as
/// many as, or fewer than, those shown; all stay when all are young, and
/// none stays when all have reached the lifetime.
pub proof fn law_expiry_keeps_young_toasts<P>(ts: Seq<Toast<P>>, ages: Seq<u64>)
    requires
        ages.len() == ts.len(),
    ensures
        fresh_toasts(ts, ages).len() <= ts.len(),
        (forall|i: int| 0 <= i < ts.len() ==> #[trigger] ages[i] < TOAST_LIFETIME_SECS)
            ==> fresh_toasts(ts, ages) == ts,
        (forall|i: int| 0 <= i < ts.len() ==> #[trigger] ages[i] >= TOAST_LIFETIME_SECS)
            ==> fresh_toasts(ts, ages).len() == 0,
    decreases ts.len(),
{
    if ts.len() > 0 {
        lemma_fresh_prefix(ts, ages);
        let n = ts.len();
        assert(fresh_toasts(ts, ages).len() <= ts.len());
        if forall|i: int| 0 <= i < ts.len() ==> #[trigger] ages[i] < TOAST_LIFETIME_SECS {
            lemma_fresh_all_young(ts, ages);
        }
        if forall|i: int| 0 <= i < ts.len() ==> #[trigger] ages[i] >= TOAST_LIFETIME_SECS {
            lemma_fresh_all_old(ts, ages);
        }
    }
}

proof fn lemma_fresh_prefix<P>(ts: Seq<Toast<P>>, ages: Seq<u64>)
    requires
        ages.len() >= ts.len(),
    ensures
        fresh_toasts(ts, ages).len() <= ts.len(),
    decreases ts.len(),
{
    if ts.len() > 0 {
        lemma_fresh_prefix(ts.drop_last(), ages);
    }
}

proof fn lemma_fresh_all_young<P>(ts: Seq<Toast<P>>, ages: Seq<u64>)
    requires
        ages.len() >= ts.len(),
        forall|i: int| 0 <= i < ts.len() ==> #[trigger] ages[i] < TOAST_LIFETIME_SECS,
    ensures
        fresh_toasts(ts, ages) == ts,
    decreases ts.len(),
{
    if ts.len() > 0 {
        lemma_fresh_all_young(ts.drop_last(), ages);
        assert(ages[ts.len() - 1] < TOAST_LIFETIME_SECS);
        assert(ts.drop_last().push(ts.last()) =~= ts);
    }
}

proof fn lemma_fresh_all_old<P>(ts: Seq<Toast<P>>, ages: Seq<u64>)
    requires
        ages.len() >= ts.len(),
        forall|i: int| 0 <= i < ts.len() ==> #[trigger] ages[i] >= TOAST_LIFETIME_SECS,
    ensures
        fresh_toasts(ts, ages).len() == 0,
    decreases ts.len(),
{
    if ts.len() > 0 {
        lemma_fresh_all_old(ts.drop_last(), ages);
        assert(ages[ts.len() - 1] >= TOAST_LIFETIME_SECS);
    }
}

// ---------------------------------------------------------------------------
// Undo
// ---------------------------------------------------------------------------

/// What a successful done or skip offers to undo, once run, writes back the
/// plan as it was before the command; an approval, or a command without a
/// plan, offers no undo.
pub proof fn law_undo_restores_snapshot<P>(cmd: BlockCommand, snapshot: P)
    ensures
        command_undoable(cmd) ==> (undo_offered(cmd, Some(snapshot)) matches Some(a) && action_step(
            a,
        ) == ActionStep::Restore(Box::new(snapshot))),
        cmd == BlockCommand::Approve ==> undo_offered(cmd, Some(snapshot)) is None,
        undo_offered::<P>(cmd, None) is None,
{
}

// ---------------------------------------------------------------------------
// Keyboard
// ---------------------------------------------------------------------------

/// `j` alone.
pub open spec fn key_next() -> KeyInput {
    KeyInput { focus_shortcut: false, escape: false, next: true, previous: false }
}

/// `k` alone.
pub open spec fn key_previous() -> KeyInput {
    KeyInput { focus_shortcut: false, escape: false, next: false, previous: true }
}

/// Escape alone.
pub open spec fn key_escape() -> KeyInput {
    KeyInput { focus_shortcut: false, escape: true, next: false, previous: false }
}

/// No two blocks of `ids` share an id.
pub open spec fn distinct_ids(ids: Seq<String>) -> bool {
    forall|a: int, b: int| 0 <= a < ids.len() && 0 <= b < ids.len() && a != b ==> ids[a]@ != ids[b]@
}

proof fn lemma_first_match_exists(ids: Seq<String>, id: Seq<char>, i: int)
    requires
        0 <= i < ids.len(),
        ids[i]@ == id,
    ensures
        exists|f: int| is_first_match(ids, id, f),
    decreases i,
{
    if exists|j: int| 0 <= j < i && #[trigger] ids[j]@ == id {
        let j = choose|j: int| 0 <= j < i && #[trigger] ids[j]@ == id;
        lemma_first_match_exists(ids, id, j);
    } else {
        assert(is_first_match(ids, id, i));
    }
}

proof fn lemma_position_in_range(ids: Seq<String>, id: Seq<char>)
    ensures
        position_of(ids, id) matches Some(i) ==> is_first_match(ids, id, i),
{
    if exists|i: int| 0 <= i < ids.len() && #[trigger] ids[i]@ == id {
        let i = choose|i: int| 0 <= i < ids.len() && #[trigger] ids[i]@ == id;
        lemma_first_match_exists(ids, id, i);
    }
}

proof fn lemma_position_of_distinct(ids: Seq<String>, i: int)
    requires
        distinct_ids(ids),
        0 <= i < ids.len(),
    ensures
        position_of(ids, ids[i]@) == Some(i),
{
    let id = ids[i]@;
    assert(is_first_match(ids, id, i));
    lemma_position_in_range(ids, id);
    let c = choose|c: int| is_first_match(ids, id, c);
    assert(is_first_match(ids, id, c));
}

/// On the Today tab of a plan with blocks, `j` or `k` (without the focus
/// shortcut) always leaves one of the plan's blocks selected.
pub proof fn law_navigation_selects_a_plan_block(
    selected: Option<String>,
    command: Seq<char>,
    input: KeyInput,
    ids: Seq<String>,
)
    requires
        ids.len() > 0,
        input.next || input.previous,
        !input.focus_shortcut,
    ensures
        selection_after_keys(selected, command, input, true, Some(ids)) matches Some(s)
            && ids.contains(s),
{
    let sel = selection_after_escape(selected, command, input);
    match sel {
        Some(s) => lemma_position_in_range(ids, s@),
        None => {},
    }
    let r = selection_after_keys(selected, command, input, true, Some(ids));
    let current = match sel {
        Some(s) => position_of(ids, s@),
        None => None,
    };
    if input.previous {
        let p = crate::view::previous_position(current);
        assert(0 <= p < ids.len());
        assert(r == Some(ids[p]));
    } else {
        let n = crate::view::next_position(current, ids.len() as int);
        assert(0 <= n < ids.len());
        assert(r == Some(ids[n]));
    }
}

/// With distinct block ids, `k` after `j` returns to the block that was
/// selected, when that block was not the last.
pub proof fn law_previous_undoes_next(ids: Seq<String>, i: int, command: Seq<char>)
    requires
        distinct_ids(ids),
        0 <= i < ids.len() - 1,
    ensures
        selection_after_keys(Some(ids[i]), command, key_next(), true, Some(ids)) == Some(ids[i + 1]),
        selection_after_keys(Some(ids[i + 1]), command, key_previous(), true, Some(ids)) == Some(
            ids[i],
        ),
{
    lemma_position_of_distinct(ids, i);
    lemma_position_of_distinct(ids, i + 1);
}

/// With distinct block ids, `j` on the last block and `k` on the first keep
/// the selection where it is.
pub proof fn law_selection_stops_at_the_ends(ids: Seq<String>, command: Seq<char>)
    requires
        distinct_ids(ids),
        ids.len() > 0,
    ensures
        selection_after_keys(Some(ids.last()), command, key_next(), true, Some(ids)) == Some(
            ids.last(),
        ),
        selection_after_keys(Some(ids[0]), command, key_previous(), true, Some(ids)) == Some(ids[0]),
{
    lemma_position_of_distinct(ids, ids.len() - 1);
    lemma_position_of_distinct(ids, 0);
}

/// Escape clears the command text first and keeps the selection; a second
/// Escape then clears the selection. Twice always leaves both empty.
pub proof fn law_escape_clears_text_then_selection(selected: Option<String>, command: Seq<char>)
    ensures
        command.len() > 0 ==> selection_after_escape(selected, command, key_escape()) == selected,
        command_after_escape(command, key_escape()).len() == 0,
        command_after_escape(command_after_escape(command, key_escape()), key_escape()).len() == 0,
        selection_after_escape(
            selection_after_escape(selected, command, key_escape()),
            command_after_escape(command, key_escape()),
            key_escape(),
        ) is None,
{
}

/// A frame without `j`, `k` or Escape leaves the selection where it was, on
/// any tab and whatever the plan.
pub proof fn law_no_keys_keep_selection(
    selected: Option<String>,
    command: Seq<char>,
    input: KeyInput,
    on_today: bool,
    ids: Option<Seq<String>>,
)
    requires
        !input.next,
        !input.previous,
        !input.escape,
    ensures
        selection_after_keys(selected, command, input, on_today, ids) == selected,
{
}

/// On the Today timeline the card clicked last becomes the selection (and
/// the card hovered last the hover), whichever position it has; with no
/// card marked there is none.
pub proof fn law_last_mark_wins(ids: Seq<String>, marks: Seq<bool>)
    requires
        marks.len() >= ids.len(),
    ensures
        forall|i: int|
            #![trigger marks[i]]
            0 <= i < ids.len() && marks[i] && (forall|j: int| i < j < ids.len() ==> !#[trigger] marks[j])
                ==> last_marked(ids, marks) == Some(ids[i]),
        (forall|j: int| 0 <= j < ids.len() ==> !#[trigger] marks[j]) ==> last_marked(ids, marks) is None,
    decreases ids.len(),
{
    if ids.len() > 0 {
        let n = ids.len() - 1;
        law_last_mark_wins(ids.drop_last(), marks);
        assert forall|i: int|
            #![trigger marks[i]]
            0 <= i < ids.len() && marks[i] && (forall|j: int| i < j < ids.len() ==> !#[trigger] marks[j])
                implies last_marked(ids, marks) == Some(ids[i]) by {
            if i < n {
                assert(!marks[n]);
                assert(ids.drop_last()[i] == ids[i]);
            }
        }
        if forall|j: int| 0 <= j < ids.len() ==> !#[trigger] marks[j] {
            assert(!marks[n]);
        }
    }
}

/// A done or skipped block shows no Done/Skip buttons, so its card asks for
/// no action, whatever is hovered or clicked.
pub proof fn law_finished_blocks_offer_no_buttons<P>(
    card: BlockCardModel,
    is_hovered: bool,
    skip_clicked: bool,
    done_clicked: bool,
)
    requires
        card.status == Status::Done || card.status == Status::Skipped,
    ensures
        !hover_buttons_shown(card, is_hovered),
        card_hover_action::<P>(card, is_hovered, skip_clicked, done_clicked) is None,
{
}

/// A hovered card of a block still open shows its buttons; Done wins over
/// Skip, and without a click there is no action.
pub proof fn law_open_blocks_offer_done_and_skip<P>(
    card: BlockCardModel,
    skip_clicked: bool,
    done_clicked: bool,
)
    requires
        card.status != Status::Done && card.status != Status::Skipped,
    ensures
        hover_buttons_shown(card, true),
        done_clicked ==> card_hover_action::<P>(card, true, skip_clicked, done_clicked) == Some(
            GuiAction::<P>::Done(card.id),
        ),
        !done_clicked && skip_clicked ==> card_hover_action::<P>(
            card,
            true,
            skip_clicked,
            done_clicked,
        ) == Some(GuiAction::<P>::Skip(card.id)),
        !done_clicked && !skip_clicked ==> card_hover_action::<P>(
            card,
            true,
            skip_clicked,
            done_clicked,
        ) is None,
{
}

// ---------------------------------------------------------------------------
// Text
// ---------------------------------------------------------------------------

proof fn lemma_trim_start_shape(s: Seq<char>)
    ensures
        trim_start(s).len() > 0 ==> !is_white_space(trim_start(s)[0]),
        trim_start(trim_start(s)) == trim_start(s),
        trim_start(s).len() <= s.len(),
        trim_start(s) == s.subrange(s.len() - trim_start(s).len(), s.len() as int),
    decreases s.len(),
{
    if s.len() > 0 && is_white_space(s[0]) {
        lemma_trim_start_shape(s.drop_first());
        assert(s.drop_first().subrange(
            s.drop_first().len() - trim_start(s).len(),
            s.drop_first().len() as int,
        ) =~= s.subrange(s.len() - trim_start(s).len(), s.len() as int));
    } else {
        assert(s.subrange(0, s.len() as int) =~= s);
    }
}

proof fn lemma_trim_end_shape(s: Seq<char>)
    ensures
        trim_end(s).len() > 0 ==> !is_white_space(trim_end(s).last()),
        trim_end(trim_end(s)) == trim_end(s),
        trim_end(s).len() <= s.len(),
        trim_end(s) == s.subrange(0, trim_end(s).len() as int),
    decreases s.len(),
{
    if s.len() > 0 && is_white_space(s.last()) {
        lemma_trim_end_shape(s.drop_last());
        assert(s.drop_last().subrange(0, trim_end(s).len() as int) =~= s.subrange(
            0,
            trim_end(s).len() as int,
        ));
    } else {
        assert(s.subrange(0, s.len() as int) =~= s);
    }
}

proof fn lemma_trim_end_keeps_start(s: Seq<char>)
    requires
        s.len() > 0 ==> !is_white_space(s[0]),
    ensures
        trim_end(s).len() > 0 ==> !is_white_space(trim_end(s)[0]),
        trim_start(trim_end(s)) == trim_end(s),
{
    lemma_trim_end_shape(s);
    if trim_end(s).len() > 0 {
        assert(trim_end(s)[0] == s[0]);
    }
}

/// Text submitted from the command bar has no white space at either end, and
/// trimming it again changes nothing.
pub proof fn law_trim_is_idempotent(s: Seq<char>)
    ensures
        trimmed(trimmed(s)) == trimmed(s),
        trimmed(s).len() > 0 ==> !is_white_space(trimmed(s)[0]) && !is_white_space(
            trimmed(s).last(),
        ),
{
    lemma_trim_start_shape(s);
    let a = trim_start(s);
    lemma_trim_end_keeps_start(a);
    lemma_trim_end_shape(a);
    let t = trim_end(a);
    lemma_trim_end_shape(t);
}

proof fn lemma_lex_unquoted(s: Seq<char>)
    requires
        forall|i: int| 0 <= i < s.len() ==> s[i] != '"',
    ensures
        !lex(s).3,
        lex(s).2 == (s.len() > 0 && !is_ascii_white_space(s.last())),
        lex(s).2 ==> lex(s).1.len() > 0,
        !lex(s).2 ==> lex(s).1.len() == 0,
        command_words(s) == ascii_words(s),
    decreases s.len(),
{
    if s.len() > 0 {
        let p = s.drop_last();
        lemma_lex_unquoted(p);
        let c = s.last();
        let st = lex(p);
        if !is_ascii_white_space(c) {
            if s.len() >= 2 {
                assert(p.last() == s[s.len() - 2]);
            }
            if st.2 {
                let w = ascii_words(p);
                assert(w == st.0.push(st.1));
                assert(w.update(w.len() - 1, w.last().push(c)) =~= st.0.push(st.1.push(c)));
            } else {
                assert(st.1.push(c) =~= seq![c]);
            }
        }
    }
}

/// A command line without double quotes splits on ASCII white space exactly
/// as `str::split_ascii_whitespace` does.
pub proof fn law_unquoted_commands_split_on_white_space(s: Seq<char>)
    requires
        forall|i: int| 0 <= i < s.len() ==> s[i] != '"',
    ensures
        command_words(s) == ascii_words(s),
{
    lemma_lex_unquoted(s);
}

// ---------------------------------------------------------------------------
// Dates
// ---------------------------------------------------------------------------

proof fn lemma_decimal_len(n: nat)
    ensures
        decimal(n).len() >= 1,
        n < 10 ==> decimal(n).len() == 1,
        n < 100 ==> decimal(n).len() <= 2,
        n < 1000 ==> decimal(n).len() <= 3,
        n < 10000 ==> decimal(n).len() <= 4,
    decreases n,
{
    if n >= 10 {
        lemma_decimal_len(n / 10);
    }
}

/// The key of a date of a non-negative year has the shape `YYYY-MM-DD`: ten
/// characters with the dashes at the fifth and eighth place.
pub proof fn law_date_key_shape(d: CivilDate)
    requires
        d.wf(),
        d.year >= 0,
    ensures
        date_key_text(d).len() == 10,
        date_key_text(d)[4] == '-',
        date_key_text(d)[7] == '-',
{
    reveal_strlit("-");
    lemma_decimal_len(d.year as nat);
    lemma_decimal_len(d.month as nat);
    lemma_decimal_len(d.day as nat);
    assert(signed_zero_padded(d.year as int, 4).len() == 4);
    assert(zero_padded(d.month as nat, 2).len() == 2);
    assert(zero_padded(d.day as nat, 2).len() == 2);
}

/// The Upcoming tab loads at most one key per day it looks ahead.
pub proof fn law_upcoming_at_most_one_key_per_day(today: CivilDate, n: nat)
    ensures
        upcoming_keys(today, n).len() <= n,
    decreases n,
{
    if n > 0 {
        law_upcoming_at_most_one_key_per_day(today, (n - 1) as nat);
    }
}

/// `a` comes before `b` in the calendar.
pub open spec fn date_before(a: CivilDate, b: CivilDate) -> bool {
    ||| a.year < b.year
    ||| a.year == b.year && a.month < b.month
    ||| a.year == b.year && a.month == b.month && a.day < b.day
}

proof fn lemma_next_day(d: CivilDate)
    requires
        d.wf(),
    ensures
        next_day(d) matches Some(e) ==> e.wf() && date_before(d, e),
{
    assert(days_in_month(d.year as int, d.month as int) >= 28);
    if !((d.day as int) < days_in_month(d.year as int, d.month as int)) && d.month < 12 {
        assert(days_in_month(d.year as int, d.month + 1) >= 28);
    }
}

proof fn lemma_shift_succ(d: CivilDate, n: int)
    requires
        n >= 0,
    ensures
        shift_days(d, n + 1) == (match shift_days(d, n) {
            Some(e) => next_day(e),
            None => None,
        }),
    decreases n,
{
    reveal_with_fuel(shift_days, 2);
    if n > 0 {
        match next_day(d) {
            Some(e) => lemma_shift_succ(e, n - 1),
            None => {},
        }
    }
}

proof fn lemma_shift_wf(d: CivilDate, n: int)
    requires
        d.wf(),
        n >= 0,
    ensures
        shift_days(d, n) matches Some(e) ==> e.wf(),
    decreases n,
{
    if n > 0 {
        lemma_next_day(d);
        match next_day(d) {
            Some(e) => lemma_shift_wf(e, n - 1),
            None => {},
        }
    }
}

/// Days ahead come later in the calendar: when the date `k` days after
/// `today` exists, so does the date `j` days after it for every `j < k`, and
/// it comes earlier. With `j = 0` this says every upcoming date is after
/// today; so the Upcoming tab's dates are after today and increasing.
pub proof fn law_days_ahead_are_later(today: CivilDate, j: int, k: int)
    requires
        today.wf(),
        0 <= j < k,
    ensures
        shift_days(today, k) matches Some(b) ==> (shift_days(today, j) matches Some(a)
            && date_before(a, b)),
    decreases k,
{
    lemma_shift_succ(today, k - 1);
    match shift_days(today, k - 1) {
        Some(c) => {
            lemma_shift_wf(today, k - 1);
            lemma_next_day(c);
            if j < k - 1 {
                law_days_ahead_are_later(today, j, k - 1);
            }
        },
        None => {},
    }
}

} // verus!
