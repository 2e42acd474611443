use vstd::prelude::*;

use std::time::Instant;

use crate::clock::{elapsed_secs, ElapsedSecs};

verus! {

/// `std::time::Instant`, a reading of the monotonic clock.
#[verifier::external_type_specification]
#[verifier::external_body]
pub struct ExInstant(Instant);

/// `Instant::now` reads the monotonic clock; nothing is claimed about the reading.
pub assume_specification[ Instant::now ]() -> Instant;

/// `Instant::elapsed` reads the clock again and returns the time since `t`
/// (zero if the clock reads earlier); nothing is claimed about the amount.
pub assume_specification[ Instant::elapsed ](t: &Instant) -> core::time::Duration;

/// `Duration::as_secs` returns the whole seconds of a duration; the duration
/// is opaque here, so nothing is claimed about the number.
pub assume_specification[ core::time::Duration::as_secs ](d: &core::time::Duration) -> u64;

/// How long a toast stays on screen, in whole seconds.
pub const TOAST_LIFETIME_SECS: u64 = 4;

/// Something the user asked for while the frame was drawn, run once drawing is done.
/// `P` is the plan snapshot that an undo restores.
pub enum GuiAction<P> {
    Approve(String),
    Done(String),
    Skip(String),
    Dismiss(String),
    /// Restore a previously saved plan snapshot (undo the last Done/Skip).
    RestorePlan(Box<P>),
}

/// A short notification at the bottom of the window, optionally carrying an
/// undo action.
pub struct Toast<P> {
    pub message: String,
    pub is_error: bool,
    pub created: Instant,
    pub undo_action: Option<GuiAction<P>>,
}

impl<P> Toast<P> {
    /// A success notification without undo, created at `created`.
    pub fn success_at(msg: String, created: Instant) -> (t: Toast<P>)
        ensures
            t.message == msg,
            !t.is_error,
            t.created == created,
            t.undo_action is None,
    {
        Toast { message: msg, is_error: false, created, undo_action: None }
    }

    /// A success notification whose "Undo" button hands back `undo`, created at `created`.
    pub fn undoable_at(msg: String, undo: GuiAction<P>, created: Instant) -> (t: Toast<P>)
        ensures
            t.message == msg,
            !t.is_error,
            t.created == created,
            t.undo_action == Some(undo),
    {
        Toast { message: msg, is_error: false, created, undo_action: Some(undo) }
    }

    /// An error notification without undo, created at `created`.
    pub fn error_at(msg: String, created: Instant) -> (t: Toast<P>)
        ensures
            t.message == msg,
            t.is_error,
            t.created == created,
            t.undo_action is None,
    {
        Toast { message: msg, is_error: true, created, undo_action: None }
    }

    /// A success notification without undo, created now.
    pub fn success(msg: String) -> (t: Toast<P>)
        ensures
            t.message == msg,
            !t.is_error,
            t.undo_action is None,
    {
        Toast::success_at(msg, Instant::now())
    }

    /// A success notification whose "Undo" button hands back `undo`, created now.
    pub fn undoable(msg: String, undo: GuiAction<P>) -> (t: Toast<P>)
        ensures
            t.message == msg,
            !t.is_error,
            t.undo_action == Some(undo),
    {
        Toast::undoable_at(msg, undo, Instant::now())
    }

    /// An error notification without undo, created now.
    pub fn error(msg: String) -> (t: Toast<P>)
        ensures
            t.message == msg,
            t.is_error,
            t.undo_action is None,
    {
        Toast::error_at(msg, Instant::now())
    }

    /// Whether the toast shows an "Undo" button: only when it carries an undo action.
    pub fn shows_undo(&self) -> (b: bool)
        ensures
            b == (self.undo_action is Some),
    {
        self.undo_action.is_some()
    }
}

/// The toasts of `ts` whose age, at the same position of `ages`, is still
/// under the lifetime, in their original order.
pub open spec fn fresh_toasts<P>(ts: Seq<Toast<P>>, ages: Seq<u64>) -> Seq<Toast<P>>
    decreases ts.len(),
{
    if ts.len() == 0 {
        seq![]
    } else {
        let rest = fresh_toasts(ts.drop_last(), ages);
        if ages[ts.len() - 1] < TOAST_LIFETIME_SECS {
            rest.push(ts.last())
        } else {
            rest
        }
    }
}

/// Keeps the toasts younger than the lifetime, given the age in seconds of each.
pub fn retain_fresh<P>(toasts: &mut Vec<Toast<P>>, ages: &Vec<u64>)
    requires
        ages@.len() == old(toasts)@.len(),
    ensures
        final(toasts)@ == fresh_toasts(old(toasts)@, ages@),
{
    let ghost start = toasts@;
    let mut pending: Vec<Toast<P>> = Vec::new();
    std::mem::swap(&mut pending, toasts);
    let n = pending.len();
    let mut i: usize = 0;
    while i < n
        invariant
            n == start.len(),
            ages@.len() == n,
            i <= n,
            pending@ == start.skip(i as int),
            toasts@ == fresh_toasts(start.take(i as int), ages@),
        decreases n - i,
    {
        assert(start.take(i + 1).drop_last() =~= start.take(i as int));
        let t = pending.remove(0);
        assert(t == start[i as int]);
        if ages[i] < TOAST_LIFETIME_SECS {
            toasts.push(t);
        }
        assert(pending@ =~= start.skip(i + 1));
        i = i + 1;
    }
    assert(start.take(n as int) =~= start);
}

/// The whole seconds of each reading.
pub open spec fn reading_secs(readings: Seq<ElapsedSecs>) -> Seq<u64> {
    readings.map_values(|r: ElapsedSecs| r.secs())
}

/// Drops the toasts that have been on screen for the lifetime or longer:
/// each toast is kept exactly when the clock reading of the seconds since it
/// was created is below the lifetime. The readings come from the clock, so
/// what is kept is stated for the readings taken, one per toast, each
/// measured from that toast's creation.
pub fn expire_toasts<P>(toasts: &mut Vec<Toast<P>>)
    ensures
        exists|ages: Seq<u64>|
            ages.len() == old(toasts)@.len() && #[trigger] fresh_toasts(old(toasts)@, ages)
                == final(toasts)@,
        exists|readings: Seq<ElapsedSecs>|
            {
                &&& readings.len() == old(toasts)@.len()
                &&& forall|k: int|
                    0 <= k < readings.len() ==> (#[trigger] readings[k]).since() == old(
                        toasts,
                    )@[k].created
                &&& fresh_toasts(old(toasts)@, reading_secs(readings)) == final(toasts)@
            },
{
    let mut ages: Vec<u64> = Vec::new();
    let ghost mut readings: Seq<ElapsedSecs> = Seq::empty();
    let mut i: usize = 0;
    while i < toasts.len()
        invariant
            i <= toasts@.len(),
            ages@.len() == i,
            readings.len() == i,
            ages@ == reading_secs(readings),
            forall|k: int| 0 <= k < i ==> (#[trigger] readings[k]).since() == toasts@[k].created,
        decreases toasts@.len() - i,
    {
        let reading = elapsed_secs(&toasts[i].created);
        let age = reading.seconds();
        ages.push(age);
        proof {
            readings = readings.push(reading);
            assert(ages@ =~= reading_secs(readings));
        }
        i = i + 1;
    }
    let ghost before = toasts@;
    retain_fresh(toasts, &ages);
    assert(fresh_toasts(before, ages@) == toasts@);
    assert(fresh_toasts(before, reading_secs(readings)) == toasts@);
}

/// The undo actions of a toast, as a sequence of zero or one.
pub open spec fn undo_of<P>(t: Toast<P>) -> Seq<GuiAction<P>> {
    match t.undo_action {
        Some(a) => seq![a],
        None => seq![],
    }
}

/// Removing the toast at `idx`, if there is one, and taking its undo action.
pub open spec fn drain_step<P>(ts: Seq<Toast<P>>, idx: usize) -> (Seq<Toast<P>>, Seq<GuiAction<P>>) {
    if idx < ts.len() {
        (ts.remove(idx as int), undo_of(ts[idx as int]))
    } else {
        (ts, seq![])
    }
}

/// The toasts left and the undo actions taken when the positions `idxs` are
/// processed from the last to the first.
pub open spec fn drained<P>(ts: Seq<Toast<P>>, idxs: Seq<usize>) -> (Seq<Toast<P>>, Seq<GuiAction<P>>)
    decreases idxs.len(),
{
    if idxs.len() == 0 {
        (ts, seq![])
    } else {
        let first = drain_step(ts, idxs.last());
        let rest = drained(first.0, idxs.drop_last());
        (rest.0, first.1 + rest.1)
    }
}

/// Removes the toasts whose "Undo" was clicked, at the positions `dismissed`,
/// and returns their undo actions. The positions are taken from the last to
/// the first so that earlier positions still name the same toasts.
pub fn take_undo_actions<P>(toasts: &mut Vec<Toast<P>>, dismissed: &Vec<usize>) -> (undo: Vec<
    GuiAction<P>,
>)
    ensures
        final(toasts)@ == drained(old(toasts)@, dismissed@).0,
        undo@ == drained(old(toasts)@, dismissed@).1,
{
    let ghost start = toasts@;
    let mut undo: Vec<GuiAction<P>> = Vec::new();
    let mut j: usize = dismissed.len();
    assert(dismissed@.take(j as int) =~= dismissed@);
    assert(undo@ + drained(start, dismissed@).1 =~= drained(start, dismissed@).1);
    while j > 0
        invariant
            j <= dismissed@.len(),
            drained(start, dismissed@).0 == drained(toasts@, dismissed@.take(j as int)).0,
            drained(start, dismissed@).1 == undo@ + drained(toasts@, dismissed@.take(j as int)).1,
        decreases j,
    {
        let ghost cur = toasts@;
        let ghost acts = undo@;
        let idx = dismissed[j - 1];
        assert(dismissed@.take(j as int).drop_last() =~= dismissed@.take(j - 1));
        assert(dismissed@.take(j as int).last() == idx);
        let ghost step = drain_step(cur, idx);
        let ghost rest = drained(step.0, dismissed@.take(j - 1));
        if idx < toasts.len() {
            let t = toasts.remove(idx);
            match t.undo_action {
                Some(a) => {
                    undo.push(a);
                },
                None => {},
            }
            assert(undo@ =~= acts + step.1);
        } else {
            assert(undo@ =~= acts + step.1);
        }
        assert(acts + (step.1 + rest.1) =~= (acts + step.1) + rest.1);
        j = j - 1;
    }
    assert(dismissed@.take(0) =~= Seq::<usize>::empty());
    assert(undo@ + Seq::<GuiAction<P>>::empty() =~= undo@);
    undo
}

} // verus!
