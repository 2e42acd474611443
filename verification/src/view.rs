use vstd::prelude::*;

use crate::model::{BlockCardModel, NavTab, Status};
use crate::palette::is_finished;
use crate::toast::GuiAction;
use crate::text::{trim, trimmed};

verus! {

/// The keys of one frame that the view reacts to.
#[derive(Clone, Copy, Debug, PartialEq, Eq, Structural)]
pub struct KeyInput {
    /// ⌘K / Ctrl-K with exactly the command modifier held: focus the command bar.
    pub focus_shortcut: bool,
    pub escape: bool,
    /// `j` was pressed without the command modifier.
    pub next: bool,
    /// `k` was pressed without the command modifier.
    pub previous: bool,
}

/// The interactive state of the view that lives between frames.
pub struct ViewState {
    pub active_tab: NavTab,
    pub selected_block_id: Option<String>,
    pub hovered_block_id: Option<String>,
    pub command_input: String,
    pub dark_mode: bool,
    pub nav_collapsed: bool,
}

/// `i` is the first position of `ids` that holds `id`.
pub open spec fn is_first_match(ids: Seq<String>, id: Seq<char>, i: int) -> bool {
    &&& 0 <= i < ids.len()
    &&& ids[i]@ == id
    &&& forall|j: int| 0 <= j < i ==> #[trigger] ids[j]@ != id
}

/// The first position of `ids` that holds `id`, if any.
pub open spec fn position_of(ids: Seq<String>, id: Seq<char>) -> Option<int> {
    if exists|i: int| 0 <= i < ids.len() && #[trigger] ids[i]@ == id {
        Some(choose|i: int| is_first_match(ids, id, i))
    } else {
        None
    }
}

/// The selection after Escape: it is cleared when there is no command text to clear.
pub open spec fn selection_after_escape(
    selected: Option<String>,
    command: Seq<char>,
    input: KeyInput,
) -> Option<String> {
    if input.escape && command.len() == 0 {
        None
    } else {
        selected
    }
}

/// The command text after Escape: cleared when there is some.
pub open spec fn command_after_escape(command: Seq<char>, input: KeyInput) -> Seq<char> {
    if input.escape && command.len() > 0 {
        seq![]
    } else {
        command
    }
}

/// The position `j` moves to: the one after the current, at most the last,
/// or the first when nothing (known) is selected.
pub open spec fn next_position(current: Option<int>, len: int) -> int {
    match current {
        Some(i) => if i + 1 < len - 1 { i + 1 } else { len - 1 },
        None => 0,
    }
}

/// The position `k` moves to: the one before the current, at least the
/// first, or the first when nothing (known) is selected.
pub open spec fn previous_position(current: Option<int>) -> int {
    match current {
        Some(i) => if i > 0 { i - 1 } else { 0 },
        None => 0,
    }
}

/// The selection after one frame's keys. On the Today tab with a plan that
/// has blocks, `j` selects the next block and `k` the previous, both counted
/// from the block selected after Escape; `k` wins when both are pressed. The
/// focus shortcut only focuses the command bar and moves no selection.
pub open spec fn selection_after_keys(
    selected: Option<String>,
    command: Seq<char>,
    input: KeyInput,
    on_today: bool,
    ids: Option<Seq<String>>,
) -> Option<String> {
    let sel = selection_after_escape(selected, command, input);
    match ids {
        Some(ids) => if on_today && ids.len() > 0 && !input.focus_shortcut {
            let current = match sel {
                Some(s) => position_of(ids, s@),
                None => None,
            };
            if input.previous {
                Some(ids[previous_position(current)])
            } else if input.next {
                Some(ids[next_position(current, ids.len() as int)])
            } else {
                sel
            }
        } else {
            sel
        },
        None => sel,
    }
}

/// The first position of `ids` holding `id`.
fn find_position(ids: &Vec<String>, id: &String) -> (r: Option<usize>)
    ensures
        match r {
            Some(i) => is_first_match(ids@, id@, i as int),
            None => forall|j: int| 0 <= j < ids@.len() ==> #[trigger] ids@[j]@ != id@,
        },
        r matches Some(i) ==> position_of(ids@, id@) == Some(i as int),
        r is None ==> position_of(ids@, id@) is None,
{
    let mut i: usize = 0;
    while i < ids.len()
        invariant
            i <= ids@.len(),
            forall|j: int| 0 <= j < i ==> #[trigger] ids@[j]@ != id@,
        decreases ids@.len() - i,
    {
        if ids[i] == *id {
            proof {
                assert(is_first_match(ids@, id@, i as int));
                let c = choose|c: int| is_first_match(ids@, id@, c);
                assert(is_first_match(ids@, id@, c));
                if c < i {
                    assert(ids@[c]@ != id@);
                } else if c > i {
                    assert(ids@[i as int]@ != id@);
                }
            }
            return Some(i);
        }
        i = i + 1;
    }
    None
}

/// The block that was clicked last, given for each card whether it was clicked.
pub open spec fn last_marked(ids: Seq<String>, marks: Seq<bool>) -> Option<String>
    decreases ids.len(),
{
    if ids.len() == 0 {
        None
    } else if marks[ids.len() - 1] {
        Some(ids.last())
    } else {
        last_marked(ids.drop_last(), marks)
    }
}

/// The Today timeline's result for one frame: the card clicked last becomes
/// the new selection and the card hovered last the new hover, if any.
pub fn today_interaction(card_ids: &Vec<String>, clicked: &Vec<bool>, hovered: &Vec<bool>) -> (r: (
    Option<String>,
    Option<String>,
))
    requires
        clicked@.len() == card_ids@.len(),
        hovered@.len() == card_ids@.len(),
    ensures
        r.0 == last_marked(card_ids@, clicked@),
        r.1 == last_marked(card_ids@, hovered@),
        forall|i: int|
            #![trigger clicked@[i]]
            0 <= i < card_ids@.len() && clicked@[i] && (forall|j: int|
                i < j < card_ids@.len() ==> !#[trigger] clicked@[j]) ==> r.0 == Some(card_ids@[i]),
        (forall|j: int| 0 <= j < card_ids@.len() ==> !#[trigger] clicked@[j]) ==> r.0 is None,
        forall|i: int|
            #![trigger hovered@[i]]
            0 <= i < card_ids@.len() && hovered@[i] && (forall|j: int|
                i < j < card_ids@.len() ==> !#[trigger] hovered@[j]) ==> r.1 == Some(card_ids@[i]),
        (forall|j: int| 0 <= j < card_ids@.len() ==> !#[trigger] hovered@[j]) ==> r.1 is None,
{
    proof {
        crate::laws::law_last_mark_wins(card_ids@, clicked@);
        crate::laws::law_last_mark_wins(card_ids@, hovered@);
    }
    let mut new_selected: Option<String> = None;
    let mut new_hovered: Option<String> = None;
    let mut idx: usize = 0;
    while idx < card_ids.len()
        invariant
            idx <= card_ids@.len(),
            clicked@.len() == card_ids@.len(),
            hovered@.len() == card_ids@.len(),
            new_selected == last_marked(card_ids@.take(idx as int), clicked@),
            new_hovered == last_marked(card_ids@.take(idx as int), hovered@),
        decreases card_ids@.len() - idx,
    {
        assert(card_ids@.take(idx + 1).drop_last() =~= card_ids@.take(idx as int));
        assert(card_ids@.take(idx + 1).last() == card_ids@[idx as int]);
        if clicked[idx] {
            new_selected = Some(card_ids[idx].clone());
        }
        if hovered[idx] {
            new_hovered = Some(card_ids[idx].clone());
        }
        idx = idx + 1;
    }
    assert(card_ids@.take(card_ids@.len() as int) =~= card_ids@);
    (new_selected, new_hovered)
}

impl ViewState {
    /// The state a fresh window starts in: the Today tab, nothing selected,
    /// an empty command bar, dark mode and an expanded navigation column.
    pub fn new() -> (s: ViewState)
        ensures
            s.active_tab == NavTab::Today,
            s.selected_block_id is None,
            s.hovered_block_id is None,
            s.command_input@ == Seq::<char>::empty(),
            s.dark_mode,
            !s.nav_collapsed,
    {
        ViewState {
            active_tab: NavTab::Today,
            selected_block_id: None,
            hovered_block_id: None,
            command_input: String::new(),
            dark_mode: true,
            nav_collapsed: false,
        }
    }

    /// Reacts to one frame's keys. Escape clears the command text, or the
    /// selection when there is no text; `j`/`k` move the selection through
    /// `plan_block_ids`, the ids of the plan's blocks, on the Today tab.
    /// Returns whether the command bar asks for focus (⌘K / Ctrl-K).
    pub fn handle_keyboard(&mut self, input: KeyInput, plan_block_ids: Option<&Vec<String>>) -> (focus:
        bool)
        ensures
            focus == input.focus_shortcut,
            input.focus_shortcut && !input.escape ==> final(self).selected_block_id == old(
                self,
            ).selected_block_id,
            !input.next && !input.previous && !input.escape ==> final(self).selected_block_id == old(
                self,
            ).selected_block_id,
            final(self).command_input@ == command_after_escape(old(self).command_input@, input),
            final(self).selected_block_id == selection_after_keys(
                old(self).selected_block_id,
                old(self).command_input@,
                input,
                old(self).active_tab == NavTab::Today,
                match plan_block_ids {
                    Some(v) => Some(v@),
                    None => None,
                },
            ),
            final(self).active_tab == old(self).active_tab,
            final(self).hovered_block_id == old(self).hovered_block_id,
            final(self).dark_mode == old(self).dark_mode,
            final(self).nav_collapsed == old(self).nav_collapsed,
    {
        if input.escape {
            if self.command_input.as_str().unicode_len() == 0 {
                self.selected_block_id = None;
            } else {
                self.command_input = String::new();
            }
        }
        if self.active_tab == NavTab::Today && !input.focus_shortcut {
            match plan_block_ids {
                Some(ids) => {
                    let current_idx = match &self.selected_block_id {
                        Some(id) => find_position(ids, id),
                        None => None,
                    };
                    let len = ids.len();
                    if len > 0 && input.next {
                        let next = match current_idx {
                            Some(i) => if i + 1 < len - 1 {
                                i + 1
                            } else {
                                len - 1
                            },
                            None => 0,
                        };
                        self.selected_block_id = Some(ids[next].clone());
                    }
                    if len > 0 && input.previous {
                        let prev = match current_idx {
                            Some(i) => if i > 0 {
                                i - 1
                            } else {
                                0
                            },
                            None => 0,
                        };
                        self.selected_block_id = Some(ids[prev].clone());
                    }
                },
                None => {},
            }
        }
        input.focus_shortcut
    }

    /// Submits the command bar: when Enter made it lose focus and it holds
    /// more than white space, returns the entered text without its
    /// surrounding white space and empties the bar; otherwise (no Enter, or
    /// blank text) returns nothing and leaves the bar as it is.
    pub fn submit_command(&mut self, lost_focus: bool, enter_pressed: bool) -> (submitted: Option<
        String,
    >)
        ensures
            ({
                let text = trimmed(old(self).command_input@);
                if lost_focus && enter_pressed && text.len() > 0 {
                    &&& submitted matches Some(s) && s@ == text
                    &&& final(self).command_input@ == Seq::<char>::empty()
                } else {
                    &&& submitted is None
                    &&& final(self).command_input == old(self).command_input
                }
            }),
            final(self).active_tab == old(self).active_tab,
            final(self).selected_block_id == old(self).selected_block_id,
            final(self).hovered_block_id == old(self).hovered_block_id,
            final(self).dark_mode == old(self).dark_mode,
            final(self).nav_collapsed == old(self).nav_collapsed,
    {
        if lost_focus && enter_pressed {
            let text = trim(self.command_input.as_str());
            if text.as_str().unicode_len() > 0 {
                self.command_input = String::new();
                return Some(text);
            }
        }
        None
    }

    /// Applies the clicks of the navigation column: the collapse toggle, a
    /// tab, and the theme toggle.
    pub fn apply_nav_clicks(
        &mut self,
        collapse_clicked: bool,
        tab_clicked: Option<NavTab>,
        theme_clicked: bool,
    )
        ensures
            final(self).nav_collapsed == (old(self).nav_collapsed != collapse_clicked),
            final(self).dark_mode == (old(self).dark_mode != theme_clicked),
            final(self).active_tab == (match tab_clicked {
                Some(t) => t,
                None => old(self).active_tab,
            }),
            final(self).selected_block_id == old(self).selected_block_id,
            final(self).hovered_block_id == old(self).hovered_block_id,
            final(self).command_input == old(self).command_input,
    {
        if collapse_clicked {
            self.nav_collapsed = !self.nav_collapsed;
        }
        match tab_clicked {
            Some(t) => {
                self.active_tab = t;
            },
            None => {},
        }
        if theme_clicked {
            self.dark_mode = !self.dark_mode;
        }
    }

    /// Applies the Today timeline's result: a click selects, and the hover
    /// follows the pointer.
    pub fn apply_today_result(&mut self, new_selected: Option<String>, new_hovered: Option<String>)
        ensures
            final(self).selected_block_id == (match new_selected {
                Some(id) => Some(id),
                None => old(self).selected_block_id,
            }),
            final(self).hovered_block_id == new_hovered,
            final(self).active_tab == old(self).active_tab,
            final(self).command_input == old(self).command_input,
            final(self).dark_mode == old(self).dark_mode,
            final(self).nav_collapsed == old(self).nav_collapsed,
    {
        match new_selected {
            Some(id) => {
                self.selected_block_id = Some(id);
            },
            None => {},
        }
        self.hovered_block_id = new_hovered;
    }
}

/// Whether the data is due for a reload: more than five seconds have passed
/// since the last one, given as whole seconds and the nanoseconds beyond them.
pub fn refresh_due(elapsed_secs: u64, elapsed_subsec_nanos: u32) -> (due: bool)
    ensures
        due == (elapsed_secs > 5 || (elapsed_secs == 5 && elapsed_subsec_nanos > 0)),
{
    elapsed_secs > 5 || (elapsed_secs == 5 && elapsed_subsec_nanos > 0)
}

/// What the right-hand context pane shows.
#[derive(Clone, Copy, Debug, PartialEq, Eq, Structural)]
pub enum ContextPane {
    /// The detail of the plan's block at this position.
    Detail(usize),
    /// The blocks coming up next.
    UpNext,
    /// There is no plan to show.
    NoPlan,
}

/// The context pane for a plan whose blocks have the ids `ids` (if a plan is
/// loaded) and a selected block id: the detail of the first block with the
/// selected id, else the blocks coming up, else a note that no plan is loaded.
pub open spec fn context_pane_of(ids: Option<Seq<String>>, selected: Option<Seq<char>>) -> ContextPane {
    match ids {
        None => ContextPane::NoPlan,
        Some(ids) => match selected {
            Some(id) => match position_of(ids, id) {
                Some(i) => ContextPane::Detail(i as usize),
                None => ContextPane::UpNext,
            },
            None => ContextPane::UpNext,
        },
    }
}

/// Chooses what the context pane shows.
pub fn context_pane(block_ids: Option<&Vec<String>>, selected: Option<&String>) -> (p: ContextPane)
    ensures
        p == context_pane_of(
            match block_ids {
                Some(v) => Some(v@),
                None => None,
            },
            match selected {
                Some(s) => Some(s@),
                None => None,
            },
        ),
        p matches ContextPane::Detail(i) ==> block_ids matches Some(v) && i < v@.len(),
{
    match block_ids {
        None => ContextPane::NoPlan,
        Some(ids) => match selected {
            Some(id) => match find_position(ids, id) {
                Some(i) => ContextPane::Detail(i),
                None => ContextPane::UpNext,
            },
            None => ContextPane::UpNext,
        },
    }
}

/// Whether a card shows its Done and Skip buttons: while hovered, unless
/// the block is done or skipped.
pub open spec fn hover_buttons_shown(card: BlockCardModel, is_hovered: bool) -> bool {
    is_hovered && !is_finished(card.status)
}

/// The action of a card's hover buttons: Done when Done was clicked, else
/// Skip when Skip was clicked, and nothing when the buttons are not shown.
pub open spec fn card_hover_action<P>(
    card: BlockCardModel,
    is_hovered: bool,
    skip_clicked: bool,
    done_clicked: bool,
) -> Option<GuiAction<P>> {
    if !hover_buttons_shown(card, is_hovered) {
        None
    } else if done_clicked {
        Some(GuiAction::Done(card.id))
    } else if skip_clicked {
        Some(GuiAction::Skip(card.id))
    } else {
        None
    }
}

impl BlockCardModel {
    /// Whether the card shows its Done and Skip buttons.
    pub fn shows_hover_buttons(&self, is_hovered: bool) -> (b: bool)
        ensures
            b == hover_buttons_shown(*self, is_hovered),
            b == (is_hovered && self.status != Status::Done && self.status != Status::Skipped),
    {
        is_hovered && !(self.status == Status::Done || self.status == Status::Skipped)
    }

    /// The action the card's hover buttons ask for in this frame.
    pub fn hover_action<P>(&self, is_hovered: bool, skip_clicked: bool, done_clicked: bool) -> (a:
        Option<GuiAction<P>>)
        ensures
            a == card_hover_action::<P>(*self, is_hovered, skip_clicked, done_clicked),
    {
        if !self.shows_hover_buttons(is_hovered) {
            None
        } else if done_clicked {
            Some(GuiAction::Done(self.id.clone()))
        } else if skip_clicked {
            Some(GuiAction::Skip(self.id.clone()))
        } else {
            None
        }
    }
}

} // verus!
