use vstd::prelude::*;

verus! {

/// Lifecycle status of a planned block.
#[derive(Clone, Copy, Debug, PartialEq, Eq, Structural)]
pub enum Status {
    Pending,
    Active,
    Done,
    Skipped,
    Missed,
    Expired,
}

/// The tabs of the left navigation column, in display order.
#[derive(Clone, Copy, Debug, PartialEq, Eq, Structural)]
pub enum NavTab {
    Today,
    Upcoming,
    Automations,
    Agents,
    Activity,
    Approvals,
}

/// What the navigation column reads: the active tab and how many approvals wait.
#[derive(Clone, Copy, Debug, PartialEq, Eq, Structural)]
pub struct NavModel {
    pub active_tab: NavTab,
    pub pending_approvals_count: usize,
}

/// Kind of an activity-feed entry.
#[derive(Clone, Copy, Debug, PartialEq, Eq, Structural)]
pub enum ActivityKind {
    Success,
    Run,
    Error,
    Info,
}

} // verus!

verus! {

/// What a block card on the Today timeline shows.
pub struct BlockCardModel {
    pub id: String,
    pub title: String,
    pub time_range: String,
    pub countdown: String,
    pub status: Status,
    pub tags: Vec<String>,
    pub has_recurrence: bool,
    pub has_run: bool,
    pub awaiting_approval: bool,
    pub has_agent: bool,
    pub has_expect_by_breach: bool,
}

/// Whether a card shows its second row: tag pills or any badge.
pub open spec fn card_has_details(card: BlockCardModel) -> bool {
    card.tags@.len() > 0 || card.has_recurrence || card.has_run || card.awaiting_approval
        || card.has_agent || card.has_expect_by_breach
}

impl BlockCardModel {
    /// Whether the card shows its second row of tags and badges.
    pub fn has_details(&self) -> (b: bool)
        ensures
            b == card_has_details(*self),
    {
        self.tags.len() > 0 || self.has_recurrence || self.has_run || self.awaiting_approval
            || self.has_agent || self.has_expect_by_breach
    }
}

} // verus!
