use vstd::prelude::*;

use crate::model::{NavModel, NavTab};
use crate::text::{decimal, push_decimal};

verus! {

/// The glyph shown for each navigation tab.
pub open spec fn nav_icon_text(tab: NavTab) -> Seq<char> {
    match tab {
        NavTab::Today => seq!['⌂'],
        NavTab::Upcoming => seq!['◎'],
        NavTab::Automations => seq!['↻'],
        NavTab::Agents => seq!['⚡'],
        NavTab::Activity => seq!['☰'],
        NavTab::Approvals => seq!['✓'],
    }
}

/// The label of each navigation tab; the approvals tab carries the number of
/// pending approvals, after two spaces, when there is at least one.
pub open spec fn nav_label_text(tab: NavTab, pending: nat) -> Seq<char> {
    match tab {
        NavTab::Today => "Today"@,
        NavTab::Upcoming => "Upcoming"@,
        NavTab::Automations => "Automations"@,
        NavTab::Agents => "Agents"@,
        NavTab::Activity => "Activity"@,
        NavTab::Approvals => if pending > 0 {
            "Approvals  "@ + decimal(pending)
        } else {
            "Approvals"@
        },
    }
}

/// The glyph of a navigation tab.
pub fn nav_icon(tab: NavTab) -> (icon: &'static str)
    ensures
        icon@ == nav_icon_text(tab),
{
    match tab {
        NavTab::Today => {
            let s = "⌂";
            proof {
                reveal_strlit("⌂");
            }
            s
        },
        NavTab::Upcoming => {
            let s = "◎";
            proof {
                reveal_strlit("◎");
            }
            s
        },
        NavTab::Automations => {
            let s = "↻";
            proof {
                reveal_strlit("↻");
            }
            s
        },
        NavTab::Agents => {
            let s = "⚡";
            proof {
                reveal_strlit("⚡");
            }
            s
        },
        NavTab::Activity => {
            let s = "☰";
            proof {
                reveal_strlit("☰");
            }
            s
        },
        NavTab::Approvals => {
            let s = "✓";
            proof {
                reveal_strlit("✓");
            }
            s
        },
    }
}

/// The label of a navigation tab, with the pending-approval count that `nav` holds.
pub fn nav_label(tab: NavTab, nav: &NavModel) -> (label: String)
    ensures
        label@ == nav_label_text(tab, nav.pending_approvals_count as nat),
{
    match tab {
        NavTab::Today => String::from_str("Today"),
        NavTab::Upcoming => String::from_str("Upcoming"),
        NavTab::Automations => String::from_str("Automations"),
        NavTab::Agents => String::from_str("Agents"),
        NavTab::Activity => String::from_str("Activity"),
        NavTab::Approvals => {
            if nav.pending_approvals_count > 0 {
                let mut s = String::from_str("Approvals  ");
                push_decimal(&mut s, nav.pending_approvals_count as u64);
                s
            } else {
                String::from_str("Approvals")
            }
        },
    }
}

/// The glyph of the collapse toggle: `»` to expand a collapsed column, `«` to collapse it.
pub fn collapse_icon(collapsed: bool) -> (icon: &'static str)
    ensures
        icon@ == (if collapsed { seq!['»'] } else { seq!['«'] }),
{
    if collapsed {
        let s = "»";
        proof {
            reveal_strlit("»");
        }
        s
    } else {
        let s = "«";
        proof {
            reveal_strlit("«");
        }
        s
    }
}

/// The glyph of the theme toggle: a sun while dark, a moon while light.
pub fn theme_icon(dark_mode: bool) -> (icon: &'static str)
    ensures
        icon@ == (if dark_mode { seq!['☀'] } else { seq!['☾'] }),
{
    if dark_mode {
        let s = "☀";
        proof {
            reveal_strlit("☀");
        }
        s
    } else {
        let s = "☾";
        proof {
            reveal_strlit("☾");
        }
        s
    }
}

} // verus!
