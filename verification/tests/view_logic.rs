use ccplan_gui::actions::{
    approval_clicks,
    command_feedback, command_request, command_text_feedback, plan_action, restore_feedback,
    ActionStep, BlockCommand, CommandOutcome, CommandRequest,
};
use ccplan_gui::dates::{date_key, refresh_dates, upcoming_date_keys, CivilDate};
use ccplan_gui::model::{ActivityKind, BlockCardModel, NavModel, NavTab, Status};
use ccplan_gui::nav::{collapse_icon, nav_icon, nav_label, theme_icon};
use ccplan_gui::palette::{
    activity_tone, agent_tone, approval_tone, block_card_style, status_color, toast_tones,
    CardStyle, Rgb, Tone,
};
use ccplan_gui::text::{
    after_label, join, push_decimal, push_zero_padded, split_command_words, tags_label, trim,
};
use ccplan_gui::toast::{
    expire_toasts, retain_fresh, take_undo_actions, GuiAction, Toast, TOAST_LIFETIME_SECS,
};
use ccplan_gui::view::{
    context_pane, refresh_due, today_interaction, ContextPane, KeyInput, ViewState,
};

type Snapshot = Vec<u32>;

fn strings(items: &[&str]) -> Vec<String> {
    items.iter().map(|s| s.to_string()).collect()
}

fn keys(focus: bool, escape: bool, next: bool, previous: bool) -> KeyInput {
    KeyInput { focus_shortcut: focus, escape, next, previous }
}

fn state_with(selected: Option<&str>, command: &str) -> ViewState {
    let mut s = ViewState::new();
    s.selected_block_id = selected.map(|x| x.to_string());
    s.command_input = command.to_string();
    s
}

// ── palette ──────────────────────────────────────────────────────────────────

#[test]
fn status_colors_follow_the_status() {
    assert_eq!(status_color(Status::Active), Tone::Green);
    assert_eq!(status_color(Status::Missed), Tone::Red);
    assert_eq!(status_color(Status::Expired), Tone::Amber);
    assert_eq!(status_color(Status::Done), Tone::TextDim);
    assert_eq!(status_color(Status::Skipped), Tone::TextDim);
    assert_eq!(status_color(Status::Pending), Tone::TextDim);
}

#[test]
fn tone_channels_match_the_design_tokens() {
    assert_eq!(Tone::Bg.rgb(), Rgb { r: 0x0E, g: 0x11, b: 0x16 });
    assert_eq!(Tone::Accent.rgb(), Rgb { r: 0x4C, g: 0x8D, b: 0xFF });
    assert_eq!(Tone::ActiveTint.rgb(), Rgb { r: 0x10, g: 0x23, b: 0x1A });
    assert_eq!(Tone::Red.rgb(), Rgb { r: 0xF8, g: 0x51, b: 0x49 });
}

#[test]
fn block_card_styles() {
    assert_eq!(
        block_card_style(Status::Active, true),
        CardStyle {
            fill: Tone::ActiveTint,
            stroke: Tone::Accent,
            status_bar: Tone::Green,
            title: Tone::Green,
            strikethrough: false,
        }
    );
    assert_eq!(
        block_card_style(Status::Done, false),
        CardStyle {
            fill: Tone::Surface,
            stroke: Tone::Border,
            status_bar: Tone::TextDim,
            title: Tone::TextDim,
            strikethrough: true,
        }
    );
    let pending = block_card_style(Status::Pending, true);
    assert_eq!(pending.fill, Tone::Surface2);
    assert_eq!(pending.title, Tone::Text1);
    assert!(!pending.strikethrough);
    assert!(block_card_style(Status::Skipped, true).strikethrough);
    assert!(!block_card_style(Status::Missed, false).strikethrough);
}

#[test]
fn feed_agent_approval_and_toast_tones() {
    assert_eq!(activity_tone(ActivityKind::Success), Tone::Green);
    assert_eq!(activity_tone(ActivityKind::Run), Tone::Accent);
    assert_eq!(activity_tone(ActivityKind::Error), Tone::Red);
    assert_eq!(activity_tone(ActivityKind::Info), Tone::TextDim);
    assert_eq!(agent_tone(true), Tone::Green);
    assert_eq!(agent_tone(false), Tone::Red);
    assert_eq!(approval_tone("approved"), Tone::Green);
    assert_eq!(approval_tone("awaiting approval"), Tone::Amber);
    assert_eq!(approval_tone("Approved"), Tone::Amber);
    assert_eq!(toast_tones(true), (Tone::Red, Tone::Red));
    assert_eq!(toast_tones(false), (Tone::Surface2, Tone::Accent));
}

#[test]
fn card_second_row_shows_for_tags_or_badges() {
    let mut card = BlockCardModel {
        id: "b1".to_string(),
        title: "Focus".to_string(),
        time_range: "09:00–10:00".to_string(),
        countdown: "in 5m".to_string(),
        status: Status::Pending,
        tags: Vec::new(),
        has_recurrence: false,
        has_run: false,
        awaiting_approval: false,
        has_agent: false,
        has_expect_by_breach: false,
    };
    assert!(!card.has_details());
    card.tags.push("deep".to_string());
    assert!(card.has_details());
    card.tags.clear();
    card.has_expect_by_breach = true;
    assert!(card.has_details());
}

// ── navigation ───────────────────────────────────────────────────────────────

#[test]
fn nav_icons_and_labels() {
    let nav = NavModel { active_tab: NavTab::Today, pending_approvals_count: 0 };
    assert_eq!(nav_icon(NavTab::Today), "⌂");
    assert_eq!(nav_icon(NavTab::Upcoming), "◎");
    assert_eq!(nav_icon(NavTab::Automations), "↻");
    assert_eq!(nav_icon(NavTab::Agents), "⚡");
    assert_eq!(nav_icon(NavTab::Activity), "☰");
    assert_eq!(nav_icon(NavTab::Approvals), "✓");
    assert_eq!(nav_label(NavTab::Today, &nav), "Today");
    assert_eq!(nav_label(NavTab::Upcoming, &nav), "Upcoming");
    assert_eq!(nav_label(NavTab::Automations, &nav), "Automations");
    assert_eq!(nav_label(NavTab::Agents, &nav), "Agents");
    assert_eq!(nav_label(NavTab::Activity, &nav), "Activity");
    assert_eq!(nav_label(NavTab::Approvals, &nav), "Approvals");
}

#[test]
fn approvals_label_counts_pending_approvals() {
    let three = NavModel { active_tab: NavTab::Approvals, pending_approvals_count: 3 };
    assert_eq!(nav_label(NavTab::Approvals, &three), "Approvals  3");
    let many = NavModel { active_tab: NavTab::Today, pending_approvals_count: 120 };
    assert_eq!(nav_label(NavTab::Approvals, &many), "Approvals  120");
    assert_eq!(nav_label(NavTab::Today, &many), "Today");
}

#[test]
fn toggle_icons() {
    assert_eq!(collapse_icon(true), "»");
    assert_eq!(collapse_icon(false), "«");
    assert_eq!(theme_icon(true), "☀");
    assert_eq!(theme_icon(false), "☾");
}

// ── toasts ───────────────────────────────────────────────────────────────────

#[test]
fn toast_constructors() {
    let ok: Toast<Snapshot> = Toast::success("Done".to_string());
    assert_eq!(ok.message, "Done");
    assert!(!ok.is_error);
    assert!(ok.undo_action.is_none());

    let err: Toast<Snapshot> = Toast::error("boom".to_string());
    assert_eq!(err.message, "boom");
    assert!(err.is_error);
    assert!(err.undo_action.is_none());

    let undo: Toast<Snapshot> =
        Toast::undoable("Skipped · Undo".to_string(), GuiAction::RestorePlan(Box::new(vec![7])));
    assert_eq!(undo.message, "Skipped · Undo");
    assert!(!undo.is_error);
    match undo.undo_action {
        Some(GuiAction::RestorePlan(p)) => assert_eq!(*p, vec![7]),
        _ => panic!("expected a restore action"),
    }
}

#[test]
fn retain_fresh_drops_old_toasts_in_order() {
    let mut toasts: Vec<Toast<Snapshot>> = vec![
        Toast::success("a".to_string()),
        Toast::success("b".to_string()),
        Toast::error("c".to_string()),
        Toast::success("d".to_string()),
    ];
    retain_fresh(&mut toasts, &vec![0, TOAST_LIFETIME_SECS, 3, 9]);
    let left: Vec<&str> = toasts.iter().map(|t| t.message.as_str()).collect();
    assert_eq!(left, vec!["a", "c"]);
}

#[test]
fn expire_keeps_new_toasts() {
    let mut toasts: Vec<Toast<Snapshot>> =
        vec![Toast::success("a".to_string()), Toast::error("b".to_string())];
    expire_toasts(&mut toasts);
    assert_eq!(toasts.len(), 2);
    assert_eq!(toasts[0].message, "a");
    assert_eq!(toasts[1].message, "b");
}

#[test]
fn undo_clicks_remove_toasts_and_hand_out_actions() {
    let mut toasts: Vec<Toast<Snapshot>> = vec![
        Toast::undoable("first".to_string(), GuiAction::RestorePlan(Box::new(vec![1]))),
        Toast::success("second".to_string()),
        Toast::undoable("third".to_string(), GuiAction::RestorePlan(Box::new(vec![3]))),
        Toast::error("fourth".to_string()),
    ];
    let actions = take_undo_actions(&mut toasts, &vec![0, 2]);
    let left: Vec<&str> = toasts.iter().map(|t| t.message.as_str()).collect();
    assert_eq!(left, vec!["second", "fourth"]);
    let restored: Vec<Snapshot> = actions
        .into_iter()
        .map(|a| match a {
            GuiAction::RestorePlan(p) => *p,
            _ => panic!("expected a restore action"),
        })
        .collect();
    assert_eq!(restored, vec![vec![3], vec![1]]);
}

#[test]
fn undo_clicks_out_of_range_are_ignored() {
    let mut toasts: Vec<Toast<Snapshot>> = vec![Toast::success("only".to_string())];
    let actions = take_undo_actions(&mut toasts, &vec![0, 5]);
    assert!(actions.is_empty());
    assert!(toasts.is_empty());
}

// ── actions ──────────────────────────────────────────────────────────────────

#[test]
fn queued_actions_map_to_steps() {
    match plan_action::<Snapshot>(GuiAction::Approve("b1".to_string())) {
        ActionStep::Run(BlockCommand::Approve, id) => assert_eq!(id, "b1"),
        _ => panic!("approve should run"),
    }
    match plan_action::<Snapshot>(GuiAction::Done("b2".to_string())) {
        ActionStep::Run(BlockCommand::Done, id) => assert_eq!(id, "b2"),
        _ => panic!("done should run"),
    }
    match plan_action::<Snapshot>(GuiAction::Skip("b3".to_string())) {
        ActionStep::Run(BlockCommand::Skip, id) => assert_eq!(id, "b3"),
        _ => panic!("skip should run"),
    }
    assert!(matches!(
        plan_action::<Snapshot>(GuiAction::Dismiss("b4".to_string())),
        ActionStep::Ignore
    ));
    match plan_action(GuiAction::RestorePlan(Box::new(vec![5u32]))) {
        ActionStep::Restore(p) => assert_eq!(*p, vec![5]),
        _ => panic!("restore should restore"),
    }
}

#[test]
fn restore_feedback_messages() {
    let ok = restore_feedback::<Snapshot>(Ok(()));
    assert_eq!(ok.toast.message, "Undone");
    assert!(!ok.toast.is_error);
    assert!(ok.refresh);
    let err = restore_feedback::<Snapshot>(Err("disk full".to_string()));
    assert_eq!(err.toast.message, "Undo failed: disk full");
    assert!(err.toast.is_error);
    assert!(!err.refresh);
}

#[test]
fn done_and_skip_offer_undo_with_the_snapshot() {
    let done = command_feedback(BlockCommand::Done, Ok(()), Some(vec![1u32, 2]));
    assert_eq!(done.toast.message, "Marked done · Undo");
    assert!(done.refresh);
    match done.toast.undo_action {
        Some(GuiAction::RestorePlan(p)) => assert_eq!(*p, vec![1, 2]),
        _ => panic!("done should offer undo"),
    }
    let skip = command_feedback(BlockCommand::Skip, Ok(()), Some(vec![9u32]));
    assert_eq!(skip.toast.message, "Skipped · Undo");
    assert!(skip.toast.undo_action.is_some());
    let no_plan = command_feedback::<Snapshot>(BlockCommand::Skip, Ok(()), None);
    assert_eq!(no_plan.toast.message, "Skipped · Undo");
    assert!(no_plan.toast.undo_action.is_none());
}

#[test]
fn approve_and_failures_offer_no_undo() {
    let approve = command_feedback(BlockCommand::Approve, Ok(()), Some(vec![1u32]));
    assert_eq!(approve.toast.message, "Approved");
    assert!(!approve.toast.is_error);
    assert!(approve.toast.undo_action.is_none());
    let failed = command_feedback(BlockCommand::Done, Err("no such block".to_string()), Some(vec![1u32]));
    assert_eq!(failed.toast.message, "no such block");
    assert!(failed.toast.is_error);
    assert!(failed.toast.undo_action.is_none());
    assert!(failed.refresh);
}

#[test]
fn slash_text_becomes_an_argument_vector() {
    match command_request("/add Focus --at 9:00 --for 1h") {
        CommandRequest::Cli(argv) => {
            assert_eq!(argv, strings(&["ccplan", "add", "Focus", "--at", "9:00", "--for", "1h"]))
        }
        CommandRequest::NoAgent => panic!("slash text is a command"),
    }
    match command_request("/  done\t b1 \n") {
        CommandRequest::Cli(argv) => assert_eq!(argv, strings(&["ccplan", "done", "b1"])),
        CommandRequest::NoAgent => panic!("slash text is a command"),
    }
    match command_request("/add \"My block\" --at 09:00 --for 1h") {
        CommandRequest::Cli(argv) => assert_eq!(
            argv,
            strings(&["ccplan", "add", "My block", "--at", "09:00", "--for", "1h"])
        ),
        CommandRequest::NoAgent => panic!("slash text is a command"),
    }
    match command_request("/") {
        CommandRequest::Cli(argv) => assert_eq!(argv, strings(&["ccplan"])),
        CommandRequest::NoAgent => panic!("a lone slash is a command"),
    }
}

#[test]
fn plain_text_needs_an_agent() {
    assert!(matches!(command_request("plan my day"), CommandRequest::NoAgent));
    assert!(matches!(command_request(" /add x"), CommandRequest::NoAgent));
    assert!(matches!(command_request(""), CommandRequest::NoAgent));
}

#[test]
fn command_text_feedback_messages() {
    let none = command_text_feedback::<Snapshot>(CommandOutcome::NoAgent);
    assert_eq!(none.toast.message, "No agent connected. Use /add \"Title\" --at HH:MM --for 1h");
    assert!(none.toast.is_error);
    assert!(!none.refresh);
    let rejected =
        command_text_feedback::<Snapshot>(CommandOutcome::Rejected("unexpected argument".to_string()));
    assert_eq!(
        rejected.toast.message,
        "Unknown command. Try /add \"Title\" --at HH:MM --for 1h  (unexpected argument)"
    );
    assert!(rejected.toast.is_error);
    let ran = command_text_feedback::<Snapshot>(CommandOutcome::Ran(Ok(())));
    assert_eq!(ran.toast.message, "Done");
    assert!(!ran.toast.is_error);
    assert!(ran.refresh);
    let failed = command_text_feedback::<Snapshot>(CommandOutcome::Ran(Err("locked".to_string())));
    assert_eq!(failed.toast.message, "locked");
    assert!(failed.toast.is_error);
    assert!(!failed.refresh);
}

// ── keyboard and view state ──────────────────────────────────────────────────

#[test]
fn new_view_state() {
    let s = ViewState::new();
    assert_eq!(s.active_tab, NavTab::Today);
    assert!(s.selected_block_id.is_none());
    assert!(s.hovered_block_id.is_none());
    assert!(s.command_input.is_empty());
    assert!(s.dark_mode);
    assert!(!s.nav_collapsed);
}

#[test]
fn escape_clears_text_before_selection() {
    let ids = strings(&["a", "b"]);
    let mut s = state_with(Some("b"), "/add");
    let focus = s.handle_keyboard(keys(false, true, false, false), Some(&ids));
    assert!(!focus);
    assert_eq!(s.command_input, "");
    assert_eq!(s.selected_block_id.as_deref(), Some("b"));
    s.handle_keyboard(keys(false, true, false, false), Some(&ids));
    assert!(s.selected_block_id.is_none());
}

#[test]
fn j_and_k_move_through_the_plan() {
    let ids = strings(&["a", "b", "c"]);
    let mut s = state_with(None, "");
    s.handle_keyboard(keys(false, false, true, false), Some(&ids));
    assert_eq!(s.selected_block_id.as_deref(), Some("a"));
    s.handle_keyboard(keys(false, false, true, false), Some(&ids));
    assert_eq!(s.selected_block_id.as_deref(), Some("b"));
    s.handle_keyboard(keys(false, false, true, false), Some(&ids));
    s.handle_keyboard(keys(false, false, true, false), Some(&ids));
    assert_eq!(s.selected_block_id.as_deref(), Some("c"));
    s.handle_keyboard(keys(false, false, false, true), Some(&ids));
    assert_eq!(s.selected_block_id.as_deref(), Some("b"));
    s.handle_keyboard(keys(false, false, false, true), Some(&ids));
    s.handle_keyboard(keys(false, false, false, true), Some(&ids));
    assert_eq!(s.selected_block_id.as_deref(), Some("a"));
}

#[test]
fn unknown_selection_restarts_at_the_first_block() {
    let ids = strings(&["a", "b", "c"]);
    let mut s = state_with(Some("gone"), "");
    s.handle_keyboard(keys(false, false, false, true), Some(&ids));
    assert_eq!(s.selected_block_id.as_deref(), Some("a"));
    let mut t = state_with(Some("gone"), "");
    t.handle_keyboard(keys(false, false, true, false), Some(&ids));
    assert_eq!(t.selected_block_id.as_deref(), Some("a"));
}

#[test]
fn k_wins_when_both_are_pressed() {
    let ids = strings(&["a", "b", "c"]);
    let mut s = state_with(Some("b"), "");
    s.handle_keyboard(keys(false, false, true, true), Some(&ids));
    assert_eq!(s.selected_block_id.as_deref(), Some("a"));
}

#[test]
fn selection_keys_only_work_on_today_with_a_plan() {
    let ids = strings(&["a", "b"]);
    let mut s = state_with(Some("a"), "");
    s.active_tab = NavTab::Agents;
    s.handle_keyboard(keys(false, false, true, false), Some(&ids));
    assert_eq!(s.selected_block_id.as_deref(), Some("a"));
    let mut t = state_with(Some("a"), "");
    t.handle_keyboard(keys(false, false, true, false), None);
    assert_eq!(t.selected_block_id.as_deref(), Some("a"));
    let empty: Vec<String> = Vec::new();
    t.handle_keyboard(keys(false, false, true, false), Some(&empty));
    assert_eq!(t.selected_block_id.as_deref(), Some("a"));
}

#[test]
fn focus_shortcut_requests_the_command_bar() {
    let mut s = state_with(None, "");
    assert!(s.handle_keyboard(keys(true, false, false, false), None));
    assert!(!s.handle_keyboard(keys(false, false, false, false), None));
}

#[test]
fn focus_shortcut_keeps_the_selection() {
    let ids = strings(&["a", "b", "c"]);
    let mut s = state_with(Some("b"), "");
    assert!(s.handle_keyboard(keys(true, false, false, true), Some(&ids)));
    assert_eq!(s.selected_block_id.as_deref(), Some("b"));
    assert!(s.handle_keyboard(keys(true, false, true, false), Some(&ids)));
    assert_eq!(s.selected_block_id.as_deref(), Some("b"));
}

#[test]
fn command_bar_submits_trimmed_text_on_enter() {
    let mut s = state_with(None, "  /add Focus \u{3000}");
    assert_eq!(s.submit_command(true, false), None);
    assert_eq!(s.submit_command(false, true), None);
    assert_eq!(s.command_input, "  /add Focus \u{3000}");
    assert_eq!(s.submit_command(true, true).as_deref(), Some("/add Focus"));
    assert_eq!(s.command_input, "");
    let mut blank = state_with(None, " \t ");
    assert_eq!(blank.submit_command(true, true), None);
    assert_eq!(blank.command_input, " \t ");
}

#[test]
fn today_interaction_takes_the_last_click_and_hover() {
    let ids = strings(&["a", "b", "c"]);
    let (sel, hov) = today_interaction(&ids, &vec![true, false, true], &vec![false, true, false]);
    assert_eq!(sel.as_deref(), Some("c"));
    assert_eq!(hov.as_deref(), Some("b"));
    let (sel, hov) = today_interaction(&ids, &vec![false; 3], &vec![false; 3]);
    assert!(sel.is_none());
    assert!(hov.is_none());
}

#[test]
fn today_result_keeps_selection_without_a_click() {
    let mut s = state_with(Some("a"), "");
    s.hovered_block_id = Some("x".to_string());
    s.apply_today_result(None, Some("b".to_string()));
    assert_eq!(s.selected_block_id.as_deref(), Some("a"));
    assert_eq!(s.hovered_block_id.as_deref(), Some("b"));
    s.apply_today_result(Some("c".to_string()), None);
    assert_eq!(s.selected_block_id.as_deref(), Some("c"));
    assert!(s.hovered_block_id.is_none());
}

#[test]
fn nav_clicks_toggle_and_switch_tabs() {
    let mut s = ViewState::new();
    s.apply_nav_clicks(true, Some(NavTab::Approvals), true);
    assert!(s.nav_collapsed);
    assert!(!s.dark_mode);
    assert_eq!(s.active_tab, NavTab::Approvals);
    s.apply_nav_clicks(true, None, false);
    assert!(!s.nav_collapsed);
    assert_eq!(s.active_tab, NavTab::Approvals);
}

#[test]
fn refresh_is_due_after_five_seconds() {
    assert!(!refresh_due(4, 999_999_999));
    assert!(!refresh_due(5, 0));
    assert!(refresh_due(5, 1));
    assert!(refresh_due(6, 0));
}

// ── text ─────────────────────────────────────────────────────────────────────

#[test]
fn trim_matches_str_trim() {
    for s in ["  a b  ", "\u{a0}x\u{2009}", "", " \n\t", "plain", "\u{85}y\u{205f}"] {
        assert_eq!(trim(s), s.trim());
    }
}

#[test]
fn unquoted_words_match_split_ascii_whitespace() {
    for s in ["a  b\tc\n", "", "   ", "x", "\u{a0}a b\u{a0}", " \x0c q \r"] {
        let expected: Vec<String> = s.split_ascii_whitespace().map(|w| w.to_string()).collect();
        assert_eq!(split_command_words(s), expected);
    }
}

#[test]
fn quoted_words_stay_whole() {
    assert_eq!(
        split_command_words("add \"My block\" --at 09:00"),
        strings(&["add", "My block", "--at", "09:00"])
    );
    assert_eq!(split_command_words("a \"\" b"), strings(&["a", "", "b"]));
    assert_eq!(split_command_words("x\"y z\"w"), strings(&["xy zw"]));
    assert_eq!(split_command_words("say \"open ended"), strings(&["say", "open ended"]));
}

#[test]
fn join_matches_slice_join() {
    let ids = strings(&["a1", "b2", "c3"]);
    assert_eq!(join(&ids, ", "), "a1, b2, c3");
    assert_eq!(join(&strings(&["x"]), ", "), "x");
    assert_eq!(join(&Vec::new(), "  "), "");
    assert_eq!(join(&strings(&["#deep", "#work"]), "  "), "#deep  #work");
}

#[test]
fn decimal_and_padding() {
    let mut s = String::new();
    push_decimal(&mut s, 0);
    s.push(' ');
    push_decimal(&mut s, 18446744073709551615);
    assert_eq!(s, "0 18446744073709551615");
    let mut p = String::new();
    push_zero_padded(&mut p, 7, 2);
    p.push('|');
    push_zero_padded(&mut p, 123, 2);
    p.push('|');
    push_zero_padded(&mut p, 42, 4);
    assert_eq!(p, "07|123|0042");
}

// ── dates ────────────────────────────────────────────────────────────────────

#[test]
fn date_keys_match_the_format() {
    for (y, m, d) in [(2024i16, 3i8, 9i8), (5, 1, 1), (-5, 12, 31), (-1234, 2, 3), (9999, 12, 31)] {
        let key = date_key(CivilDate { year: y, month: m, day: d });
        assert_eq!(key, format!("{:04}-{:02}-{:02}", y, m, d));
    }
    assert_eq!(date_key(CivilDate { year: -5, month: 1, day: 2 }), "-005-01-02");
}

#[test]
fn upcoming_keys_cross_a_leap_day() {
    let keys = upcoming_date_keys(CivilDate { year: 2024, month: 2, day: 26 });
    assert_eq!(
        keys,
        strings(&[
            "2024-02-27",
            "2024-02-28",
            "2024-02-29",
            "2024-03-01",
            "2024-03-02",
            "2024-03-03",
            "2024-03-04"
        ])
    );
    let plain = upcoming_date_keys(CivilDate { year: 2023, month: 12, day: 28 });
    assert_eq!(plain[3], "2024-01-01");
}

#[test]
fn upcoming_keys_stop_at_the_end_of_the_calendar() {
    let keys = upcoming_date_keys(CivilDate { year: 9999, month: 12, day: 28 });
    assert_eq!(keys, strings(&["9999-12-29", "9999-12-30", "9999-12-31"]));
}

#[test]
fn refresh_dates_reads_today() {
    let dates = refresh_dates().expect("the test machine's clock is in range");
    assert_eq!(dates.today_key.len(), 10);
    assert_eq!(dates.today_key, date_key(dates.today));
    assert_eq!(dates.upcoming_keys.len(), 7);
    assert_eq!(dates.upcoming_keys, upcoming_date_keys(dates.today));
}

#[test]
fn context_pane_lines() {
    assert_eq!(after_label(&strings(&["b1", "b2"])), "after: b1, b2");
    assert_eq!(after_label(&strings(&["b1"])), "after: b1");
    assert_eq!(tags_label(&strings(&["#deep", "#work"])), "#deep  #work");
}

#[test]
fn trimming_twice_changes_nothing() {
    for s in ["  a b  ", "\u{3000}\u{3000}", "x\u{2028}", ""] {
        let once = trim(s);
        assert_eq!(trim(&once), once);
        assert!(!once.starts_with(char::is_whitespace));
        assert!(!once.ends_with(char::is_whitespace));
    }
}

#[test]
fn toasts_created_at_a_given_instant() {
    let at = std::time::Instant::now();
    let ok: Toast<Snapshot> = Toast::success_at("a".to_string(), at);
    assert_eq!(ok.created, at);
    assert!(!ok.shows_undo());
    let err: Toast<Snapshot> = Toast::error_at("b".to_string(), at);
    assert_eq!(err.created, at);
    assert!(err.is_error);
    let undo: Toast<Snapshot> =
        Toast::undoable_at("c".to_string(), GuiAction::Dismiss("x".to_string()), at);
    assert_eq!(undo.created, at);
    assert!(undo.shows_undo());
}

#[test]
fn context_pane_choices() {
    let ids = strings(&["a", "b", "b"]);
    let b = "b".to_string();
    let z = "z".to_string();
    assert_eq!(context_pane(Some(&ids), Some(&b)), ContextPane::Detail(1));
    assert_eq!(context_pane(Some(&ids), Some(&z)), ContextPane::UpNext);
    assert_eq!(context_pane(Some(&ids), None), ContextPane::UpNext);
    assert_eq!(context_pane(None, Some(&b)), ContextPane::NoPlan);
}

#[test]
fn approval_clicks_in_order() {
    let ids = strings(&["p1", "p2", "p3"]);
    let actions: Vec<GuiAction<Snapshot>> =
        approval_clicks(&ids, &vec![true, false, true], &vec![true, false, false]);
    let names: Vec<String> = actions
        .into_iter()
        .map(|a| match a {
            GuiAction::Approve(id) => format!("approve {id}"),
            GuiAction::Dismiss(id) => format!("dismiss {id}"),
            _ => panic!("only approvals and dismissals"),
        })
        .collect();
    assert_eq!(names, strings(&["approve p1", "dismiss p1", "approve p3"]));
}

#[test]
fn hover_buttons_on_cards() {
    let mut card = BlockCardModel {
        id: "b7".to_string(),
        title: "Focus".to_string(),
        time_range: String::new(),
        countdown: String::new(),
        status: Status::Active,
        tags: Vec::new(),
        has_recurrence: false,
        has_run: false,
        awaiting_approval: false,
        has_agent: false,
        has_expect_by_breach: false,
    };
    assert!(card.shows_hover_buttons(true));
    assert!(!card.shows_hover_buttons(false));
    match card.hover_action::<Snapshot>(true, true, true) {
        Some(GuiAction::Done(id)) => assert_eq!(id, "b7"),
        _ => panic!("done wins over skip"),
    }
    match card.hover_action::<Snapshot>(true, true, false) {
        Some(GuiAction::Skip(id)) => assert_eq!(id, "b7"),
        _ => panic!("skip was clicked"),
    }
    assert!(card.hover_action::<Snapshot>(false, true, true).is_none());
    card.status = Status::Done;
    assert!(!card.shows_hover_buttons(true));
    assert!(card.hover_action::<Snapshot>(true, false, true).is_none());
}
