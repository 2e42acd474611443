use vstd::prelude::*;

use crate::text::{command_words, split_command_words, string_views};
use crate::toast::{GuiAction, Toast};

verus! {

/// A block command that the store carries out for the view.
#[derive(Clone, Copy, Debug, PartialEq, Eq, Structural)]
pub enum BlockCommand {
    Approve,
    Done,
    Skip,
}

/// What running a queued action takes.
pub enum ActionStep<P> {
    /// Write the snapshot back to the store (an undo).
    Restore(Box<P>),
    /// Nothing to do.
    Ignore,
    /// Parse the block id and dispatch the command on it.
    Run(BlockCommand, String),
}

/// The step for each queued action: a dismissal does nothing, a restore
/// writes its snapshot back, and the rest dispatch their command on the id.
pub open spec fn action_step<P>(action: GuiAction<P>) -> ActionStep<P> {
    match action {
        GuiAction::Approve(id) => ActionStep::Run(BlockCommand::Approve, id),
        GuiAction::Done(id) => ActionStep::Run(BlockCommand::Done, id),
        GuiAction::Skip(id) => ActionStep::Run(BlockCommand::Skip, id),
        GuiAction::Dismiss(_) => ActionStep::Ignore,
        GuiAction::RestorePlan(p) => ActionStep::Restore(p),
    }
}

/// Decides what a queued action takes.
pub fn plan_action<P>(action: GuiAction<P>) -> (step: ActionStep<P>)
    ensures
        step == action_step(action),
{
    match action {
        GuiAction::Approve(id) => ActionStep::Run(BlockCommand::Approve, id),
        GuiAction::Done(id) => ActionStep::Run(BlockCommand::Done, id),
        GuiAction::Skip(id) => ActionStep::Run(BlockCommand::Skip, id),
        GuiAction::Dismiss(_) => ActionStep::Ignore,
        GuiAction::RestorePlan(p) => ActionStep::Restore(p),
    }
}

/// What the view shows after an operation, and whether it reloads its data.
pub struct Feedback<P> {
    pub toast: Toast<P>,
    pub refresh: bool,
}

/// The success message of each block command.
pub open spec fn command_message(cmd: BlockCommand) -> Seq<char> {
    match cmd {
        BlockCommand::Approve => "Approved"@,
        BlockCommand::Done => "Marked done · Undo"@,
        BlockCommand::Skip => "Skipped · Undo"@,
    }
}

/// Whether a successful command can be undone by restoring the earlier plan.
pub open spec fn command_undoable(cmd: BlockCommand) -> bool {
    cmd != BlockCommand::Approve
}

/// The undo a successful command offers: restoring the snapshot taken before
/// it, for a done or skip when there was a plan.
pub open spec fn undo_offered<P>(cmd: BlockCommand, snapshot: Option<P>) -> Option<GuiAction<P>> {
    if command_undoable(cmd) && snapshot is Some {
        Some(GuiAction::RestorePlan(Box::new(snapshot->0)))
    } else {
        None
    }
}

/// Feedback after writing an undo snapshot back to the store: "Undone" and a
/// reload on success, "Undo failed: <error>" otherwise.
pub fn restore_feedback<P>(result: Result<(), String>) -> (f: Feedback<P>)
    ensures
        f.toast.undo_action is None,
        match result {
            Ok(()) => f.toast.message@ == "Undone"@ && !f.toast.is_error && f.refresh,
            Err(e) => f.toast.message@ == "Undo failed: "@ + e@ && f.toast.is_error && !f.refresh,
        },
{
    match result {
        Ok(()) => Feedback { toast: Toast::success(String::from_str("Undone")), refresh: true },
        Err(e) => {
            let mut msg = String::from_str("Undo failed: ");
            msg.append(e.as_str());
            Feedback { toast: Toast::error(msg), refresh: false }
        },
    }
}

/// Feedback after dispatching a block command. `result` is `Err` with the
/// message of whichever failed, the id parse or the command; `snapshot` is
/// the plan as it was before. A successful done or skip offers an undo that
/// restores the snapshot, when there was a plan. The view reloads either way.
pub fn command_feedback<P>(cmd: BlockCommand, result: Result<(), String>, snapshot: Option<P>) -> (f:
    Feedback<P>)
    ensures
        f.refresh,
        match result {
            Ok(()) => {
                &&& f.toast.message@ == command_message(cmd)
                &&& !f.toast.is_error
                &&& f.toast.undo_action == undo_offered(cmd, snapshot)
            },
            Err(e) => f.toast.message@ == e@ && f.toast.is_error && f.toast.undo_action is None,
        },
{
    match result {
        Ok(()) => {
            let toast = match cmd {
                BlockCommand::Approve => Toast::success(String::from_str("Approved")),
                BlockCommand::Done => {
                    let msg = String::from_str("Marked done · Undo");
                    match snapshot {
                        Some(snap) => Toast::undoable(msg, GuiAction::RestorePlan(Box::new(snap))),
                        None => Toast::success(msg),
                    }
                },
                BlockCommand::Skip => {
                    let msg = String::from_str("Skipped · Undo");
                    match snapshot {
                        Some(snap) => Toast::undoable(msg, GuiAction::RestorePlan(Box::new(snap))),
                        None => Toast::success(msg),
                    }
                },
            };
            Feedback { toast, refresh: true }
        },
        Err(e) => Feedback { toast: Toast::error(e), refresh: true },
    }
}

/// What text typed into the command bar asks for.
pub enum CommandRequest {
    /// A slash command, as the argument vector for the command-line parser.
    Cli(Vec<String>),
    /// Plain text, which needs an agent.
    NoAgent,
}

/// The argument vector of a slash command: the program name, then the
/// arguments after the slash, with double-quoted arguments kept whole.
pub open spec fn cli_argv(text: Seq<char>) -> Seq<Seq<char>> {
    seq!["ccplan"@] + command_words(text.drop_first())
}

/// Reads command-bar text: text that starts with `/` is a command line whose
/// arguments, after the slash, follow the program name; anything else is
/// plain text.
pub fn command_request(text: &str) -> (req: CommandRequest)
    ensures
        match req {
            CommandRequest::Cli(argv) => {
                &&& text@.len() > 0 && text@[0] == '/'
                &&& string_views(argv@) == cli_argv(text@)
            },
            CommandRequest::NoAgent => !(text@.len() > 0 && text@[0] == '/'),
        },
{
    let len = text.unicode_len();
    if len > 0 && text.get_char(0) == '/' {
        let rest = text.substring_char(1, len);
        assert(rest@ =~= text@.drop_first());
        let mut words = split_command_words(rest);
        let ghost ws = string_views(words@);
        let mut argv: Vec<String> = Vec::new();
        argv.push(String::from_str("ccplan"));
        proof {
            reveal_strlit("ccplan");
        }
        assert(string_views(argv@) =~= seq!["ccplan"@]);
        let mut i: usize = 0;
        assert(ws.len() == words.len());
        while words.len() > 0
            invariant
                ws == command_words(text@.drop_first()),
                i <= ws.len(),
                ws.len() <= usize::MAX,
                string_views(words@) == ws.skip(i as int),
                string_views(argv@) == seq!["ccplan"@] + ws.take(i as int),
            decreases words@.len(),
        {
            let ghost before = argv@;
            let ghost wv = words@;
            assert(string_views(wv).len() == wv.len());
            assert(string_views(wv)[0] == wv[0]@);
            assert(ws.skip(i as int)[0] == ws[i as int]);
            let w = words.remove(0);
            assert(w@ == ws[i as int]);
            assert(words@ =~= wv.drop_first());
            argv.push(w);
            assert forall|k: int| 0 <= k < string_views(words@).len() implies #[trigger] string_views(words@)[k] == ws.skip(i + 1)[k] by {
                assert(words@[k] == wv[k + 1]);
                assert(string_views(wv)[k + 1] == wv[k + 1]@);
                assert(ws.skip(i as int)[k + 1] == ws.skip(i + 1)[k]);
            }
            assert(string_views(words@) =~= ws.skip(i + 1));
            assert(string_views(argv@) =~= string_views(before).push(w@));
            assert(ws.take(i + 1) =~= ws.take(i as int).push(ws[i as int]));
            i = i + 1;
        }
        assert(ws.skip(i as int).len() == 0);
        assert(ws.take(i as int) =~= ws);
        CommandRequest::Cli(argv)
    } else {
        CommandRequest::NoAgent
    }
}

/// How a command-bar request ended.
pub enum CommandOutcome {
    /// Plain text arrived and no agent is connected.
    NoAgent,
    /// The command-line parser rejected the words, with its message.
    Rejected(String),
    /// The command ran, with its result.
    Ran(Result<(), String>),
}

/// Feedback for a command-bar request: plain text asks for a slash command, a
/// rejected command line shows the usage hint with the parser's message, a
/// command that ran shows "Done" and reloads, or shows its error.
pub fn command_text_feedback<P>(outcome: CommandOutcome) -> (f: Feedback<P>)
    ensures
        f.toast.undo_action is None,
        match outcome {
            CommandOutcome::NoAgent => {
                &&& f.toast.message@ == "No agent connected. Use /add \"Title\" --at HH:MM --for 1h"@
                &&& f.toast.is_error
                &&& !f.refresh
            },
            CommandOutcome::Rejected(e) => {
                &&& f.toast.message@ == "Unknown command. Try /add \"Title\" --at HH:MM --for 1h  ("@
                    + e@ + ")"@
                &&& f.toast.is_error
                &&& !f.refresh
            },
            CommandOutcome::Ran(Ok(())) => f.toast.message@ == "Done"@ && !f.toast.is_error
                && f.refresh,
            CommandOutcome::Ran(Err(e)) => f.toast.message@ == e@ && f.toast.is_error && !f.refresh,
        },
{
    match outcome {
        CommandOutcome::NoAgent => Feedback {
            toast: Toast::error(
                String::from_str("No agent connected. Use /add \"Title\" --at HH:MM --for 1h"),
            ),
            refresh: false,
        },
        CommandOutcome::Rejected(e) => {
            let mut msg = String::from_str("Unknown command. Try /add \"Title\" --at HH:MM --for 1h  (");
            msg.append(e.as_str());
            msg.append(")");
            Feedback { toast: Toast::error(msg), refresh: false }
        },
        CommandOutcome::Ran(Ok(())) => Feedback {
            toast: Toast::success(String::from_str("Done")),
            refresh: true,
        },
        CommandOutcome::Ran(Err(e)) => Feedback { toast: Toast::error(e), refresh: false },
    }
}

/// The actions of the approvals list, given for each item whether Approve
/// and whether Dismiss was clicked: per item, in order, Approve first.
pub open spec fn approvals_actions<P>(ids: Seq<String>, approve: Seq<bool>, dismiss: Seq<bool>) -> Seq<
    GuiAction<P>,
>
    decreases ids.len(),
{
    if ids.len() == 0 {
        seq![]
    } else {
        let n = ids.len() - 1;
        approvals_actions(ids.drop_last(), approve, dismiss) + (if approve[n] {
            seq![GuiAction::Approve(ids[n])]
        } else {
            seq![]
        }) + (if dismiss[n] {
            seq![GuiAction::Dismiss(ids[n])]
        } else {
            seq![]
        })
    }
}

/// The actions queued by the approvals list in this frame.
pub fn approval_clicks<P>(ids: &Vec<String>, approve: &Vec<bool>, dismiss: &Vec<bool>) -> (a: Vec<
    GuiAction<P>,
>)
    requires
        approve@.len() == ids@.len(),
        dismiss@.len() == ids@.len(),
    ensures
        a@ == approvals_actions::<P>(ids@, approve@, dismiss@),
{
    let mut a: Vec<GuiAction<P>> = Vec::new();
    let mut i: usize = 0;
    while i < ids.len()
        invariant
            i <= ids@.len(),
            approve@.len() == ids@.len(),
            dismiss@.len() == ids@.len(),
            a@ == approvals_actions::<P>(ids@.take(i as int), approve@, dismiss@),
        decreases ids@.len() - i,
    {
        let ghost before = a@;
        assert(ids@.take(i + 1).drop_last() =~= ids@.take(i as int));
        assert(ids@.take(i + 1)[i as int] == ids@[i as int]);
        if approve[i] {
            a.push(GuiAction::Approve(ids[i].clone()));
        }
        if dismiss[i] {
            a.push(GuiAction::Dismiss(ids[i].clone()));
        }
        assert(a@ =~= approvals_actions::<P>(ids@.take(i + 1), approve@, dismiss@));
        i = i + 1;
    }
    assert(ids@.take(ids@.len() as int) =~= ids@);
    a
}

} // verus!
