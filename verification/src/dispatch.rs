//! Orchestration of one interaction dispatch.
//!
//! A dispatch resolves the interaction against the command tree, runs the
//! admission pipeline twice — once before the deferred acknowledgement,
//! once, committing the cooldown stamps, immediately before execution —
//! selects the handler matching the interaction kind, and converts what
//! the handler did into one structured outcome. The handler itself is run
//! by the embedding in an isolated unit of work; what it reports (a
//! result, an error, or an abnormal end) is handed in as a plain value,
//! and this module states what each report turns into. A handler's
//! abnormal end becomes an outcome of its own and never unwinds through
//! the dispatcher.

use vstd::prelude::*;
use crate::checks::{
    admission_rejection, check_permissions_and_cooldown, stamped_map, AdmissionInput, InvokerIds,
    RejectionReason,
};
use crate::cooldown::{CooldownKey, CooldownTracker};
use crate::interaction::{Interaction, InteractionKind, ResolvedOption, ResolvedTarget};
use crate::resolve::{find_matching_command, resolve_spec, Resolution};
use crate::tree::{CommandNode, ContextMenuActionKind};

verus! {

/// The error surface a dispatch reports to its caller.
#[derive(Debug)]
pub enum FrameworkError {
    /// No tree node matches the interaction.
    UnknownInteraction,
    /// The live interaction shape disagrees with the registered schema: a
    /// registration or remote-state desynchronization, surfaced distinctly
    /// so operators can be alerted.
    CommandStructureMismatch {
        /// A diagnostic account of the disagreement.
        description: String,
    },
    /// The admission pipeline turned the invocation away.
    CommandCheckFailed {
        /// The stage that rejected, with its data.
        reason: RejectionReason,
    },
    /// The handler ended abnormally; carries the panic payload.
    CommandPanic {
        /// The payload the handler's unit of work ended with.
        payload: String,
    },
    /// The handler itself returned an error, surfaced unmodified.
    CommandError {
        /// The handler's error.
        error: String,
    },
}

/// What the embedding reports of running a handler.
#[derive(Debug)]
pub enum HandlerOutcome {
    /// The handler completed and succeeded.
    Success,
    /// The handler completed with an error of its own.
    Error(String),
    /// The handler's unit of work ended abnormally; carries the payload.
    Panicked(String),
}

/// The structured outcome of one dispatch.
#[derive(Debug)]
pub enum DispatchOutcome {
    /// The handler ran; carries its own result.
    Executed(Result<(), String>),
    /// The admission pipeline rejected the invocation.
    Rejected(RejectionReason),
    /// No tree node matched the interaction.
    UnknownCommand,
    /// The interaction shape disagreed with the registered schema.
    StructureMismatch,
    /// The handler ended abnormally; carries the payload.
    HandlerPanicked(String),
}

/// The handler invocation a matched node calls for, by interaction kind.
#[derive(Clone, Copy, PartialEq, Eq, Structural, Debug)]
pub enum PlannedAction {
    /// Invoke the node's slash handler with the residual options.
    Slash,
    /// Invoke the node's user context-menu handler on this user.
    ContextUser(u64),
    /// Invoke the node's message context-menu handler on this message.
    ContextMessage(u64),
    /// Invoke nothing: the interaction kind is unknown to this library and
    /// is ignored as a forward-compatible no-op.
    Ignore,
}

/// Which handler invocation the node and the interaction kind agree on;
/// `None` when the declared actions and the live interaction disagree —
/// a chat invocation without a slash handler, or a context-menu click
/// whose declared action kind or resolved target does not match.
pub open spec fn selected_action(
    node: CommandNode,
    kind: InteractionKind,
    target: Option<ResolvedTarget>,
) -> Option<PlannedAction> {
    match kind {
        InteractionKind::ChatInput => if node.has_slash_action {
            Some(PlannedAction::Slash)
        } else {
            None
        },
        InteractionKind::User => if node.context_menu_action
            == Some(ContextMenuActionKind::User) && target matches Some(
            ResolvedTarget::User(u),
        ) {
            Some(PlannedAction::ContextUser(target->Some_0->User_0))
        } else {
            None
        },
        InteractionKind::Message => if node.context_menu_action
            == Some(ContextMenuActionKind::Message) && target matches Some(
            ResolvedTarget::Message(m),
        ) {
            Some(PlannedAction::ContextMessage(target->Some_0->Message_0))
        } else {
            None
        },
        InteractionKind::Unknown => Some(PlannedAction::Ignore),
    }
}

/// Selects the handler invocation for a matched node, or reports the
/// structure mismatch.
pub fn select_action(
    node: &CommandNode,
    kind: InteractionKind,
    target: &Option<ResolvedTarget>,
) -> (r: Option<PlannedAction>)
    ensures
        r == selected_action(*node, kind, *target),
{
    match kind {
        InteractionKind::ChatInput => if node.has_slash_action {
            Some(PlannedAction::Slash)
        } else {
            None
        },
        InteractionKind::User => {
            match (&node.context_menu_action, target) {
                (Some(ContextMenuActionKind::User), Some(ResolvedTarget::User(u))) => Some(
                    PlannedAction::ContextUser(*u),
                ),
                _ => None,
            }
        },
        InteractionKind::Message => {
            match (&node.context_menu_action, target) {
                (Some(ContextMenuActionKind::Message), Some(ResolvedTarget::Message(m))) => Some(
                    PlannedAction::ContextMessage(*m),
                ),
                _ => None,
            }
        },
        InteractionKind::Unknown => Some(PlannedAction::Ignore),
    }
}

/// What running one matched command answers, given how the pipeline, the
/// action selection and the handler went. The pipeline is consulted on the
/// tracker state the run started from; `handler` is what the handler
/// reports when it is reached.
pub open spec fn command_run_result(
    node: CommandNode,
    input: AdmissionInput,
    ids: InvokerIds,
    tracker: CooldownTracker,
    now: u64,
    kind: InteractionKind,
    target: Option<ResolvedTarget>,
    handler: HandlerOutcome,
    r: Result<(), FrameworkError>,
) -> bool {
    match admission_rejection(input, node.cooldown, node.id, ids, tracker, now) {
        Some(reason) => r matches Err(FrameworkError::CommandCheckFailed { reason: rr }) && rr
            == reason,
        None => match selected_action(node, kind, target) {
            None => r matches Err(FrameworkError::CommandStructureMismatch { .. }),
            Some(PlannedAction::Ignore) => r matches Ok(()),
            Some(_) => match handler {
                HandlerOutcome::Success => r matches Ok(()),
                HandlerOutcome::Error(e) => r matches Err(FrameworkError::CommandError {
                    error: err,
                }) && err@ == e@,
                HandlerOutcome::Panicked(p) => r matches Err(FrameworkError::CommandPanic {
                    payload: pl,
                }) && pl@ == p@,
            },
        },
    }
}

/// `command_run_result`, lifted over the resolver's answer: a failed
/// resolution is the unknown-interaction error and nothing else happens.
pub open spec fn dispatch_result(
    resolution: Option<Resolution>,
    input: AdmissionInput,
    ids: InvokerIds,
    tracker: CooldownTracker,
    now: u64,
    kind: InteractionKind,
    target: Option<ResolvedTarget>,
    handler: HandlerOutcome,
    r: Result<(), FrameworkError>,
) -> bool {
    match resolution {
        None => r matches Err(FrameworkError::UnknownInteraction),
        Some(res) => command_run_result(res.node, input, ids, tracker, now, kind, target, handler, r),
    }
}

/// How the cooldown tracker ends after one run: stamped with `now` on
/// every applicable scope exactly when the pipeline admitted the
/// invocation, untouched otherwise. Every other key keeps its stamp, so a
/// run — however it ends — never disturbs an unrelated invocation.
pub open spec fn command_run_stamps(
    node: CommandNode,
    input: AdmissionInput,
    ids: InvokerIds,
    before: CooldownTracker,
    now: u64,
    after: Map<CooldownKey, u64>,
) -> bool {
    if admission_rejection(input, node.cooldown, node.id, ids, before, now) is None {
        after == stamped_map(before@, node.cooldown, node.id, ids, now)
    } else {
        after == before@
    }
}

/// `command_run_stamps`, lifted over the resolver's answer.
pub open spec fn dispatch_stamps(
    resolution: Option<Resolution>,
    input: AdmissionInput,
    ids: InvokerIds,
    before: CooldownTracker,
    now: u64,
    after: Map<CooldownKey, u64>,
) -> bool {
    match resolution {
        None => after == before@,
        Some(res) => command_run_stamps(res.node, input, ids, before, now, after),
    }
}

/// Parses an interaction into its matched command: the leaf node and the
/// option list that belongs to it, with the ancestors' names pushed onto
/// `parent_names`. No match is an unknown interaction, and no hook runs
/// for it.
pub fn extract_command<'a, 'b>(
    commands: &'a Vec<CommandNode>,
    interaction: &'b Interaction,
    parent_names: &mut Vec<String>,
) -> (r: Result<(&'a CommandNode, &'b Vec<ResolvedOption>), FrameworkError>)
    ensures
        match resolve_spec(
            commands@,
            interaction.name@,
            interaction.options@,
            old(parent_names).deep_view(),
        ) {
            None => r matches Err(FrameworkError::UnknownInteraction) && final(parent_names)@
                == old(parent_names)@,
            Some(resolution) => r matches Ok((node, residual)) && *node == resolution.node
                && residual@ == resolution.residual && final(parent_names).deep_view()
                == resolution.parents,
        },
{
    match find_matching_command(
        &interaction.name,
        &interaction.options,
        commands,
        parent_names,
    ) {
        Some((node, residual)) => Ok((node, residual)),
        None => Err(FrameworkError::UnknownInteraction),
    }
}

/// Parses an interaction into its matched command and runs the admission
/// pipeline once, without committing: the fail-fast checkpoint before any
/// deferred acknowledgement is sent.
pub fn extract_command_and_run_checks<'a, 'b>(
    commands: &'a Vec<CommandNode>,
    interaction: &'b Interaction,
    input: &AdmissionInput,
    ids: &InvokerIds,
    tracker: &mut CooldownTracker,
    now: u64,
    parent_names: &mut Vec<String>,
) -> (r: Result<(&'a CommandNode, &'b Vec<ResolvedOption>), FrameworkError>)
    requires
        old(tracker).wf(),
    ensures
        final(tracker).wf(),
        final(tracker)@ == old(tracker)@,
        match resolve_spec(
            commands@,
            interaction.name@,
            interaction.options@,
            old(parent_names).deep_view(),
        ) {
            None => r matches Err(FrameworkError::UnknownInteraction) && final(parent_names)@
                == old(parent_names)@,
            Some(resolution) => final(parent_names).deep_view() == resolution.parents
                && match admission_rejection(
                *input,
                resolution.node.cooldown,
                resolution.node.id,
                *ids,
                *old(tracker),
                now,
            ) {
                Some(reason) => r matches Err(FrameworkError::CommandCheckFailed { reason: rr })
                    && rr == reason,
                None => r matches Ok((node, residual)) && *node == resolution.node && residual@
                    == resolution.residual,
            },
        },
{
    let (node, residual) = match extract_command(commands, interaction, parent_names) {
        Ok(found) => found,
        Err(e) => {
            return Err(e);
        },
    };
    match check_permissions_and_cooldown(input, &node.cooldown, node.id, ids, tracker, now, false) {
        Ok(()) => Ok((node, residual)),
        Err(reason) => Err(FrameworkError::CommandCheckFailed { reason }),
    }
}

/// Runs one extracted command: the committing pipeline pass, the selection
/// of the handler matching the interaction kind, and the conversion of the
/// handler's report into the dispatch result. The embedding fires the
/// `pre_command` hook once the committing pass admits, runs the selected
/// handler in an isolated unit of work, reports what it did in `handler`,
/// and fires `post_command` only after a success.
pub fn run_command(
    node: &CommandNode,
    kind: InteractionKind,
    target: &Option<ResolvedTarget>,
    input: &AdmissionInput,
    ids: &InvokerIds,
    tracker: &mut CooldownTracker,
    now: u64,
    handler: HandlerOutcome,
) -> (r: Result<(), FrameworkError>)
    requires
        old(tracker).wf(),
    ensures
        final(tracker).wf(),
        command_run_result(*node, *input, *ids, *old(tracker), now, kind, *target, handler, r),
        command_run_stamps(*node, *input, *ids, *old(tracker), now, final(tracker)@),
{
    match check_permissions_and_cooldown(input, &node.cooldown, node.id, ids, tracker, now, true) {
        Ok(()) => {},
        Err(reason) => {
            return Err(FrameworkError::CommandCheckFailed { reason });
        },
    }
    // The embedding fires `pre_command` here, after the committing pass.
    let action = match select_action(node, kind, target) {
        Some(a) => a,
        None => {
            return Err(FrameworkError::CommandStructureMismatch {
                description: String::from_str(
                    "interaction kind has no matching action or no matching target",
                ),
            });
        },
    };
    match action {
        PlannedAction::Ignore => Ok(()),
        _ => match handler {
            HandlerOutcome::Success => Ok(()),
            HandlerOutcome::Error(error) => Err(FrameworkError::CommandError { error }),
            HandlerOutcome::Panicked(payload) => Err(FrameworkError::CommandPanic { payload }),
        },
    }
}

/// Dispatches one interaction end to end: resolution, the fail-fast
/// pipeline pass, the committing pass, handler selection, and the
/// conversion of the handler's report. The handler runs in the embedding,
/// isolated; its abnormal end arrives as a report and leaves here as a
/// `CommandPanic` error — it never unwinds through the dispatcher, so the
/// dispatch after it starts from a clean state.
pub fn dispatch_interaction(
    commands: &Vec<CommandNode>,
    interaction: &Interaction,
    input: &AdmissionInput,
    ids: &InvokerIds,
    tracker: &mut CooldownTracker,
    now: u64,
    parent_names: &mut Vec<String>,
    handler: HandlerOutcome,
) -> (r: Result<(), FrameworkError>)
    requires
        old(tracker).wf(),
    ensures
        final(tracker).wf(),
        match resolve_spec(
            commands@,
            interaction.name@,
            interaction.options@,
            old(parent_names).deep_view(),
        ) {
            None => final(parent_names)@ == old(parent_names)@,
            Some(resolution) => final(parent_names).deep_view() == resolution.parents,
        },
        dispatch_result(
            resolve_spec(
                commands@,
                interaction.name@,
                interaction.options@,
                old(parent_names).deep_view(),
            ),
            *input,
            *ids,
            *old(tracker),
            now,
            interaction.kind,
            interaction.target,
            handler,
            r,
        ),
        dispatch_stamps(
            resolve_spec(
                commands@,
                interaction.name@,
                interaction.options@,
                old(parent_names).deep_view(),
            ),
            *input,
            *ids,
            *old(tracker),
            now,
            final(tracker)@,
        ),
{
    let (node, _residual) = match extract_command_and_run_checks(
        commands,
        interaction,
        input,
        ids,
        tracker,
        now,
        parent_names,
    ) {
        Ok(found) => found,
        Err(e) => {
            return Err(e);
        },
    };
    run_command(node, interaction.kind, &interaction.target, input, ids, tracker, now, handler)
}

/// The structured outcome a dispatch result denotes.
pub open spec fn outcome_of(r: Result<(), FrameworkError>) -> DispatchOutcome {
    match r {
        Ok(()) => DispatchOutcome::Executed(Ok(())),
        Err(FrameworkError::UnknownInteraction) => DispatchOutcome::UnknownCommand,
        Err(FrameworkError::CommandStructureMismatch { .. }) => DispatchOutcome::StructureMismatch,
        Err(FrameworkError::CommandCheckFailed { reason }) => DispatchOutcome::Rejected(reason),
        Err(FrameworkError::CommandPanic { payload }) => DispatchOutcome::HandlerPanicked(payload),
        Err(FrameworkError::CommandError { error }) => DispatchOutcome::Executed(Err(error)),
    }
}

/// Converts a dispatch result into the structured outcome, consuming it.
pub fn dispatch_outcome(r: Result<(), FrameworkError>) -> (o: DispatchOutcome)
    ensures
        o == outcome_of(r),
{
    match r {
        Ok(()) => DispatchOutcome::Executed(Ok(())),
        Err(FrameworkError::UnknownInteraction) => DispatchOutcome::UnknownCommand,
        Err(FrameworkError::CommandStructureMismatch { description: _ }) =>
            DispatchOutcome::StructureMismatch,
        Err(FrameworkError::CommandCheckFailed { reason }) => DispatchOutcome::Rejected(reason),
        Err(FrameworkError::CommandPanic { payload }) => DispatchOutcome::HandlerPanicked(payload),
        Err(FrameworkError::CommandError { error }) => DispatchOutcome::Executed(Err(error)),
    }
}

/// The per-invocation one-shot response slot: an invocation may send
/// exactly one initial response; everything further is a follow-up. The
/// embedding holds one slot per invocation and shares it between the
/// handler, the pipeline's error path and the hooks.
pub struct ResponseSlot {
    sent: bool,
}

impl ResponseSlot {
    /// Whether the initial response has been sent.
    pub closed spec fn has_sent(&self) -> bool {
        self.sent
    }

    /// A fresh slot: nothing sent yet.
    pub fn new() -> (r: ResponseSlot)
        ensures
            !r.has_sent(),
    {
        ResponseSlot { sent: false }
    }

    /// Claims the right to send the initial response. Grants it exactly
    /// when nothing was sent before, and from then on the slot stays
    /// spent, so no second claim is ever granted.
    pub fn try_send_initial(&mut self) -> (granted: bool)
        ensures
            granted == !old(self).has_sent(),
            final(self).has_sent(),
    {
        let granted = !self.sent;
        self.sent = true;
        granted
    }

    /// Whether a follow-up may be sent: only once the initial response is
    /// out.
    pub fn can_follow_up(&self) -> (r: bool)
        ensures
            r == self.has_sent(),
    {
        self.sent
    }
}

/// The one-initial-response rule: of two claims on the same slot, the
/// second is never granted — at most one claim in any sequence wins.
pub proof fn lemma_initial_response_once(
    s0: ResponseSlot,
    s1: ResponseSlot,
    g1: bool,
    s2: ResponseSlot,
    g2: bool,
)
    requires
        g1 == !s0.has_sent() && s1.has_sent(),
        g2 == !s1.has_sent() && s2.has_sent(),
    ensures
        !(g1 && g2),
        !g2,
{
}

} // verus!
