//! Tests for the dispatcher: handler selection, panic isolation, the
//! structured outcome, and the one-shot response slot.

use poise::checks::{AdmissionInput, CheckVerdict, InvokerIds, RejectionReason};
use poise::cooldown::{CooldownConfig, CooldownTracker};
use poise::dispatch::{
    dispatch_interaction, dispatch_outcome, run_command, DispatchOutcome, FrameworkError,
    HandlerOutcome, PlannedAction, ResponseSlot, select_action,
};
use poise::interaction::{Interaction, InteractionKind, ResolvedTarget};
use poise::tree::{CommandNode, ContextMenuActionKind};

fn leaf(id: u64, name: &str) -> CommandNode {
    CommandNode {
        id,
        name: name.to_string(),
        aliases: Vec::new(),
        context_menu_name: None,
        parameters: Vec::new(),
        subcommands: Vec::new(),
        has_slash_action: true,
        context_menu_action: None,
        ephemeral: false,
        cooldown: CooldownConfig::none(),
    }
}

fn permissive_input() -> AdmissionInput {
    AdmissionInput {
        global_check: CheckVerdict::Allow,
        command_check: None,
        owners_only: false,
        invoker_is_owner: false,
        required_permissions: 0,
        invoker_permissions: 0,
    }
}

fn ids() -> InvokerIds {
    InvokerIds {
        user: 42,
        guild: None,
        channel: 5,
    }
}

fn chat(name: &str) -> Interaction {
    Interaction {
        name: name.to_string(),
        kind: InteractionKind::ChatInput,
        options: Vec::new(),
        target: None,
    }
}

#[test]
fn panicking_handler_yields_handler_panicked_outcome() {
    let tree = vec![leaf(1, "boom")];
    let mut tracker = CooldownTracker::new();
    let mut parents = Vec::new();
    let r = dispatch_interaction(
        &tree,
        &chat("boom"),
        &permissive_input(),
        &ids(),
        &mut tracker,
        100,
        &mut parents,
        HandlerOutcome::Panicked("exploded".to_string()),
    );
    match &r {
        Err(FrameworkError::CommandPanic { payload }) => assert_eq!(payload, "exploded"),
        _ => panic!("a handler panic must surface as the panic outcome"),
    }
    match dispatch_outcome(r) {
        DispatchOutcome::HandlerPanicked(payload) => assert_eq!(payload, "exploded"),
        _ => panic!("the structured outcome must be the panic variant"),
    }
}

#[test]
fn panic_does_not_prevent_a_subsequent_unrelated_dispatch() {
    let tree = vec![leaf(1, "boom"), leaf(2, "fine")];
    let mut tracker = CooldownTracker::new();
    let mut parents = Vec::new();
    let r = dispatch_interaction(
        &tree,
        &chat("boom"),
        &permissive_input(),
        &ids(),
        &mut tracker,
        100,
        &mut parents,
        HandlerOutcome::Panicked("exploded".to_string()),
    );
    assert!(r.is_err());

    // The unrelated command dispatches normally afterwards.
    let mut parents = Vec::new();
    let r = dispatch_interaction(
        &tree,
        &chat("fine"),
        &permissive_input(),
        &ids(),
        &mut tracker,
        101,
        &mut parents,
        HandlerOutcome::Success,
    );
    assert!(r.is_ok());
}

#[test]
fn handler_error_is_surfaced_unmodified() {
    let tree = vec![leaf(1, "fail")];
    let mut tracker = CooldownTracker::new();
    let mut parents = Vec::new();
    let r = dispatch_interaction(
        &tree,
        &chat("fail"),
        &permissive_input(),
        &ids(),
        &mut tracker,
        100,
        &mut parents,
        HandlerOutcome::Error("the handler's own error".to_string()),
    );
    match dispatch_outcome(r) {
        DispatchOutcome::Executed(Err(e)) => assert_eq!(e, "the handler's own error"),
        _ => panic!("a handler error must come back unmodified"),
    }
}

#[test]
fn check_rejection_stops_dispatch_before_the_handler() {
    let tree = vec![leaf(1, "locked")];
    let mut tracker = CooldownTracker::new();
    let mut input = permissive_input();
    input.owners_only = true;
    let mut parents = Vec::new();
    let r = dispatch_interaction(
        &tree,
        &chat("locked"),
        &input,
        &ids(),
        &mut tracker,
        100,
        &mut parents,
        HandlerOutcome::Success,
    );
    match dispatch_outcome(r) {
        DispatchOutcome::Rejected(RejectionReason::NotOwner) => {}
        _ => panic!("an owners-only command must reject a non-owner"),
    }
}

#[test]
fn user_context_menu_on_message_only_node_is_structure_mismatch() {
    let mut node = leaf(1, "inspect");
    node.has_slash_action = false;
    node.context_menu_action = Some(ContextMenuActionKind::Message);
    let tree = vec![node];
    let mut tracker = CooldownTracker::new();
    let mut parents = Vec::new();
    let interaction = Interaction {
        name: "inspect".to_string(),
        kind: InteractionKind::User,
        options: Vec::new(),
        target: Some(ResolvedTarget::User(77)),
    };
    let r = dispatch_interaction(
        &tree,
        &interaction,
        &permissive_input(),
        &ids(),
        &mut tracker,
        100,
        &mut parents,
        HandlerOutcome::Success,
    );
    match dispatch_outcome(r) {
        DispatchOutcome::StructureMismatch => {}
        _ => panic!("a target of the wrong kind must be a structure mismatch"),
    }
}

#[test]
fn matching_context_menu_selects_the_target() {
    let mut node = leaf(1, "inspect");
    node.has_slash_action = false;
    node.context_menu_action = Some(ContextMenuActionKind::User);
    assert_eq!(
        select_action(&node, InteractionKind::User, &Some(ResolvedTarget::User(77))),
        Some(PlannedAction::ContextUser(77))
    );
    assert_eq!(
        select_action(&node, InteractionKind::Message, &Some(ResolvedTarget::Message(5))),
        None
    );
    assert_eq!(select_action(&node, InteractionKind::ChatInput, &None), None);
}

#[test]
fn unknown_interaction_kind_is_a_forward_compatible_no_op() {
    let tree = vec![leaf(1, "future")];
    let mut tracker = CooldownTracker::new();
    let mut parents = Vec::new();
    let interaction = Interaction {
        name: "future".to_string(),
        kind: InteractionKind::Unknown,
        options: Vec::new(),
        target: None,
    };
    let r = dispatch_interaction(
        &tree,
        &interaction,
        &permissive_input(),
        &ids(),
        &mut tracker,
        100,
        &mut parents,
        HandlerOutcome::Panicked("never consulted".to_string()),
    );
    assert!(r.is_ok());
}

#[test]
fn slash_node_without_action_is_structure_mismatch() {
    let mut node = leaf(1, "ghost");
    node.has_slash_action = false;
    let mut tracker = CooldownTracker::new();
    let r = run_command(
        &node,
        InteractionKind::ChatInput,
        &None,
        &permissive_input(),
        &ids(),
        &mut tracker,
        100,
        HandlerOutcome::Success,
    );
    match r {
        Err(FrameworkError::CommandStructureMismatch { .. }) => {}
        _ => panic!("a chat invocation without a slash handler must mismatch"),
    }
}

#[test]
fn response_slot_grants_the_initial_response_exactly_once() {
    let mut slot = ResponseSlot::new();
    assert!(!slot.can_follow_up());
    assert!(slot.try_send_initial());
    assert!(!slot.try_send_initial());
    assert!(!slot.try_send_initial());
    assert!(slot.can_follow_up());
}
