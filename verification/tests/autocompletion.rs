//! Tests for the autocomplete sub-dispatch.

use poise::autocomplete::{
    dispatch_autocomplete, finish_autocomplete, plan_autocomplete, AutocompleteAction,
    AutocompleteChoice, AutocompletePlan, GeneratorOutcome, MAX_SUGGESTIONS,
};
use poise::checks::{AdmissionInput, CheckVerdict, InvokerIds};
use poise::cooldown::{CooldownConfig, CooldownTracker};
use poise::dispatch::FrameworkError;
use poise::interaction::{Interaction, InteractionKind, ResolvedOption, ResolvedValue};
use poise::tree::{CommandNode, Parameter};

fn node_with_param(name: &str, has_autocomplete: bool) -> CommandNode {
    CommandNode {
        id: 1,
        name: "search".to_string(),
        aliases: Vec::new(),
        context_menu_name: None,
        parameters: vec![Parameter {
            name: name.to_string(),
            required: true,
            has_autocomplete,
        }],
        subcommands: Vec::new(),
        has_slash_action: true,
        context_menu_action: None,
        ephemeral: false,
        cooldown: CooldownConfig::none(),
    }
}

fn permissive_input() -> AdmissionInput {
    AdmissionInput {
        global_check: CheckVerdict::Allow,
        command_check: None,
        owners_only: false,
        invoker_is_owner: false,
        required_permissions: 0,
        invoker_permissions: 0,
    }
}

fn ids() -> InvokerIds {
    InvokerIds {
        user: 42,
        guild: None,
        channel: 5,
    }
}

fn focused(name: &str, partial: &str) -> ResolvedOption {
    ResolvedOption {
        name: name.to_string(),
        value: ResolvedValue::Autocomplete {
            partial: partial.to_string(),
            focused: true,
        },
    }
}

#[test]
fn parameter_without_generator_plans_no_invocation() {
    let node = node_with_param("query", false);
    let args = vec![focused("query", "par")];
    let mut tracker = CooldownTracker::new();
    let plan = plan_autocomplete(&node, &args, &permissive_input(), &ids(), &mut tracker, 100);
    match plan {
        Ok(AutocompletePlan::NoGenerator) => {}
        _ => panic!("a parameter without a generator must be a no-op plan"),
    }
}

#[test]
fn focused_parameter_with_generator_is_invoked_with_partial_input() {
    let node = node_with_param("query", true);
    let args = vec![focused("query", "par")];
    let mut tracker = CooldownTracker::new();
    let plan = plan_autocomplete(&node, &args, &permissive_input(), &ids(), &mut tracker, 100);
    match plan {
        Ok(AutocompletePlan::Invoke { param, partial }) => {
            assert_eq!(param, 0);
            assert_eq!(partial, "par");
        }
        _ => panic!("a declared generator must be invoked"),
    }
}

#[test]
fn missing_focus_flag_is_a_no_op() {
    let node = node_with_param("query", true);
    let args = vec![ResolvedOption {
        name: "query".to_string(),
        value: ResolvedValue::Autocomplete {
            partial: "par".to_string(),
            focused: false,
        },
    }];
    let mut tracker = CooldownTracker::new();
    let plan = plan_autocomplete(&node, &args, &permissive_input(), &ids(), &mut tracker, 100);
    match plan {
        Ok(AutocompletePlan::NoFocus) => {}
        _ => panic!("an interaction without a focused option must be a no-op"),
    }
}

#[test]
fn unrecognized_focused_name_is_structure_mismatch() {
    let node = node_with_param("query", true);
    let args = vec![focused("somethingelse", "par")];
    let mut tracker = CooldownTracker::new();
    let plan = plan_autocomplete(&node, &args, &permissive_input(), &ids(), &mut tracker, 100);
    match plan {
        Err(FrameworkError::CommandStructureMismatch { .. }) => {}
        _ => panic!("a focused name outside the schema must mismatch"),
    }
}

#[test]
fn generator_error_degrades_to_silence() {
    let r = finish_autocomplete(GeneratorOutcome::Error("backend gone".to_string()));
    match r {
        Ok(AutocompleteAction::Nothing) => {}
        _ => panic!("a generator error must never surface to the caller"),
    }
}

#[test]
fn generator_panic_is_isolated_as_the_panic_outcome() {
    let r = finish_autocomplete(GeneratorOutcome::Panicked("exploded".to_string()));
    match r {
        Err(FrameworkError::CommandPanic { payload }) => assert_eq!(payload, "exploded"),
        _ => panic!("a generator panic must surface as the isolated panic outcome"),
    }
}

#[test]
fn suggestions_are_capped_and_keep_their_order() {
    let choices: Vec<AutocompleteChoice<String>> = (0..40)
        .map(|i| AutocompleteChoice {
            name: format!("name {i}"),
            value: format!("value {i}"),
        })
        .collect();
    let r = finish_autocomplete(GeneratorOutcome::Choices(choices));
    match r {
        Ok(AutocompleteAction::Respond(sent)) => {
            assert_eq!(sent.len(), MAX_SUGGESTIONS);
            for (i, choice) in sent.iter().enumerate() {
                assert_eq!(choice.name, format!("name {i}"));
                assert_eq!(choice.value, format!("value {i}"));
            }
        }
        _ => panic!("successful suggestions must go out"),
    }
}

#[test]
fn few_suggestions_go_out_unchanged() {
    let choices = vec![AutocompleteChoice {
        name: "alpha".to_string(),
        value: "a".to_string(),
    }];
    let r = finish_autocomplete(GeneratorOutcome::Choices(choices));
    match r {
        Ok(AutocompleteAction::Respond(sent)) => {
            assert_eq!(sent.len(), 1);
            assert_eq!(sent[0].name, "alpha");
        }
        _ => panic!("successful suggestions must go out"),
    }
}

#[test]
fn autocomplete_dispatch_resolves_through_the_tree() {
    let tree = vec![node_with_param("query", true)];
    let interaction = Interaction {
        name: "search".to_string(),
        kind: InteractionKind::ChatInput,
        options: vec![focused("query", "par")],
        target: None,
    };
    let mut tracker = CooldownTracker::new();
    let mut parents = Vec::new();
    let r = dispatch_autocomplete(
        &tree,
        &interaction,
        &permissive_input(),
        &ids(),
        &mut tracker,
        100,
        &mut parents,
        GeneratorOutcome::Choices(vec![AutocompleteChoice {
            name: "paris".to_string(),
            value: "paris".to_string(),
        }]),
    );
    match r {
        Ok(AutocompleteAction::Respond(sent)) => assert_eq!(sent[0].name, "paris"),
        _ => panic!("a resolved autocomplete with suggestions must respond"),
    }
}

#[test]
fn autocomplete_never_stamps_a_cooldown() {
    let mut node = node_with_param("query", true);
    node.cooldown = CooldownConfig {
        global: Some(10),
        user: None,
        guild: None,
        channel: None,
        member: None,
    };
    let args = vec![focused("query", "par")];
    let mut tracker = CooldownTracker::new();
    let first = plan_autocomplete(&node, &args, &permissive_input(), &ids(), &mut tracker, 100);
    assert!(first.is_ok());
    // Had the first pass stamped, this one would be rejected.
    let second = plan_autocomplete(&node, &args, &permissive_input(), &ids(), &mut tracker, 100);
    assert!(second.is_ok());
}

#[test]
fn choice_from_string_shows_the_value_itself() {
    let c: AutocompleteChoice<String> = AutocompleteChoice::from("berlin".to_string());
    assert_eq!(c.name, "berlin");
    assert_eq!(c.value, "berlin");
}
