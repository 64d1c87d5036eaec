//! The autocomplete sub-dispatch.
//!
//! An autocomplete event resolves through the same tree walk as a command,
//! but ends at a suggestion generator instead of a handler: the single
//! option the remote side flags as focused is mapped to the declared
//! parameter of the same name, that parameter's generator is invoked with
//! the partial input, and the suggestions — capped and in order — go out
//! through the one-shot response slot. A missing focus flag or an
//! undeclared generator is a valid no-op; only a parameter name the schema
//! does not know is a structure mismatch. Generator failures are never
//! surfaced to the remote user: there is no error channel for suggestion
//! requests.

use vstd::prelude::*;
use crate::checks::{
    admission_rejection, check_permissions_and_cooldown, AdmissionInput, InvokerIds,
};
use crate::cooldown::CooldownTracker;
use crate::dispatch::FrameworkError;
use crate::interaction::{Interaction, ResolvedOption, ResolvedValue};
use crate::resolve::{find_matching_command, resolve_spec};
use crate::tree::{CommandNode, Parameter};

verus! {

/// The most suggestions one response may carry; later ones are dropped.
pub const MAX_SUGGESTIONS: usize = 25;

/// A single autocomplete choice, displayed by the remote UI.
#[derive(Clone, Debug)]
pub struct AutocompleteChoice<T> {
    /// The name shown to the user.
    pub name: String,
    /// The value sent back when the user picks the choice.
    pub value: T,
}

impl From<String> for AutocompleteChoice<String> {
    /// A choice that shows exactly the value it stands for.
    fn from(value: String) -> (r: AutocompleteChoice<String>) {
        AutocompleteChoice { name: value.clone(), value }
    }
}

impl vstd::std_specs::convert::FromSpecImpl<String> for AutocompleteChoice<String> {
    open spec fn obeys_from_spec() -> bool {
        true
    }

    open spec fn from_spec(value: String) -> AutocompleteChoice<String> {
        AutocompleteChoice { name: value, value }
    }
}

/// What the embedding reports of running a suggestion generator.
#[derive(Debug)]
pub enum GeneratorOutcome {
    /// The generator produced these suggestions, in order.
    Choices(Vec<AutocompleteChoice<String>>),
    /// The generator failed; autocomplete degrades to a logged no-op.
    Error(String),
    /// The generator's unit of work ended abnormally.
    Panicked(String),
}

/// What the autocomplete sub-dispatch asks the embedding to do.
#[derive(Debug)]
pub enum AutocompleteAction {
    /// Nothing: no outbound call is attempted.
    Nothing,
    /// Send these suggestions through the one-shot response slot.
    Respond(Vec<AutocompleteChoice<String>>),
}

/// How the sub-dispatch proceeds after the focused option is examined.
#[derive(Debug)]
pub enum AutocompletePlan {
    /// No option is flagged as focused: a remote-side protocol violation,
    /// logged and ignored.
    NoFocus,
    /// The focused parameter declares no generator: a valid no-op, and no
    /// generator is invoked.
    NoGenerator,
    /// Invoke the generator of the parameter at this index with this
    /// partial input.
    Invoke {
        /// The index of the focused parameter in the node's list.
        param: usize,
        /// The partial input typed so far.
        partial: String,
    },
}

/// The name and partial input of the first option the remote side flags
/// as focused.
pub open spec fn find_focused(opts: Seq<ResolvedOption>) -> Option<(Seq<char>, Seq<char>)>
    decreases opts.len(),
{
    if opts.len() == 0 {
        None
    } else {
        match opts[0].value {
            ResolvedValue::Autocomplete { partial, focused } => if focused {
                Some((opts[0].name@, partial@))
            } else {
                find_focused(opts.drop_first())
            },
            _ => find_focused(opts.drop_first()),
        }
    }
}

/// The index of the first declared parameter named `name`.
pub open spec fn param_index(params: Seq<Parameter>, name: Seq<char>) -> Option<int>
    decreases params.len(),
{
    if params.len() == 0 {
        None
    } else if params[0].name@ == name {
        Some(0)
    } else {
        match param_index(params.drop_first(), name) {
            None => None,
            Some(i) => Some(i + 1),
        }
    }
}

/// The suggestions that actually go out: the first `MAX_SUGGESTIONS`, in
/// the generator's order.
pub open spec fn capped(choices: Seq<AutocompleteChoice<String>>) -> Seq<
    AutocompleteChoice<String>,
> {
    if choices.len() <= MAX_SUGGESTIONS {
        choices
    } else {
        choices.take(MAX_SUGGESTIONS as int)
    }
}

/// Whether an option is the one the remote side flags as focused.
pub open spec fn is_focused(o: ResolvedOption) -> bool {
    o.value matches ResolvedValue::Autocomplete { partial, focused } && focused
}

/// The partial input carried by a focused option.
pub open spec fn partial_of(o: ResolvedOption) -> Seq<char> {
    match o.value {
        ResolvedValue::Autocomplete { partial, focused } => partial@,
        _ => Seq::empty(),
    }
}

proof fn lemma_find_focused_at(opts: Seq<ResolvedOption>, i: int)
    requires
        0 <= i < opts.len(),
        is_focused(opts[i]),
        forall|j: int| 0 <= j < i ==> !is_focused(opts[j]),
    ensures
        find_focused(opts) == Some((opts[i].name@, partial_of(opts[i]))),
    decreases opts.len(),
{
    if i > 0 {
        let rest = opts.drop_first();
        assert(forall|j: int| 0 <= j < rest.len() ==> rest[j] == opts[j + 1]);
        assert forall|j: int| 0 <= j < i - 1 implies !is_focused(rest[j]) by {
            assert(rest[j] == opts[j + 1]);
        }
        lemma_find_focused_at(rest, i - 1);
    }
}

proof fn lemma_find_focused_absent(opts: Seq<ResolvedOption>)
    requires
        forall|j: int| 0 <= j < opts.len() ==> !is_focused(opts[j]),
    ensures
        find_focused(opts) is None,
    decreases opts.len(),
{
    if opts.len() > 0 {
        let rest = opts.drop_first();
        assert(forall|j: int| 0 <= j < rest.len() ==> rest[j] == opts[j + 1]);
        lemma_find_focused_absent(rest);
    }
}

/// Finds the first option flagged as focused, returning its name and the
/// partial input.
pub fn find_focused_option(opts: &Vec<ResolvedOption>) -> (r: Option<(&String, &String)>)
    ensures
        match r {
            Some((name, partial)) => find_focused(opts@) == Some((name@, partial@)),
            None => find_focused(opts@) is None,
        },
{
    let n = opts.len();
    let mut i: usize = 0;
    while i < n
        invariant
            n == opts@.len(),
            i <= n,
            forall|j: int| 0 <= j < i ==> !is_focused(opts@[j]),
        decreases n - i,
    {
        let opt = &opts[i];
        match &opt.value {
            ResolvedValue::Autocomplete { partial, focused } => {
                if *focused {
                    proof {
                        lemma_find_focused_at(opts@, i as int);
                    }
                    return Some((&opt.name, partial));
                }
            },
            _ => {},
        }
        i += 1;
    }
    proof {
        lemma_find_focused_absent(opts@);
    }
    None
}

proof fn lemma_param_index_at(params: Seq<Parameter>, name: Seq<char>, i: int)
    requires
        0 <= i < params.len(),
        params[i].name@ == name,
        forall|j: int| 0 <= j < i ==> params[j].name@ != name,
    ensures
        param_index(params, name) == Some(i),
    decreases params.len(),
{
    if i > 0 {
        let rest = params.drop_first();
        assert(forall|j: int| 0 <= j < rest.len() ==> rest[j] == params[j + 1]);
        assert forall|j: int| 0 <= j < i - 1 implies rest[j].name@ != name by {
            assert(rest[j] == params[j + 1]);
        }
        lemma_param_index_at(rest, name, i - 1);
    }
}

proof fn lemma_param_index_absent(params: Seq<Parameter>, name: Seq<char>)
    requires
        forall|j: int| 0 <= j < params.len() ==> params[j].name@ != name,
    ensures
        param_index(params, name) is None,
    decreases params.len(),
{
    if params.len() > 0 {
        let rest = params.drop_first();
        assert(forall|j: int| 0 <= j < rest.len() ==> rest[j] == params[j + 1]);
        lemma_param_index_absent(rest, name);
    }
}

/// Finds the declared parameter matching the focused option's name.
pub fn find_focused_parameter(params: &Vec<Parameter>, name: &String) -> (r: Option<usize>)
    ensures
        match r {
            Some(i) => i < params@.len() && param_index(params@, name@) == Some(i as int),
            None => param_index(params@, name@) is None,
        },
{
    let n = params.len();
    let mut i: usize = 0;
    while i < n
        invariant
            n == params@.len(),
            i <= n,
            forall|j: int| 0 <= j < i ==> params@[j].name@ != name@,
        decreases n - i,
    {
        if params[i].name == *name {
            proof {
                lemma_param_index_at(params@, name@, i as int);
            }
            return Some(i);
        }
        i += 1;
    }
    proof {
        lemma_param_index_absent(params@, name@);
    }
    None
}

/// What one examined autocomplete event plans, given the node's declared
/// parameters and the leaf's options.
pub open spec fn planned_autocomplete(
    node: CommandNode,
    args: Seq<ResolvedOption>,
    r: Result<AutocompletePlan, FrameworkError>,
) -> bool {
    match find_focused(args) {
        None => r matches Ok(AutocompletePlan::NoFocus),
        Some((fname, partial)) => match param_index(node.parameters@, fname) {
            None => r matches Err(FrameworkError::CommandStructureMismatch { .. }),
            Some(i) => if !node.parameters@[i].has_autocomplete {
                r matches Ok(AutocompletePlan::NoGenerator)
            } else {
                r matches Ok(AutocompletePlan::Invoke { param, partial: p }) && param == i && p@
                    == partial
            },
        },
    }
}

/// Examines an autocomplete event up to the point where a generator would
/// run: the admission pipeline (never committing any cooldown stamp), the
/// focused option, and the matching declared parameter. A plan other than
/// `Invoke` asks the embedding for no generator call and no outbound call.
pub fn plan_autocomplete(
    node: &CommandNode,
    args: &Vec<ResolvedOption>,
    input: &AdmissionInput,
    ids: &InvokerIds,
    tracker: &mut CooldownTracker,
    now: u64,
) -> (r: Result<AutocompletePlan, FrameworkError>)
    requires
        old(tracker).wf(),
    ensures
        final(tracker).wf(),
        final(tracker)@ == old(tracker)@,
        match admission_rejection(*input, node.cooldown, node.id, *ids, *old(tracker), now) {
            Some(reason) => r matches Err(FrameworkError::CommandCheckFailed { reason: rr })
                && rr == reason,
            None => planned_autocomplete(*node, args@, r),
        },
{
    match check_permissions_and_cooldown(input, &node.cooldown, node.id, ids, tracker, now, false) {
        Ok(()) => {},
        Err(reason) => {
            return Err(FrameworkError::CommandCheckFailed { reason });
        },
    }
    let (focused_name, partial) = match find_focused_option(args) {
        Some(found) => found,
        None => {
            // The remote side broke protocol; the embedding logs it.
            return Ok(AutocompletePlan::NoFocus);
        },
    };
    let param = match find_focused_parameter(&node.parameters, focused_name) {
        Some(i) => i,
        None => {
            return Err(FrameworkError::CommandStructureMismatch {
                description: String::from_str(
                    "focused autocomplete parameter name not recognized",
                ),
            });
        },
    };
    if !node.parameters[param].has_autocomplete {
        return Ok(AutocompletePlan::NoGenerator);
    }
    Ok(AutocompletePlan::Invoke { param, partial: partial.clone() })
}

/// Drops every suggestion beyond the cap, keeping the order.
pub fn cap_suggestions(choices: Vec<AutocompleteChoice<String>>) -> (r: Vec<
    AutocompleteChoice<String>,
>)
    ensures
        r@ == capped(choices@),
{
    let mut choices = choices;
    let ghost orig = choices@;
    while choices.len() > MAX_SUGGESTIONS
        invariant
            capped(choices@) == capped(orig),
        decreases choices@.len(),
    {
        proof {
            assert(choices@.drop_last() =~= choices@.take(choices@.len() - 1));
            assert(choices@.take(MAX_SUGGESTIONS as int)
                =~= choices@.drop_last().take(MAX_SUGGESTIONS as int));
        }
        choices.pop();
    }
    choices
}

/// What goes out for each way the generator can end: its suggestions,
/// capped and in order; nothing on a generator error; and an abnormal end
/// surfaces as the isolated panic outcome.
pub open spec fn finished_autocomplete(
    generator: GeneratorOutcome,
    r: Result<AutocompleteAction, FrameworkError>,
) -> bool {
    match generator {
        GeneratorOutcome::Choices(c) => r matches Ok(AutocompleteAction::Respond(v)) && v@
            == capped(c@),
        GeneratorOutcome::Error(_) => r matches Ok(AutocompleteAction::Nothing),
        GeneratorOutcome::Panicked(p) => r matches Err(FrameworkError::CommandPanic {
            payload,
        }) && payload@ == p@,
    }
}

/// Converts what the generator reported into the outbound action. A
/// generator error is logged by the embedding and answered with silence,
/// never surfaced to the remote user.
pub fn finish_autocomplete(generator: GeneratorOutcome) -> (r: Result<
    AutocompleteAction,
    FrameworkError,
>)
    ensures
        finished_autocomplete(generator, r),
{
    match generator {
        GeneratorOutcome::Choices(c) => Ok(AutocompleteAction::Respond(cap_suggestions(c))),
        GeneratorOutcome::Error(_) => Ok(AutocompleteAction::Nothing),
        GeneratorOutcome::Panicked(payload) => Err(FrameworkError::CommandPanic { payload }),
    }
}

/// The whole autocomplete answer, given how the pipeline, the focus and
/// parameter lookup, and the generator went.
pub open spec fn autocomplete_answer(
    node: CommandNode,
    args: Seq<ResolvedOption>,
    input: AdmissionInput,
    ids: InvokerIds,
    tracker: CooldownTracker,
    now: u64,
    generator: GeneratorOutcome,
    r: Result<AutocompleteAction, FrameworkError>,
) -> bool {
    match admission_rejection(input, node.cooldown, node.id, ids, tracker, now) {
        Some(reason) => r matches Err(FrameworkError::CommandCheckFailed { reason: rr }) && rr
            == reason,
        None => match find_focused(args) {
            None => r matches Ok(AutocompleteAction::Nothing),
            Some((fname, partial)) => match param_index(node.parameters@, fname) {
                None => r matches Err(FrameworkError::CommandStructureMismatch { .. }),
                Some(i) => if !node.parameters@[i].has_autocomplete {
                    r matches Ok(AutocompleteAction::Nothing)
                } else {
                    finished_autocomplete(generator, r)
                },
            },
        },
    }
}

/// `autocomplete_answer`, lifted over the resolver's answer: a failed
/// resolution is the unknown-interaction error and nothing else happens.
pub open spec fn autocomplete_result(
    resolution: Option<crate::resolve::Resolution>,
    input: AdmissionInput,
    ids: InvokerIds,
    tracker: CooldownTracker,
    now: u64,
    generator: GeneratorOutcome,
    r: Result<AutocompleteAction, FrameworkError>,
) -> bool {
    match resolution {
        None => r matches Err(FrameworkError::UnknownInteraction),
        Some(res) => autocomplete_answer(
            res.node,
            res.residual,
            input,
            ids,
            tracker,
            now,
            generator,
            r,
        ),
    }
}

/// Runs the autocomplete callbacks for one extracted command: the
/// admission pipeline (committing nothing), focus and parameter lookup,
/// and the conversion of the generator's report. The embedding invokes
/// the generator only when the plan asks it to.
pub fn run_autocomplete(
    node: &CommandNode,
    args: &Vec<ResolvedOption>,
    input: &AdmissionInput,
    ids: &InvokerIds,
    tracker: &mut CooldownTracker,
    now: u64,
    generator: GeneratorOutcome,
) -> (r: Result<AutocompleteAction, FrameworkError>)
    requires
        old(tracker).wf(),
    ensures
        final(tracker).wf(),
        final(tracker)@ == old(tracker)@,
        autocomplete_answer(*node, args@, *input, *ids, *old(tracker), now, generator, r),
{
    match plan_autocomplete(node, args, input, ids, tracker, now) {
        Ok(AutocompletePlan::Invoke { param: _, partial: _ }) => finish_autocomplete(generator),
        Ok(_) => Ok(AutocompleteAction::Nothing),
        Err(e) => Err(e),
    }
}

/// Dispatches one autocomplete interaction end to end: resolution, the
/// non-committing pipeline pass, focus and parameter lookup, and the
/// generator's report. A generator's abnormal end becomes the isolated
/// panic outcome and never unwinds through the dispatcher. A failure to
/// transmit the returned action is the embedding's to log, never to
/// retry: suggestions are stale by the time a retry would land.
pub fn dispatch_autocomplete(
    commands: &Vec<CommandNode>,
    interaction: &Interaction,
    input: &AdmissionInput,
    ids: &InvokerIds,
    tracker: &mut CooldownTracker,
    now: u64,
    parent_names: &mut Vec<String>,
    generator: GeneratorOutcome,
) -> (r: Result<AutocompleteAction, FrameworkError>)
    requires
        old(tracker).wf(),
    ensures
        final(tracker).wf(),
        final(tracker)@ == old(tracker)@,
        match resolve_spec(
            commands@,
            interaction.name@,
            interaction.options@,
            old(parent_names).deep_view(),
        ) {
            None => final(parent_names)@ == old(parent_names)@,
            Some(resolution) => final(parent_names).deep_view() == resolution.parents,
        },
        autocomplete_result(
            resolve_spec(
                commands@,
                interaction.name@,
                interaction.options@,
                old(parent_names).deep_view(),
            ),
            *input,
            *ids,
            *old(tracker),
            now,
            generator,
            r,
        ),
{
    let (node, residual) = match find_matching_command(
        &interaction.name,
        &interaction.options,
        commands,
        parent_names,
    ) {
        Some(found) => found,
        None => {
            return Err(FrameworkError::UnknownInteraction);
        },
    };
    run_autocomplete(node, residual, input, ids, tracker, now, generator)
}

} // verus!
