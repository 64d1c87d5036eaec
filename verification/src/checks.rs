//! The admission pipeline run before a handler may execute.
//!
//! Stages run in a fixed order — the framework-global check, the
//! command-level check, owner and permission checks, then the cooldown
//! check — and the first rejection stops the pipeline. The pipeline runs
//! twice per interaction dispatch: once before the deferred
//! acknowledgement, without committing anything, and once immediately
//! before handler execution, committing the cooldown stamps only when
//! every stage allows. The custom predicates themselves are run by the
//! embedding; their verdicts arrive here as plain values.

use vstd::prelude::*;
use crate::cooldown::{CooldownConfig, CooldownKey, CooldownScope, CooldownTracker};

verus! {

/// The verdict of one custom check predicate, as reported by the
/// embedding. `Abstain` lets the pipeline continue just as `Allow` does,
/// without claiming anything.
#[derive(Clone, Copy, PartialEq, Eq, Structural, Debug)]
pub enum CheckVerdict {
    /// The predicate allows the invocation.
    Allow,
    /// The predicate does not care about this invocation.
    Abstain,
    /// The predicate rejects the invocation.
    Reject,
}

/// Why the pipeline turned an invocation away. Rejections are expected,
/// user-facing outcomes, not faults.
#[derive(Clone, Copy, PartialEq, Eq, Structural, Debug)]
pub enum RejectionReason {
    /// The framework-global check rejected the invocation.
    GlobalCheckFailed,
    /// The command's own check predicate rejected the invocation.
    CommandCheckFailed,
    /// The command is restricted to owners and the invoker is none.
    NotOwner,
    /// The invoker lacks a required permission.
    MissingPermissions,
    /// The command is still cooling down; carries the ticks to wait.
    Cooldown(u64),
}

/// The scope entities of one invocation, used to form cooldown keys.
#[derive(Clone, Copy, PartialEq, Eq, Structural, Debug)]
pub struct InvokerIds {
    /// The invoking user.
    pub user: u64,
    /// The guild the invocation came from, if any.
    pub guild: Option<u64>,
    /// The channel the invocation came from.
    pub channel: u64,
}

/// The check-stage inputs of one invocation: verdicts of the custom
/// predicates and the permission facts, all supplied by the embedding.
#[derive(Clone, Copy, PartialEq, Eq, Structural, Debug)]
pub struct AdmissionInput {
    /// Verdict of the framework-global check.
    pub global_check: CheckVerdict,
    /// Verdict of the command-level check predicate, when one is declared.
    pub command_check: Option<CheckVerdict>,
    /// Whether the command is restricted to the application's owners.
    pub owners_only: bool,
    /// Whether the invoker is one of the application's owners.
    pub invoker_is_owner: bool,
    /// Permission bits the command requires.
    pub required_permissions: u64,
    /// Permission bits the invoker holds.
    pub invoker_permissions: u64,
}

/// The cooldown key of one scope of one command.
pub open spec fn key_of(command: u64, scope: CooldownScope) -> CooldownKey {
    CooldownKey { command, scope }
}

/// The first cooldown scope, in the fixed order global, user, guild,
/// channel, member, that still rejects the invocation at `now`, with its
/// remaining wait.
pub open spec fn cooldown_rejection(
    tracker: CooldownTracker,
    cfg: CooldownConfig,
    command: u64,
    ids: InvokerIds,
    now: u64,
) -> Option<u64> {
    if cfg.global matches Some(d)
        && tracker.spec_remaining(key_of(command, CooldownScope::Global), now, d) is Some {
        tracker.spec_remaining(key_of(command, CooldownScope::Global), now, cfg.global->Some_0)
    } else if cfg.user matches Some(d)
        && tracker.spec_remaining(key_of(command, CooldownScope::User(ids.user)), now, d) is Some {
        tracker.spec_remaining(key_of(command, CooldownScope::User(ids.user)), now, cfg.user->Some_0)
    } else if cfg.guild matches Some(d) && ids.guild matches Some(g)
        && tracker.spec_remaining(key_of(command, CooldownScope::Guild(g)), now, d) is Some {
        tracker.spec_remaining(
            key_of(command, CooldownScope::Guild(ids.guild->Some_0)),
            now,
            cfg.guild->Some_0,
        )
    } else if cfg.channel matches Some(d)
        && tracker.spec_remaining(key_of(command, CooldownScope::Channel(ids.channel)), now, d)
        is Some {
        tracker.spec_remaining(
            key_of(command, CooldownScope::Channel(ids.channel)),
            now,
            cfg.channel->Some_0,
        )
    } else if cfg.member matches Some(d) && ids.guild matches Some(g)
        && tracker.spec_remaining(key_of(command, CooldownScope::Member(g, ids.user)), now, d)
        is Some {
        tracker.spec_remaining(
            key_of(command, CooldownScope::Member(ids.guild->Some_0, ids.user)),
            now,
            cfg.member->Some_0,
        )
    } else {
        None
    }
}

/// The stamps after an admitted invocation commits: every configured,
/// applicable scope of the command is stamped with `now`.
pub open spec fn stamped_map(
    stamps: Map<CooldownKey, u64>,
    cfg: CooldownConfig,
    command: u64,
    ids: InvokerIds,
    now: u64,
) -> Map<CooldownKey, u64> {
    let s = if cfg.global is Some {
        stamps.insert(key_of(command, CooldownScope::Global), now)
    } else {
        stamps
    };
    let s = if cfg.user is Some {
        s.insert(key_of(command, CooldownScope::User(ids.user)), now)
    } else {
        s
    };
    let s = if cfg.guild is Some && ids.guild is Some {
        s.insert(key_of(command, CooldownScope::Guild(ids.guild->Some_0)), now)
    } else {
        s
    };
    let s = if cfg.channel is Some {
        s.insert(key_of(command, CooldownScope::Channel(ids.channel)), now)
    } else {
        s
    };
    let s = if cfg.member is Some && ids.guild is Some {
        s.insert(key_of(command, CooldownScope::Member(ids.guild->Some_0, ids.user)), now)
    } else {
        s
    };
    s
}

/// Whether some applicable scope is configured with a duration that
/// `elapsed` ticks have not yet reached.
pub open spec fn some_scope_still_cooling(cfg: CooldownConfig, ids: InvokerIds, elapsed: int)
    -> bool {
    (cfg.global matches Some(d) && elapsed < d) || (cfg.user matches Some(d) && elapsed < d) || (
    cfg.guild matches Some(d) && ids.guild is Some && elapsed < d) || (cfg.channel matches Some(d)
        && elapsed < d) || (cfg.member matches Some(d) && ids.guild is Some && elapsed < d)
}

/// Whether every applicable configured scope's duration has fully elapsed.
pub open spec fn every_scope_elapsed(cfg: CooldownConfig, ids: InvokerIds, elapsed: int) -> bool {
    (cfg.global matches Some(d) ==> elapsed >= d) && (cfg.user matches Some(d) ==> elapsed >= d)
        && (cfg.guild matches Some(d) ==> (ids.guild is Some ==> elapsed >= d)) && (
    cfg.channel matches Some(d) ==> elapsed >= d) && (cfg.member matches Some(d) ==> (ids.guild
        is Some ==> elapsed >= d))
}

/// Two admitted-and-committed passes can never both happen within a
/// cooldown window: once a pass at `t1` is admitted and its stamps
/// committed, a second pass of the same command by the same scope
/// entities at `t2` — with some applicable scope's duration not yet
/// elapsed — is rejected by the cooldown stage, whatever the interleaving
/// that placed the two passes was.
pub proof fn lemma_pipeline_no_double_admission(
    before: CooldownTracker,
    after: CooldownTracker,
    input: AdmissionInput,
    cfg: CooldownConfig,
    command: u64,
    ids: InvokerIds,
    t1: u64,
    t2: u64,
)
    requires
        admission_rejection(input, cfg, command, ids, before, t1) is None,
        after@ == stamped_map(before@, cfg, command, ids, t1),
        some_scope_still_cooling(cfg, ids, crate::cooldown::elapsed_since(t1, t2)),
    ensures
        admission_rejection(input, cfg, command, ids, after, t2) matches Some(
            RejectionReason::Cooldown(rem),
        ) && rem > 0,
{
}

/// Once every applicable configured duration has elapsed since the
/// committed pass, the same invocation is admitted again.
pub proof fn lemma_pipeline_readmission(
    before: CooldownTracker,
    after: CooldownTracker,
    input: AdmissionInput,
    cfg: CooldownConfig,
    command: u64,
    ids: InvokerIds,
    t1: u64,
    t2: u64,
)
    requires
        admission_rejection(input, cfg, command, ids, before, t1) is None,
        after@ == stamped_map(before@, cfg, command, ids, t1),
        every_scope_elapsed(cfg, ids, crate::cooldown::elapsed_since(t1, t2)),
    ensures
        admission_rejection(input, cfg, command, ids, after, t2) is None,
{
}

/// One dispatch never disturbs an unrelated invocation: committing the
/// stamps of one command leaves every cooldown slot of every other
/// command exactly as it was — whatever the dispatch's outcome, a later
/// invocation of a different command starts from an undisturbed slot.
pub proof fn lemma_stamps_isolated(
    stamps: Map<CooldownKey, u64>,
    cfg: CooldownConfig,
    command: u64,
    ids: InvokerIds,
    now: u64,
    k: CooldownKey,
)
    requires
        k.command != command,
    ensures
        stamped_map(stamps, cfg, command, ids, now).contains_key(k) == stamps.contains_key(k),
        stamps.contains_key(k) ==> stamped_map(stamps, cfg, command, ids, now)[k] == stamps[k],
{
}

/// The first stage of the pipeline that rejects the invocation, if any,
/// with the stages in their fixed order.
pub open spec fn admission_rejection(
    input: AdmissionInput,
    cfg: CooldownConfig,
    command: u64,
    ids: InvokerIds,
    tracker: CooldownTracker,
    now: u64,
) -> Option<RejectionReason> {
    if input.global_check is Reject {
        Some(RejectionReason::GlobalCheckFailed)
    } else if input.command_check matches Some(CheckVerdict::Reject) {
        Some(RejectionReason::CommandCheckFailed)
    } else if input.owners_only && !input.invoker_is_owner {
        Some(RejectionReason::NotOwner)
    } else if input.required_permissions & input.invoker_permissions
        != input.required_permissions {
        Some(RejectionReason::MissingPermissions)
    } else {
        match cooldown_rejection(tracker, cfg, command, ids, now) {
            Some(rem) => Some(RejectionReason::Cooldown(rem)),
            None => None,
        }
    }
}

/// Runs the admission pipeline once. With `commit` set — the checkpoint
/// that proceeds to execution — an admitted invocation stamps every
/// applicable cooldown scope with `now` in the same step; without it, and
/// on every rejection, the tracker is left untouched.
pub fn check_permissions_and_cooldown(
    input: &AdmissionInput,
    cfg: &CooldownConfig,
    command: u64,
    ids: &InvokerIds,
    tracker: &mut CooldownTracker,
    now: u64,
    commit: bool,
) -> (r: Result<(), RejectionReason>)
    requires
        old(tracker).wf(),
    ensures
        final(tracker).wf(),
        match r {
            Ok(()) => admission_rejection(*input, *cfg, command, *ids, *old(tracker), now)
                is None && final(tracker)@ == if commit {
                stamped_map(old(tracker)@, *cfg, command, *ids, now)
            } else {
                old(tracker)@
            },
            Err(reason) => admission_rejection(*input, *cfg, command, *ids, *old(tracker), now)
                == Some(reason) && final(tracker)@ == old(tracker)@,
        },
{
    match input.global_check {
        CheckVerdict::Reject => {
            return Err(RejectionReason::GlobalCheckFailed);
        },
        _ => {},
    }
    match input.command_check {
        Some(CheckVerdict::Reject) => {
            return Err(RejectionReason::CommandCheckFailed);
        },
        _ => {},
    }
    if input.owners_only && !input.invoker_is_owner {
        return Err(RejectionReason::NotOwner);
    }
    if input.required_permissions & input.invoker_permissions != input.required_permissions {
        return Err(RejectionReason::MissingPermissions);
    }

    // The cooldown stage: find the first scope still cooling down.
    if let Some(d) = cfg.global {
        if let Some(rem) = tracker.remaining(
            CooldownKey { command, scope: CooldownScope::Global },
            now,
            d,
        ) {
            return Err(RejectionReason::Cooldown(rem));
        }
    }
    if let Some(d) = cfg.user {
        if let Some(rem) = tracker.remaining(
            CooldownKey { command, scope: CooldownScope::User(ids.user) },
            now,
            d,
        ) {
            return Err(RejectionReason::Cooldown(rem));
        }
    }
    if let Some(d) = cfg.guild {
        if let Some(g) = ids.guild {
            if let Some(rem) = tracker.remaining(
                CooldownKey { command, scope: CooldownScope::Guild(g) },
                now,
                d,
            ) {
                return Err(RejectionReason::Cooldown(rem));
            }
        }
    }
    if let Some(d) = cfg.channel {
        if let Some(rem) = tracker.remaining(
            CooldownKey { command, scope: CooldownScope::Channel(ids.channel) },
            now,
            d,
        ) {
            return Err(RejectionReason::Cooldown(rem));
        }
    }
    if let Some(d) = cfg.member {
        if let Some(g) = ids.guild {
            if let Some(rem) = tracker.remaining(
                CooldownKey { command, scope: CooldownScope::Member(g, ids.user) },
                now,
                d,
            ) {
                return Err(RejectionReason::Cooldown(rem));
            }
        }
    }

    // Every stage allowed. Commit the stamps only on the checkpoint that
    // proceeds to execution.
    if commit {
        if let Some(d) = cfg.global {
            let st = tracker.check_and_stamp(
                CooldownKey { command, scope: CooldownScope::Global },
                now,
                d,
            );
            assert(st is Ok);
        }
        if let Some(d) = cfg.user {
            let st = tracker.check_and_stamp(
                CooldownKey { command, scope: CooldownScope::User(ids.user) },
                now,
                d,
            );
            assert(st is Ok);
        }
        if let Some(d) = cfg.guild {
            if let Some(g) = ids.guild {
                let st = tracker.check_and_stamp(
                    CooldownKey { command, scope: CooldownScope::Guild(g) },
                    now,
                    d,
                );
                assert(st is Ok);
            }
        }
        if let Some(d) = cfg.channel {
            let st = tracker.check_and_stamp(
                CooldownKey { command, scope: CooldownScope::Channel(ids.channel) },
                now,
                d,
            );
            assert(st is Ok);
        }
        if let Some(d) = cfg.member {
            if let Some(g) = ids.guild {
                let st = tracker.check_and_stamp(
                    CooldownKey { command, scope: CooldownScope::Member(g, ids.user) },
                    now,
                    d,
                );
                assert(st is Ok);
            }
        }
    }
    Ok(())
}

} // verus!
