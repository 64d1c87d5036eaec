//! Tests for the cooldown tracker and the admission pipeline, driven by a
//! simulated clock.

use poise::checks::{
    check_permissions_and_cooldown, AdmissionInput, CheckVerdict, InvokerIds, RejectionReason,
};
use poise::cooldown::{CooldownConfig, CooldownKey, CooldownScope, CooldownTracker};

fn key() -> CooldownKey {
    CooldownKey {
        command: 7,
        scope: CooldownScope::User(42),
    }
}

fn permissive_input() -> AdmissionInput {
    AdmissionInput {
        global_check: CheckVerdict::Abstain,
        command_check: None,
        owners_only: false,
        invoker_is_owner: false,
        required_permissions: 0,
        invoker_permissions: 0,
    }
}

fn ids() -> InvokerIds {
    InvokerIds {
        user: 42,
        guild: Some(9),
        channel: 5,
    }
}

fn user_cooldown(d: u64) -> CooldownConfig {
    CooldownConfig {
        global: None,
        user: Some(d),
        guild: None,
        channel: None,
        member: None,
    }
}

#[test]
fn second_invocation_within_duration_is_rejected_with_remaining() {
    let mut tracker = CooldownTracker::new();
    assert_eq!(tracker.check_and_stamp(key(), 100, 10), Ok(()));
    // 4 ticks elapsed of 10: the rejection names the 6 still to wait.
    assert_eq!(tracker.check_and_stamp(key(), 104, 10), Err(6));
}

#[test]
fn invocations_a_full_duration_apart_both_pass_and_restamp() {
    let mut tracker = CooldownTracker::new();
    assert_eq!(tracker.check_and_stamp(key(), 100, 10), Ok(()));
    assert_eq!(tracker.check_and_stamp(key(), 110, 10), Ok(()));
    // The second pass re-stamped: 9 ticks after it, 1 tick remains.
    assert_eq!(tracker.check_and_stamp(key(), 119, 10), Err(1));
}

#[test]
fn interleaved_invocations_of_one_key_never_both_pass() {
    // Two simultaneous invocations of the same command by the same user:
    // each runs its check-and-stamp step at the same tick; exactly one of
    // the two is admitted.
    let mut tracker = CooldownTracker::new();
    let first = tracker.check_and_stamp(key(), 200, 60);
    let second = tracker.check_and_stamp(key(), 200, 60);
    assert_eq!(first, Ok(()));
    assert_eq!(second, Err(60));
}

#[test]
fn reading_remaining_never_stamps() {
    let mut tracker = CooldownTracker::new();
    assert_eq!(tracker.remaining(key(), 100, 10), None);
    assert_eq!(tracker.check_and_stamp(key(), 100, 10), Ok(()));
    assert_eq!(tracker.remaining(key(), 104, 10), Some(6));
    // The read did not move the stamp.
    assert_eq!(tracker.remaining(key(), 104, 10), Some(6));
}

#[test]
fn distinct_scope_entities_do_not_share_a_slot() {
    let mut tracker = CooldownTracker::new();
    let other = CooldownKey {
        command: 7,
        scope: CooldownScope::User(43),
    };
    assert_eq!(tracker.check_and_stamp(key(), 100, 10), Ok(()));
    assert_eq!(tracker.check_and_stamp(other, 100, 10), Ok(()));
}

#[test]
fn pipeline_checkpoint_without_commit_does_not_stamp() {
    let mut tracker = CooldownTracker::new();
    let input = permissive_input();
    let cfg = user_cooldown(10);
    let r = check_permissions_and_cooldown(&input, &cfg, 7, &ids(), &mut tracker, 100, false);
    assert_eq!(r, Ok(()));
    // Nothing was stamped, so the same checkpoint still passes.
    let r = check_permissions_and_cooldown(&input, &cfg, 7, &ids(), &mut tracker, 100, false);
    assert_eq!(r, Ok(()));
}

#[test]
fn pipeline_commit_stamps_and_rejects_with_remaining() {
    let mut tracker = CooldownTracker::new();
    let input = permissive_input();
    let cfg = user_cooldown(10);
    let r = check_permissions_and_cooldown(&input, &cfg, 7, &ids(), &mut tracker, 100, true);
    assert_eq!(r, Ok(()));
    let r = check_permissions_and_cooldown(&input, &cfg, 7, &ids(), &mut tracker, 103, true);
    assert_eq!(r, Err(RejectionReason::Cooldown(7)));
}

#[test]
fn pipeline_stages_run_in_fixed_order() {
    let mut tracker = CooldownTracker::new();
    let mut input = permissive_input();
    input.global_check = CheckVerdict::Reject;
    input.command_check = Some(CheckVerdict::Reject);
    input.owners_only = true;
    input.required_permissions = 0b1010;
    let cfg = user_cooldown(10);

    // The global check is consulted first.
    let r = check_permissions_and_cooldown(&input, &cfg, 7, &ids(), &mut tracker, 100, true);
    assert_eq!(r, Err(RejectionReason::GlobalCheckFailed));

    input.global_check = CheckVerdict::Allow;
    let r = check_permissions_and_cooldown(&input, &cfg, 7, &ids(), &mut tracker, 100, true);
    assert_eq!(r, Err(RejectionReason::CommandCheckFailed));

    input.command_check = Some(CheckVerdict::Allow);
    let r = check_permissions_and_cooldown(&input, &cfg, 7, &ids(), &mut tracker, 100, true);
    assert_eq!(r, Err(RejectionReason::NotOwner));

    input.invoker_is_owner = true;
    let r = check_permissions_and_cooldown(&input, &cfg, 7, &ids(), &mut tracker, 100, true);
    assert_eq!(r, Err(RejectionReason::MissingPermissions));

    input.invoker_permissions = 0b1110;
    let r = check_permissions_and_cooldown(&input, &cfg, 7, &ids(), &mut tracker, 100, true);
    assert_eq!(r, Ok(()));
}

#[test]
fn every_configured_scope_is_stamped_on_commit() {
    let mut tracker = CooldownTracker::new();
    let input = permissive_input();
    let cfg = CooldownConfig {
        global: Some(10),
        user: Some(10),
        guild: Some(10),
        channel: Some(10),
        member: Some(10),
    };
    let r = check_permissions_and_cooldown(&input, &cfg, 7, &ids(), &mut tracker, 100, true);
    assert_eq!(r, Ok(()));
    for scope in [
        CooldownScope::Global,
        CooldownScope::User(42),
        CooldownScope::Guild(9),
        CooldownScope::Channel(5),
        CooldownScope::Member(9, 42),
    ] {
        let k = CooldownKey { command: 7, scope };
        assert_eq!(tracker.remaining(k, 101, 10), Some(9));
    }
}

#[test]
fn guild_scopes_are_skipped_outside_a_guild() {
    let mut tracker = CooldownTracker::new();
    let input = permissive_input();
    let cfg = CooldownConfig {
        global: None,
        user: None,
        guild: Some(10),
        channel: None,
        member: Some(10),
    };
    let no_guild = InvokerIds {
        user: 42,
        guild: None,
        channel: 5,
    };
    let r = check_permissions_and_cooldown(&input, &cfg, 7, &no_guild, &mut tracker, 100, true);
    assert_eq!(r, Ok(()));
    // No slot exists, so an immediate second pass is admitted too.
    let r = check_permissions_and_cooldown(&input, &cfg, 7, &no_guild, &mut tracker, 100, true);
    assert_eq!(r, Ok(()));
}

#[test]
fn clock_turned_back_counts_as_no_time_elapsed() {
    let mut tracker = CooldownTracker::new();
    assert_eq!(tracker.check_and_stamp(key(), 100, 10), Ok(()));
    assert_eq!(tracker.check_and_stamp(key(), 95, 10), Err(10));
}
