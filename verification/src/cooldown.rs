//! Per-command cooldown tracking.
//!
//! A cooldown is keyed by command identity plus a scope entity (global,
//! user, guild, channel or member). The tracker stores, for each key, the
//! tick at which the key last passed an admission checkpoint; a key is
//! admitted again only once the configured duration has elapsed. Checking
//! and stamping are one operation on the tracker, so two interleaved
//! invocations of the same key can never both pass within one duration.

use vstd::prelude::*;

verus! {

/// The scope entity a cooldown key is bound to.
#[derive(Clone, Copy, PartialEq, Eq, Structural, Debug)]
pub enum CooldownScope {
    /// One shared slot for everybody.
    Global,
    /// One slot per invoking user.
    User(u64),
    /// One slot per guild.
    Guild(u64),
    /// One slot per channel.
    Channel(u64),
    /// One slot per (guild, user) pair.
    Member(u64, u64),
}

/// The identity of one cooldown slot: a command plus a scope entity.
#[derive(Clone, Copy, PartialEq, Eq, Structural, Debug)]
pub struct CooldownKey {
    /// The command the slot belongs to, by its registered id.
    pub command: u64,
    /// The scope entity the slot is bound to.
    pub scope: CooldownScope,
}

/// The cooldown durations a command is configured with, in ticks of the
/// embedding's clock. A scope without a duration is never throttled.
#[derive(Clone, Copy, PartialEq, Eq, Structural, Debug)]
pub struct CooldownConfig {
    /// Duration of the global slot.
    pub global: Option<u64>,
    /// Duration of each per-user slot.
    pub user: Option<u64>,
    /// Duration of each per-guild slot.
    pub guild: Option<u64>,
    /// Duration of each per-channel slot.
    pub channel: Option<u64>,
    /// Duration of each per-member slot.
    pub member: Option<u64>,
}

impl CooldownConfig {
    /// A configuration that never throttles.
    pub fn none() -> (r: CooldownConfig)
        ensures
            r == (CooldownConfig {
                global: None,
                user: None,
                guild: None,
                channel: None,
                member: None,
            }),
    {
        CooldownConfig { global: None, user: None, guild: None, channel: None, member: None }
    }
}

/// The ticks elapsed from `last` to `now`; a clock that was turned back
/// counts as no time elapsed.
pub open spec fn elapsed_since(last: u64, now: u64) -> int {
    if now >= last {
        now - last
    } else {
        0
    }
}

/// The time remaining on one stamped slot: `Some` with the ticks still to
/// wait when the duration has not elapsed, `None` when the key is admitted.
pub open spec fn remaining_of(last: u64, now: u64, duration: u64) -> Option<u64> {
    if elapsed_since(last, now) < duration {
        Some((duration - elapsed_since(last, now)) as u64)
    } else {
        None
    }
}

/// The per-key timestamp store. Entries are created lazily on the first
/// checkpoint a key passes and are never evicted.
pub struct CooldownTracker {
    entries: Vec<(CooldownKey, u64)>,
}

impl CooldownTracker {
    /// The stamps as a map from key to the tick of the last admitted pass.
    pub closed spec fn view(&self) -> Map<CooldownKey, u64> {
        Self::stamps_of(self.entries@)
    }

    /// The map a list of entries denotes; a later entry for the same key
    /// wins, though a well-formed tracker never holds two.
    pub closed spec fn stamps_of(entries: Seq<(CooldownKey, u64)>) -> Map<CooldownKey, u64>
        decreases entries.len(),
    {
        if entries.len() == 0 {
            Map::empty()
        } else {
            Self::stamps_of(entries.drop_last()).insert(
                entries.last().0,
                entries.last().1,
            )
        }
    }

    /// Keys never repeat in the entry list.
    pub closed spec fn wf(&self) -> bool {
        forall|i: int, j: int|
            0 <= i < j < self.entries@.len() ==> self.entries@[i].0 != self.entries@[j].0
    }

    /// An empty tracker: no key has ever been stamped.
    pub fn new() -> (r: CooldownTracker)
        ensures
            r.wf(),
            r@ == Map::<CooldownKey, u64>::empty(),
    {
        CooldownTracker { entries: Vec::new() }
    }

    proof fn lemma_stamps_contain(entries: Seq<(CooldownKey, u64)>, i: int)
        requires
            0 <= i < entries.len(),
            forall|p: int, q: int| 0 <= p < q < entries.len() ==> entries[p].0 != entries[q].0,
        ensures
            Self::stamps_of(entries).contains_key(entries[i].0),
            Self::stamps_of(entries)[entries[i].0] == entries[i].1,
        decreases entries.len(),
    {
        if i + 1 == entries.len() {
        } else {
            Self::lemma_stamps_contain(entries.drop_last(), i);
        }
    }

    proof fn lemma_stamps_absent(entries: Seq<(CooldownKey, u64)>, k: CooldownKey)
        requires
            forall|i: int| 0 <= i < entries.len() ==> entries[i].0 != k,
        ensures
            !Self::stamps_of(entries).contains_key(k),
        decreases entries.len(),
    {
        if entries.len() > 0 {
            Self::lemma_stamps_absent(entries.drop_last(), k);
        }
    }

    proof fn lemma_stamps_update(entries: Seq<(CooldownKey, u64)>, i: int, v: u64)
        requires
            0 <= i < entries.len(),
            forall|p: int, q: int| 0 <= p < q < entries.len() ==> entries[p].0 != entries[q].0,
        ensures
            Self::stamps_of(entries.update(i, (entries[i].0, v)))
                == Self::stamps_of(entries).insert(entries[i].0, v),
        decreases entries.len(),
    {
        let updated = entries.update(i, (entries[i].0, v));
        if i + 1 == entries.len() {
            assert(updated.drop_last() =~= entries.drop_last());
        } else {
            Self::lemma_stamps_update(entries.drop_last(), i, v);
            assert(updated.drop_last() =~= entries.drop_last().update(i, (entries[i].0, v)));
            let k = entries[i].0;
            let lastk = entries.last().0;
            assert(updated.last() == entries.last());
            assert(Self::stamps_of(updated)
                == Self::stamps_of(entries.drop_last()).insert(k, v).insert(lastk, entries.last().1));
            assert(k != lastk);
            assert(Self::stamps_of(entries.drop_last()).insert(k, v).insert(lastk, entries.last().1)
                =~= Self::stamps_of(entries.drop_last()).insert(lastk, entries.last().1).insert(k, v));
        }
    }

    /// The index holding `key`, if any.
    fn find_entry(&self, key: CooldownKey) -> (r: Option<usize>)
        requires
            self.wf(),
        ensures
            match r {
                Some(i) => i < self.entries@.len() && self.entries@[i as int].0 == key
                    && self@.contains_key(key) && self@[key] == self.entries@[i as int].1,
                None => !self@.contains_key(key),
            },
    {
        let n = self.entries.len();
        let mut i: usize = 0;
        while i < n
            invariant
                n == self.entries@.len(),
                i <= n,
                self.wf(),
                forall|j: int| 0 <= j < i ==> self.entries@[j].0 != key,
            decreases n - i,
        {
            let (k, _) = self.entries[i];
            if k == key {
                proof {
                    Self::lemma_stamps_contain(self.entries@, i as int);
                }
                return Some(i);
            }
            i += 1;
        }
        proof {
            Self::lemma_stamps_absent(self.entries@, key);
        }
        None
    }

    /// The ticks still to wait before `key` is admitted at `now` under
    /// `duration`: `None` when it is admitted, which includes a key that was
    /// never stamped. Reading alone never stamps.
    pub fn remaining(&self, key: CooldownKey, now: u64, duration: u64) -> (r: Option<u64>)
        requires
            self.wf(),
        ensures
            r == self.spec_remaining(key, now, duration),
    {
        match self.find_entry(key) {
            None => None,
            Some(i) => {
                let (_, last) = self.entries[i];
                let gone: u64 = if now >= last {
                    now - last
                } else {
                    0
                };
                if gone < duration {
                    Some(duration - gone)
                } else {
                    None
                }
            },
        }
    }

    /// What `remaining` returns: the remaining wait of the stored stamp, or
    /// `None` for a key never stamped.
    pub open spec fn spec_remaining(&self, key: CooldownKey, now: u64, duration: u64) -> Option<u64> {
        if self@.contains_key(key) {
            remaining_of(self@[key], now, duration)
        } else {
            None
        }
    }

    /// Checks `key` at `now` under `duration` and, in the same step, stamps
    /// it when it is admitted. `Ok` means admitted and stamped; `Err` carries
    /// the ticks still to wait and leaves the tracker unchanged. Because the
    /// check and the stamp are one operation, a second pass over the same
    /// key within `duration` of an admitted one is always rejected.
    pub fn check_and_stamp(&mut self, key: CooldownKey, now: u64, duration: u64) -> (r: Result<
        (),
        u64,
    >)
        requires
            old(self).wf(),
        ensures
            final(self).wf(),
            match r {
                Ok(()) => old(self).spec_remaining(key, now, duration) is None
                    && final(self)@ == old(self)@.insert(key, now),
                Err(rem) => old(self).spec_remaining(key, now, duration) == Some(rem)
                    && final(self)@ == old(self)@,
            },
    {
        match self.find_entry(key) {
            None => {
                self.entries.push((key, now));
                proof {
                    assert(self.entries@.drop_last() =~= old(self).entries@);
                    assert forall|i: int| 0 <= i < old(self).entries@.len()
                        implies old(self).entries@[i].0 != key by {
                        if old(self).entries@[i].0 == key {
                            Self::lemma_stamps_contain(old(self).entries@, i);
                        }
                    }
                }
                Ok(())
            },
            Some(i) => {
                let (_, last) = self.entries[i];
                let gone: u64 = if now >= last {
                    now - last
                } else {
                    0
                };
                if gone < duration {
                    Err(duration - gone)
                } else {
                    proof {
                        Self::lemma_stamps_update(self.entries@, i as int, now);
                    }
                    self.entries[i].1 = now;
                    Ok(())
                }
            },
        }
    }
}

/// Two passes over the same key can never both be admitted within one
/// duration: once a pass at `t1` is admitted and stamped, any pass at `t2`
/// with less than `duration` ticks elapsed is rejected, and the rejection
/// names exactly the ticks still to wait.
pub proof fn lemma_no_double_admission(
    before: CooldownTracker,
    after: CooldownTracker,
    key: CooldownKey,
    t1: u64,
    t2: u64,
    duration: u64,
)
    requires
        after@ == before@.insert(key, t1),
        elapsed_since(t1, t2) < duration,
    ensures
        after.spec_remaining(key, t2, duration)
            == Some((duration - elapsed_since(t1, t2)) as u64),
{
}

/// Once a full duration has elapsed since the admitted stamp, the key is
/// admitted again.
pub proof fn lemma_readmission(
    before: CooldownTracker,
    after: CooldownTracker,
    key: CooldownKey,
    t1: u64,
    t2: u64,
    duration: u64,
)
    requires
        after@ == before@.insert(key, t1),
        elapsed_since(t1, t2) >= duration,
    ensures
        after.spec_remaining(key, t2, duration) is None,
{
}

} // verus!
