//! Chat flood protection: one cooldown timer per chat channel.
use vstd::prelude::*;

verus! {

/// How long a channel stays closed after a message, in nanoseconds.
pub const CHAT_COOLDOWN_NANOS: u64 = 200_000_000;

/// The number of chat channels.
pub const CHAT_KIND_COUNT: usize = 22;

/// The chat channels of the game client.
#[derive(Clone, Copy, Debug, PartialEq, Eq, Hash, Structural)]
pub enum ChatKind {
    General,
    Shout,
    Whisper,
    Party,
    Clan,
    Gm,
    PetitionPlayer,
    PetitionGm,
    Trade,
    Alliance,
    Announcement,
    Boat,
    Friend,
    MsnChat,
    PartyMatchRoom,
    PartyRoomCommander,
    PartyRoomAll,
    HeroVoice,
    CriticalAnnounce,
    ScreenAnnounce,
    Battlefield,
    MpccRoom,
}

/// The position of a channel in a per-channel table.
pub open spec fn kind_index(k: ChatKind) -> nat {
    match k {
        ChatKind::General => 0,
        ChatKind::Shout => 1,
        ChatKind::Whisper => 2,
        ChatKind::Party => 3,
        ChatKind::Clan => 4,
        ChatKind::Gm => 5,
        ChatKind::PetitionPlayer => 6,
        ChatKind::PetitionGm => 7,
        ChatKind::Trade => 8,
        ChatKind::Alliance => 9,
        ChatKind::Announcement => 10,
        ChatKind::Boat => 11,
        ChatKind::Friend => 12,
        ChatKind::MsnChat => 13,
        ChatKind::PartyMatchRoom => 14,
        ChatKind::PartyRoomCommander => 15,
        ChatKind::PartyRoomAll => 16,
        ChatKind::HeroVoice => 17,
        ChatKind::CriticalAnnounce => 18,
        ChatKind::ScreenAnnounce => 19,
        ChatKind::Battlefield => 20,
        ChatKind::MpccRoom => 21,
    }
}

impl ChatKind {
    /// The position of this channel in a per-channel table.
    pub fn index(&self) -> (i: usize)
        ensures
            i == kind_index(*self),
            i < CHAT_KIND_COUNT,
    {
        match self {
            ChatKind::General => 0,
            ChatKind::Shout => 1,
            ChatKind::Whisper => 2,
            ChatKind::Party => 3,
            ChatKind::Clan => 4,
            ChatKind::Gm => 5,
            ChatKind::PetitionPlayer => 6,
            ChatKind::PetitionGm => 7,
            ChatKind::Trade => 8,
            ChatKind::Alliance => 9,
            ChatKind::Announcement => 10,
            ChatKind::Boat => 11,
            ChatKind::Friend => 12,
            ChatKind::MsnChat => 13,
            ChatKind::PartyMatchRoom => 14,
            ChatKind::PartyRoomCommander => 15,
            ChatKind::PartyRoomAll => 16,
            ChatKind::HeroVoice => 17,
            ChatKind::CriticalAnnounce => 18,
            ChatKind::ScreenAnnounce => 19,
            ChatKind::Battlefield => 20,
            ChatKind::MpccRoom => 21,
        }
    }
}

/// Two channels with the same table position are the same channel.
pub proof fn lemma_kind_index_injective(a: ChatKind, b: ChatKind)
    ensures
        kind_index(a) == kind_index(b) ==> a == b,
        kind_index(a) < CHAT_KIND_COUNT,
{
}

/// A one-shot countdown, in nanoseconds: it finishes once `elapsed`
/// reaches `duration`, and never runs past it.
#[derive(Clone, Copy, Debug, PartialEq, Eq)]
pub struct CooldownTimer {
    pub duration: u64,
    pub elapsed: u64,
}

impl CooldownTimer {
    pub open spec fn wf(self) -> bool {
        self.elapsed <= self.duration
    }

    pub open spec fn finished(self) -> bool {
        self.elapsed >= self.duration
    }

    /// Time left until the timer finishes.
    pub open spec fn left(self) -> nat {
        if self.finished() { 0 } else { (self.duration - self.elapsed) as nat }
    }

    /// The timer after `delta` more nanoseconds have passed.
    pub open spec fn ticked(self, delta: u64) -> CooldownTimer {
        if self.finished() || delta >= self.duration - self.elapsed {
            CooldownTimer { duration: self.duration, elapsed: self.duration }
        } else {
            CooldownTimer { duration: self.duration, elapsed: (self.elapsed + delta) as u64 }
        }
    }

    fn tick(&mut self, delta: u64)
        requires
            old(self).wf(),
        ensures
            *final(self) == old(self).ticked(delta),
            final(self).wf(),
    {
        if self.elapsed >= self.duration || delta >= self.duration - self.elapsed {
            self.elapsed = self.duration;
        } else {
            self.elapsed = self.elapsed + delta;
        }
    }
}

/// The timer that a message starts on its channel.
pub open spec fn fresh_cooldown() -> CooldownTimer {
    CooldownTimer { duration: CHAT_COOLDOWN_NANOS, elapsed: 0 }
}

/// Per-character chat cooldowns, one optional timer per channel.
pub struct ChatCooldown {
    timers: Vec<Option<CooldownTimer>>,
}

impl ChatCooldown {
    /// The timer of channel `k`, if a message was sent on it.
    pub closed spec fn timer(&self, k: ChatKind) -> Option<CooldownTimer> {
        self.timers@[kind_index(k) as int]
    }

    pub closed spec fn wf(&self) -> bool {
        &&& self.timers@.len() == CHAT_KIND_COUNT
        &&& forall|i: int|
            0 <= i < CHAT_KIND_COUNT ==> (#[trigger] self.timers@[i] matches Some(t) ==> t.wf()
                && t.duration == CHAT_COOLDOWN_NANOS)
    }

    /// Whether a message may be sent on channel `k` now.
    pub open spec fn may_send(&self, k: ChatKind) -> bool {
        match self.timer(k) {
            None => true,
            Some(t) => t.finished(),
        }
    }

    /// Nanoseconds left before channel `k` opens again.
    pub open spec fn left(&self, k: ChatKind) -> nat {
        match self.timer(k) {
            None => 0,
            Some(t) => t.left(),
        }
    }

    /// A cooldown table with no channel closed.
    pub fn new() -> (c: ChatCooldown)
        ensures
            c.wf(),
            forall|k: ChatKind| c.timer(k) is None,
    {
        let mut timers: Vec<Option<CooldownTimer>> = Vec::new();
        let mut i: usize = 0;
        while i < CHAT_KIND_COUNT
            invariant
                i <= CHAT_KIND_COUNT,
                timers@.len() == i,
                forall|j: int| 0 <= j < i ==> timers@[j] is None,
            decreases CHAT_KIND_COUNT - i,
        {
            timers.push(None);
            i = i + 1;
        }
        ChatCooldown { timers }
    }

    /// Whether a message may be sent on channel `kind`: true when no timer
    /// was started for it or its timer has finished.
    pub fn can_send(&self, kind: &ChatKind) -> (b: bool)
        requires
            self.wf(),
        ensures
            b == self.may_send(*kind),
    {
        match self.timers[kind.index()] {
            None => true,
            Some(t) => t.elapsed >= t.duration,
        }
    }

    /// Starts (or restarts) the cooldown of channel `kind`.
    pub fn start_cooldown(&mut self, kind: ChatKind)
        requires
            old(self).wf(),
        ensures
            final(self).wf(),
            final(self).timer(kind) == Some(fresh_cooldown()),
            forall|k: ChatKind| k != kind ==> final(self).timer(k) == old(self).timer(k),
    {
        let i = kind.index();
        self.timers.set(i, Some(CooldownTimer { duration: CHAT_COOLDOWN_NANOS, elapsed: 0 }));
        proof {
            assert forall|k: ChatKind| k != kind implies self.timer(k) == old(self).timer(k) by {
                lemma_kind_index_injective(k, kind);
            }
        }
    }

    /// Nanoseconds left before channel `kind` opens again; zero when it is open.
    pub fn remaining(&self, kind: &ChatKind) -> (r: u64)
        requires
            self.wf(),
        ensures
            r == self.left(*kind),
            r <= CHAT_COOLDOWN_NANOS,
            self.may_send(*kind) ==> r == 0,
    {
        proof { lemma_timer_runs_for_cooldown(*self, *kind); }
        match self.timers[kind.index()] {
            None => 0,
            Some(t) => {
                if t.elapsed >= t.duration {
                    0
                } else {
                    t.duration - t.elapsed
                }
            },
        }
    }

    /// Advances every channel's timer by `delta` nanoseconds.
    pub fn tick(&mut self, delta: u64)
        requires
            old(self).wf(),
        ensures
            final(self).wf(),
            forall|k: ChatKind|
                #[trigger] final(self).timer(k) == match old(self).timer(k) {
                    None => None,
                    Some(t) => Some(t.ticked(delta)),
                },
    {
        let n = self.timers.len();
        let mut i: usize = 0;
        while i < n
            invariant
                n == CHAT_KIND_COUNT,
                self.timers@.len() == n,
                i <= n,
                forall|j: int|
                    0 <= j < n ==> (#[trigger] self.timers@[j] matches Some(t) ==> t.wf()
                        && t.duration == CHAT_COOLDOWN_NANOS),
                forall|j: int|
                    0 <= j < i ==> #[trigger] self.timers@[j] == match old(self).timers@[j] {
                        None => None,
                        Some(t) => Some(t.ticked(delta)),
                    },
                forall|j: int| i <= j < n ==> #[trigger] self.timers@[j] == old(self).timers@[j],
            decreases n - i,
        {
            match self.timers[i] {
                None => {},
                Some(t) => {
                    let mut t2 = t;
                    t2.tick(delta);
                    self.timers.set(i, Some(t2));
                },
            }
            i = i + 1;
        }
        proof {
            assert forall|k: ChatKind|
                #[trigger] self.timer(k) == match old(self).timer(k) {
                    None => None,
                    Some(t) => Some(t.ticked(delta)),
                } by {
                lemma_kind_index_injective(k, k);
            }
        }
    }
}

impl Default for ChatCooldown {
    /// A cooldown table with no channel closed.
    fn default() -> (c: ChatCooldown)
        ensures
            c.wf(),
            forall|k: ChatKind| c.timer(k) is None,
    {
        ChatCooldown::new()
    }
}

/// A channel is open exactly when no time is left on it.
pub proof fn law_open_iff_nothing_left(c: ChatCooldown, k: ChatKind)
    requires
        c.wf(),
    ensures
        c.may_send(k) <==> c.left(k) == 0,
{
    lemma_kind_index_injective(k, k);
    lemma_timer_runs_for_cooldown(c, k);
}

/// Every started timer runs for the chat cooldown, so no channel has more
/// than the cooldown left.
proof fn lemma_timer_runs_for_cooldown(c: ChatCooldown, k: ChatKind)
    requires
        c.wf(),
    ensures
        c.timer(k) matches Some(t) ==> t.wf() && t.duration == CHAT_COOLDOWN_NANOS,
        c.left(k) <= CHAT_COOLDOWN_NANOS,
{
    lemma_kind_index_injective(k, k);
    assert(c.timers@[kind_index(k) as int] matches Some(t) ==> t.wf() && t.duration == CHAT_COOLDOWN_NANOS);
}

/// Right after a message on a channel, that channel is closed for the full
/// cooldown, while every other channel is as it was.
pub proof fn law_message_closes_channel(before: ChatCooldown, after: ChatCooldown, k: ChatKind)
    requires
        before.wf(),
        after.timer(k) == Some(fresh_cooldown()),
        forall|o: ChatKind| o != k ==> after.timer(o) == before.timer(o),
    ensures
        !after.may_send(k),
        after.left(k) == CHAT_COOLDOWN_NANOS,
        forall|o: ChatKind| o != k ==> after.may_send(o) == before.may_send(o) && after.left(o) == before.left(o),
{
}

/// Once at least the time left on a channel has passed, it is open again.
pub proof fn law_channel_reopens(before: ChatCooldown, after: ChatCooldown, k: ChatKind, delta: u64)
    requires
        before.wf(),
        delta >= before.left(k),
        after.timer(k) == match before.timer(k) {
            None => None,
            Some(t) => Some(t.ticked(delta)),
        },
    ensures
        after.may_send(k),
{
    lemma_timer_runs_for_cooldown(before, k);
}

/// The time that a sequence of ticks adds up to.
pub open spec fn total_time(deltas: Seq<u64>) -> int
    decreases deltas.len(),
{
    if deltas.len() == 0 { 0 } else { total_time(deltas.drop_last()) + deltas.last() }
}

/// The timer of channel `k` in each table of `tables` is the one in the
/// table before it, ticked by the matching entry of `deltas`.
pub open spec fn ticked_in_turn(tables: Seq<ChatCooldown>, deltas: Seq<u64>, k: ChatKind) -> bool {
    &&& tables.len() == deltas.len() + 1
    &&& forall|i: int| #![trigger deltas[i]] 0 <= i < deltas.len() ==> tables[i + 1].timer(k) == match tables[i].timer(k) {
        None => None,
        Some(t) => Some(t.ticked(deltas[i])),
    }
}

/// A fresh timer after `passed` nanoseconds in all.
pub open spec fn fresh_after(passed: int) -> CooldownTimer {
    CooldownTimer {
        duration: CHAT_COOLDOWN_NANOS,
        elapsed: if passed >= CHAT_COOLDOWN_NANOS { CHAT_COOLDOWN_NANOS } else { passed as u64 },
    }
}

proof fn lemma_ticks_from_fresh(tables: Seq<ChatCooldown>, deltas: Seq<u64>, k: ChatKind, j: int)
    requires
        ticked_in_turn(tables, deltas, k),
        tables[0].timer(k) == Some(fresh_cooldown()),
        0 <= j <= deltas.len(),
    ensures
        tables[j].timer(k) == Some(fresh_after(total_time(deltas.take(j)))),
        total_time(deltas.take(j)) >= 0,
    decreases j,
{
    if j == 0 {
        assert(deltas.take(0) =~= Seq::<u64>::empty());
    } else {
        lemma_ticks_from_fresh(tables, deltas, k, j - 1);
        assert(deltas.take(j).drop_last() =~= deltas.take(j - 1));
        assert(deltas.take(j).last() == deltas[j - 1]);
    }
}

/// Once a message closes a channel, it stays closed, with the cooldown less
/// the time passed left on it, until ticks adding up to the cooldown have
/// passed; from then on it is open with nothing left.
pub proof fn law_ticks_reopen_channel(tables: Seq<ChatCooldown>, deltas: Seq<u64>, k: ChatKind)
    requires
        ticked_in_turn(tables, deltas, k),
        tables[0].timer(k) == Some(fresh_cooldown()),
    ensures
        total_time(deltas) >= CHAT_COOLDOWN_NANOS ==> tables.last().may_send(k) && tables.last().left(k) == 0,
        total_time(deltas) < CHAT_COOLDOWN_NANOS ==> !tables.last().may_send(k)
            && tables.last().left(k) == CHAT_COOLDOWN_NANOS - total_time(deltas)
            && 0 < tables.last().left(k) <= CHAT_COOLDOWN_NANOS,
{
    lemma_ticks_from_fresh(tables, deltas, k, deltas.len() as int);
    assert(deltas.take(deltas.len() as int) =~= deltas);
    assert(tables.last() == tables[deltas.len() as int]);
}

} // verus!
