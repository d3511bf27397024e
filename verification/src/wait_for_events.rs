//! The local watchdog that ends a wait for child-agent events: its timeout, and which wait
//! it may end once it fires.
use vstd::prelude::*;

use crate::text::str_eq;

verus! {

/// Idle timeout, in seconds, used when a wait request does not carry a positive one.
pub const DEFAULT_ORCHESTRATED_IDLE_TIMEOUT_SECONDS: i32 = 1800;

/// Seconds by which the local watchdog fires before the requested timeout.
pub const CLIENT_WATCHDOG_SAFETY_MARGIN_SECS: u64 = 30;

/// The shortest watchdog timeout, in seconds.
pub const HARD_FLOOR_SECS: u64 = 5;

/// The requested timeout in seconds, with the default for a missing (non-positive) one.
pub open spec fn stamped_or_default(stamped_seconds: i32) -> int {
    if stamped_seconds <= 0 {
        DEFAULT_ORCHESTRATED_IDLE_TIMEOUT_SECONDS as int
    } else {
        stamped_seconds as int
    }
}

/// The watchdog timeout in seconds: the requested timeout less the safety margin, but never
/// below the floor.
pub open spec fn watchdog_timeout_spec(stamped_seconds: i32) -> int {
    let s = stamped_or_default(stamped_seconds);
    if s - CLIENT_WATCHDOG_SAFETY_MARGIN_SECS >= HARD_FLOOR_SECS {
        s - CLIENT_WATCHDOG_SAFETY_MARGIN_SECS
    } else {
        HARD_FLOOR_SECS as int
    }
}

/// The watchdog timeout, in seconds, for a request stamped with `stamped_seconds`.
pub fn watchdog_timeout_for_stamped_seconds(stamped_seconds: i32) -> (r: u64)
    ensures
        r == watchdog_timeout_spec(stamped_seconds),
        r >= HARD_FLOOR_SECS,
{
    let seconds: i32 = if stamped_seconds <= 0 {
        DEFAULT_ORCHESTRATED_IDLE_TIMEOUT_SECONDS
    } else {
        stamped_seconds
    };
    let secs = seconds as u64;
    if secs >= CLIENT_WATCHDOG_SAFETY_MARGIN_SECS && secs - CLIENT_WATCHDOG_SAFETY_MARGIN_SECS
        >= HARD_FLOOR_SECS {
        secs - CLIENT_WATCHDOG_SAFETY_MARGIN_SECS
    } else {
        HARD_FLOOR_SECS
    }
}

/// The watchdog never fires later than the requested timeout when that timeout is above the
/// floor, and never earlier than the floor.
pub proof fn lemma_watchdog_bounds(stamped_seconds: i32)
    ensures
        watchdog_timeout_spec(stamped_seconds) >= HARD_FLOOR_SECS,
        stamped_or_default(stamped_seconds) >= HARD_FLOOR_SECS ==> watchdog_timeout_spec(
            stamped_seconds,
        ) <= stamped_or_default(stamped_seconds),
{
}

/// A longer requested timeout never gives a shorter watchdog.
pub proof fn lemma_watchdog_monotone(a: i32, b: i32)
    requires
        0 < a <= b,
    ensures
        watchdog_timeout_spec(a) <= watchdog_timeout_spec(b),
{
}

/// The generation after `g`: one more, wrapping around at the top.
pub open spec fn next_generation(g: u64) -> u64 {
    if g == u64::MAX {
        0
    } else {
        (g + 1) as u64
    }
}

/// A wait in progress: the conversation it belongs to and the tool call that asked for it.
#[derive(Debug, Clone, PartialEq, Eq)]
pub struct PendingWait {
    pub conversation_id: String,
    pub tool_call_id: String,
}

/// What starting a wait gives back.
#[derive(Debug, Clone, PartialEq, Eq)]
pub struct WaitStart {
    /// When the watchdog fires, in seconds.
    pub timeout_secs: u64,
    /// The generation the watchdog must still find to end the wait.
    pub generation: u64,
    /// The tool call of the wait that this one replaces, which ends now.
    pub replaced: Option<String>,
}

/// The generation recorded for `conv` among `gs` (zero when none is).
pub open spec fn gen_of(gs: Seq<(String, u64)>, conv: Seq<char>) -> u64 {
    if exists|i: int| 0 <= i < gs.len() && (#[trigger] gs[i]).0@ == conv {
        gs[choose|i: int| 0 <= i < gs.len() && (#[trigger] gs[i]).0@ == conv].1
    } else {
        0
    }
}

/// The tool call of the wait recorded for `conv` among `ps`, if any.
pub open spec fn pend_of(ps: Seq<PendingWait>, conv: Seq<char>) -> Option<Seq<char>> {
    if exists|i: int| 0 <= i < ps.len() && (#[trigger] ps[i]).conversation_id@ == conv {
        Some(ps[choose|i: int| 0 <= i < ps.len() && (#[trigger] ps[i]).conversation_id@ == conv].tool_call_id@)
    } else {
        None
    }
}

/// Some generation is recorded for `conv` among `gs`.
pub open spec fn gen_known(gs: Seq<(String, u64)>, conv: Seq<char>) -> bool {
    exists|i: int| 0 <= i < gs.len() && (#[trigger] gs[i]).0@ == conv
}

pub open spec fn unique_gens(gs: Seq<(String, u64)>) -> bool {
    forall|i: int, j: int| 0 <= i < j < gs.len() ==> (#[trigger] gs[i]).0@ != (#[trigger] gs[j]).0@
}

pub open spec fn unique_pending(ps: Seq<PendingWait>) -> bool {
    forall|i: int, j: int|
        0 <= i < j < ps.len() ==> (#[trigger] ps[i]).conversation_id@ != (#[trigger] ps[j]).conversation_id@
}

proof fn lemma_gen_of_at(gs: Seq<(String, u64)>, i: int)
    requires
        unique_gens(gs),
        0 <= i < gs.len(),
    ensures
        gen_of(gs, gs[i].0@) == gs[i].1,
{
    let c = gs[i].0@;
    let k = choose|k: int| 0 <= k < gs.len() && (#[trigger] gs[k]).0@ == c;
    if k < i {
        assert(gs[k].0@ != gs[i].0@);
    } else if k > i {
        assert(gs[i].0@ != gs[k].0@);
    }
}

proof fn lemma_pend_of_at(ps: Seq<PendingWait>, i: int)
    requires
        unique_pending(ps),
        0 <= i < ps.len(),
    ensures
        pend_of(ps, ps[i].conversation_id@) == Some(ps[i].tool_call_id@),
{
    let c = ps[i].conversation_id@;
    let k = choose|k: int| 0 <= k < ps.len() && (#[trigger] ps[k]).conversation_id@ == c;
    if k < i {
        assert(ps[k].conversation_id@ != ps[i].conversation_id@);
    } else if k > i {
        assert(ps[i].conversation_id@ != ps[k].conversation_id@);
    }
}

/// Setting the generation at index `k` changes that conversation's generation only.
proof fn lemma_gen_set(gs: Seq<(String, u64)>, k: int, v: u64)
    requires
        unique_gens(gs),
        0 <= k < gs.len(),
    ensures
        unique_gens(gs.update(k, (gs[k].0, v))),
        forall|c: Seq<char>| #[trigger] gen_known(gs.update(k, (gs[k].0, v)), c) == gen_known(gs, c),
        forall|c: Seq<char>| #[trigger] gen_of(gs.update(k, (gs[k].0, v)), c) == if c == gs[k].0@ {
            v
        } else {
            gen_of(gs, c)
        },
{
    let gs2 = gs.update(k, (gs[k].0, v));
    assert forall|c: Seq<char>| #[trigger] gen_known(gs2, c) == gen_known(gs, c) by {
        if gen_known(gs, c) {
            let i = choose|i: int| 0 <= i < gs.len() && (#[trigger] gs[i]).0@ == c;
            assert(gs2[i].0@ == c);
        }
        if gen_known(gs2, c) {
            let i = choose|i: int| 0 <= i < gs2.len() && (#[trigger] gs2[i]).0@ == c;
            assert(gs[i].0@ == c);
        }
    }
    assert forall|c: Seq<char>| #[trigger] gen_of(gs2, c) == if c == gs[k].0@ {
        v
    } else {
        gen_of(gs, c)
    } by {
        if c == gs[k].0@ {
            lemma_gen_of_at(gs2, k);
        } else if exists|i: int| 0 <= i < gs.len() && (#[trigger] gs[i]).0@ == c {
            let i = choose|i: int| 0 <= i < gs.len() && (#[trigger] gs[i]).0@ == c;
            lemma_gen_of_at(gs, i);
            lemma_gen_of_at(gs2, i);
        } else {
            assert forall|i: int| 0 <= i < gs2.len() implies (#[trigger] gs2[i]).0@ != c by {
                assert(gs2[i].0@ == gs[i].0@);
            }
        }
    }
}

/// Adding a generation for a new conversation changes that conversation's generation only.
proof fn lemma_gen_push(gs: Seq<(String, u64)>, e: (String, u64))
    requires
        unique_gens(gs),
        forall|i: int| 0 <= i < gs.len() ==> (#[trigger] gs[i]).0@ != e.0@,
    ensures
        unique_gens(gs.push(e)),
        forall|c: Seq<char>| #[trigger] gen_known(gs.push(e), c) == (gen_known(gs, c) || c == e.0@),
        forall|c: Seq<char>| #[trigger] gen_of(gs.push(e), c) == if c == e.0@ {
            e.1
        } else {
            gen_of(gs, c)
        },
{
    let gs2 = gs.push(e);
    assert forall|c: Seq<char>| #[trigger] gen_known(gs2, c) == (gen_known(gs, c) || c == e.0@) by {
        if gen_known(gs, c) {
            let i = choose|i: int| 0 <= i < gs.len() && (#[trigger] gs[i]).0@ == c;
            assert(gs2[i].0@ == c);
        }
        if c == e.0@ {
            assert(gs2[gs.len() as int].0@ == c);
        }
        if gen_known(gs2, c) && c != e.0@ {
            let i = choose|i: int| 0 <= i < gs2.len() && (#[trigger] gs2[i]).0@ == c;
            assert(i < gs.len());
            assert(gs[i].0@ == c);
        }
    }
    assert forall|c: Seq<char>| #[trigger] gen_of(gs2, c) == if c == e.0@ {
        e.1
    } else {
        gen_of(gs, c)
    } by {
        if c == e.0@ {
            lemma_gen_of_at(gs2, gs.len() as int);
        } else if exists|i: int| 0 <= i < gs.len() && (#[trigger] gs[i]).0@ == c {
            let i = choose|i: int| 0 <= i < gs.len() && (#[trigger] gs[i]).0@ == c;
            lemma_gen_of_at(gs, i);
            lemma_gen_of_at(gs2, i);
        } else {
            assert forall|i: int| 0 <= i < gs2.len() implies (#[trigger] gs2[i]).0@ != c by {
                if i < gs.len() {
                    assert(gs2[i] == gs[i]);
                }
            }
        }
    }
}

/// Setting the wait at index `k` changes that conversation's wait only.
proof fn lemma_pend_set(ps: Seq<PendingWait>, k: int, w: PendingWait)
    requires
        unique_pending(ps),
        0 <= k < ps.len(),
        w.conversation_id@ == ps[k].conversation_id@,
    ensures
        unique_pending(ps.update(k, w)),
        forall|c: Seq<char>| #[trigger] pend_of(ps.update(k, w), c) == if c == w.conversation_id@ {
            Some(w.tool_call_id@)
        } else {
            pend_of(ps, c)
        },
{
    let ps2 = ps.update(k, w);
    assert forall|c: Seq<char>| #[trigger] pend_of(ps2, c) == if c == w.conversation_id@ {
        Some(w.tool_call_id@)
    } else {
        pend_of(ps, c)
    } by {
        if c == w.conversation_id@ {
            lemma_pend_of_at(ps2, k);
        } else if exists|i: int| 0 <= i < ps.len() && (#[trigger] ps[i]).conversation_id@ == c {
            let i = choose|i: int| 0 <= i < ps.len() && (#[trigger] ps[i]).conversation_id@ == c;
            lemma_pend_of_at(ps, i);
            lemma_pend_of_at(ps2, i);
        } else {
            assert forall|i: int| 0 <= i < ps2.len() implies (#[trigger] ps2[i]).conversation_id@ != c by {
                assert(ps2[i].conversation_id@ == ps[i].conversation_id@);
            }
        }
    }
}

/// Adding a wait for a conversation without one changes that conversation's wait only.
proof fn lemma_pend_push(ps: Seq<PendingWait>, w: PendingWait)
    requires
        unique_pending(ps),
        forall|i: int| 0 <= i < ps.len() ==> (#[trigger] ps[i]).conversation_id@ != w.conversation_id@,
    ensures
        unique_pending(ps.push(w)),
        forall|c: Seq<char>| #[trigger] pend_of(ps.push(w), c) == if c == w.conversation_id@ {
            Some(w.tool_call_id@)
        } else {
            pend_of(ps, c)
        },
{
    let ps2 = ps.push(w);
    assert forall|c: Seq<char>| #[trigger] pend_of(ps2, c) == if c == w.conversation_id@ {
        Some(w.tool_call_id@)
    } else {
        pend_of(ps, c)
    } by {
        if c == w.conversation_id@ {
            lemma_pend_of_at(ps2, ps.len() as int);
        } else if exists|i: int| 0 <= i < ps.len() && (#[trigger] ps[i]).conversation_id@ == c {
            let i = choose|i: int| 0 <= i < ps.len() && (#[trigger] ps[i]).conversation_id@ == c;
            lemma_pend_of_at(ps, i);
            lemma_pend_of_at(ps2, i);
        } else {
            assert forall|i: int| 0 <= i < ps2.len() implies (#[trigger] ps2[i]).conversation_id@ != c by {
                if i < ps.len() {
                    assert(ps2[i] == ps[i]);
                }
            }
        }
    }
}

/// Removing the wait at index `k` ends that conversation's wait only.
proof fn lemma_pend_remove(ps: Seq<PendingWait>, k: int)
    requires
        unique_pending(ps),
        0 <= k < ps.len(),
    ensures
        unique_pending(ps.remove(k)),
        forall|c: Seq<char>| #[trigger] pend_of(ps.remove(k), c) == if c == ps[k].conversation_id@ {
            None
        } else {
            pend_of(ps, c)
        },
{
    let ps2 = ps.remove(k);
    assert forall|i: int| 0 <= i < ps2.len() implies #[trigger] ps2[i] == ps[if i < k { i } else { i + 1 }] by {}
    assert forall|i: int, j: int| 0 <= i < j < ps2.len() implies (#[trigger] ps2[i]).conversation_id@
        != (#[trigger] ps2[j]).conversation_id@ by {
        let i1 = if i < k { i } else { i + 1 };
        let j1 = if j < k { j } else { j + 1 };
        assert(ps2[i] == ps[i1]);
        assert(ps2[j] == ps[j1]);
    }
    assert forall|c: Seq<char>| #[trigger] pend_of(ps2, c) == if c == ps[k].conversation_id@ {
        None
    } else {
        pend_of(ps, c)
    } by {
        if c == ps[k].conversation_id@ {
            assert forall|i: int| 0 <= i < ps2.len() implies (#[trigger] ps2[i]).conversation_id@ != c by {
                let i1 = if i < k { i } else { i + 1 };
                assert(ps2[i] == ps[i1]);
                if i1 < k {
                    assert(ps[i1].conversation_id@ != ps[k].conversation_id@);
                } else {
                    assert(ps[k].conversation_id@ != ps[i1].conversation_id@);
                }
            }
        } else if exists|i: int| 0 <= i < ps.len() && (#[trigger] ps[i]).conversation_id@ == c {
            let i = choose|i: int| 0 <= i < ps.len() && (#[trigger] ps[i]).conversation_id@ == c;
            assert(i != k);
            let i2 = if i < k { i } else { i - 1 };
            assert(ps2[i2] == ps[i]);
            lemma_pend_of_at(ps, i);
            lemma_pend_of_at(ps2, i2);
        } else {
            assert forall|i: int| 0 <= i < ps2.len() implies (#[trigger] ps2[i]).conversation_id@ != c by {
                let i1 = if i < k { i } else { i + 1 };
                assert(ps2[i] == ps[i1]);
            }
        }
    }
}

/// The waits of every conversation, at most one each, and a generation per conversation that
/// changes whenever a wait starts or is cancelled.
pub struct WaitForEventsExecutor {
    generations: Vec<(String, u64)>,
    pending: Vec<PendingWait>,
}

impl WaitForEventsExecutor {
    /// No conversation is listed twice, and a conversation with a wait has a generation.
    pub closed spec fn wf(&self) -> bool {
        &&& unique_gens(self.generations@)
        &&& unique_pending(self.pending@)
        &&& forall|c: Seq<char>| #[trigger] pend_of(self.pending@, c) is Some ==> gen_known(self.generations@, c)
    }

    /// The generation of a conversation (zero before its first wait).
    pub closed spec fn generation_of(&self, conv: Seq<char>) -> u64 {
        gen_of(self.generations@, conv)
    }

    /// The tool call whose wait is in progress for a conversation, if any.
    pub closed spec fn pending_of(&self, conv: Seq<char>) -> Option<Seq<char>> {
        pend_of(self.pending@, conv)
    }

    /// Whether the watchdog that tool call `tool_call_id` armed at generation `generation`
    /// would end the conversation's wait now.
    pub open spec fn watchdog_fires(&self, conv: Seq<char>, tool_call_id: Seq<char>, generation: u64) -> bool {
        self.generation_of(conv) == generation && self.pending_of(conv) == Some(tool_call_id)
    }

    /// An executor with no wait and every generation at zero.
    pub fn new() -> (r: Self)
        ensures
            r.wf(),
            forall|c: Seq<char>| r.generation_of(c) == 0 && r.pending_of(c) is None,
    {
        WaitForEventsExecutor { generations: Vec::new(), pending: Vec::new() }
    }

    fn generation_index(&self, conv: &str) -> (r: Option<usize>)
        requires
            self.wf(),
        ensures
            match r {
                Some(i) => i < self.generations@.len() && self.generations@[i as int].0@ == conv@
                    && self.generation_of(conv@) == self.generations@[i as int].1,
                None => self.generation_of(conv@) == 0 && forall|j: int|
                    0 <= j < self.generations@.len() ==> (#[trigger] self.generations@[j]).0@ != conv@,
            },
    {
        let mut i: usize = 0;
        while i < self.generations.len()
            invariant
                self.wf(),
                i <= self.generations@.len(),
                forall|j: int| 0 <= j < i ==> (#[trigger] self.generations@[j]).0@ != conv@,
            decreases self.generations@.len() - i,
        {
            if str_eq(self.generations[i].0.as_str(), conv) {
                proof {
                    let k = choose|k: int|
                        0 <= k < self.generations@.len() && (#[trigger] self.generations@[k]).0@ == conv@;
                    if k != i {
                        if k < i {
                            assert(self.generations@[k].0@ != self.generations@[i as int].0@);
                        } else {
                            assert(self.generations@[i as int].0@ != self.generations@[k].0@);
                        }
                    }
                }
                return Some(i);
            }
            i = i + 1;
        }
        None
    }

    fn pending_index_for_conversation(&self, conv: &str) -> (r: Option<usize>)
        requires
            self.wf(),
        ensures
            match r {
                Some(i) => i < self.pending@.len() && self.pending@[i as int].conversation_id@ == conv@
                    && self.pending_of(conv@) == Some(self.pending@[i as int].tool_call_id@),
                None => self.pending_of(conv@) is None,
            },
    {
        let mut i: usize = 0;
        while i < self.pending.len()
            invariant
                self.wf(),
                i <= self.pending@.len(),
                forall|j: int| 0 <= j < i ==> (#[trigger] self.pending@[j]).conversation_id@ != conv@,
            decreases self.pending@.len() - i,
        {
            if str_eq(self.pending[i].conversation_id.as_str(), conv) {
                proof {
                    let k = choose|k: int|
                        0 <= k < self.pending@.len() && (#[trigger] self.pending@[k]).conversation_id@ == conv@;
                    if k != i {
                        if k < i {
                            assert(self.pending@[k].conversation_id@ != self.pending@[i as int].conversation_id@);
                        } else {
                            assert(self.pending@[i as int].conversation_id@ != self.pending@[k].conversation_id@);
                        }
                    }
                }
                return Some(i);
            }
            i = i + 1;
        }
        None
    }

    fn pending_index_for_tool_call(&self, tool_call_id: &str) -> (r: Option<usize>)
        requires
            self.wf(),
        ensures
            match r {
                Some(i) => i < self.pending@.len() && self.pending@[i as int].tool_call_id@ == tool_call_id@
                    && self.pending_of(self.pending@[i as int].conversation_id@) == Some(tool_call_id@),
                None => forall|c: Seq<char>| self.pending_of(c) != Some(tool_call_id@),
            },
    {
        let mut i: usize = 0;
        while i < self.pending.len()
            invariant
                self.wf(),
                i <= self.pending@.len(),
                forall|j: int| 0 <= j < i ==> (#[trigger] self.pending@[j]).tool_call_id@ != tool_call_id@,
            decreases self.pending@.len() - i,
        {
            if str_eq(self.pending[i].tool_call_id.as_str(), tool_call_id) {
                proof {
                    let c = self.pending@[i as int].conversation_id@;
                    let k = choose|k: int|
                        0 <= k < self.pending@.len() && (#[trigger] self.pending@[k]).conversation_id@ == c;
                    if k != i {
                        if k < i {
                            assert(self.pending@[k].conversation_id@ != self.pending@[i as int].conversation_id@);
                        } else {
                            assert(self.pending@[i as int].conversation_id@ != self.pending@[k].conversation_id@);
                        }
                    }
                }
                return Some(i);
            }
            i = i + 1;
        }
        proof {
            assert forall|c: Seq<char>| self.pending_of(c) != Some(tool_call_id@) by {
                if self.pending_of(c) is Some {
                    let k = choose|k: int| 0 <= k < self.pending@.len() && (#[trigger] self.pending@[k]).conversation_id@ == c;
                    assert(self.pending@[k].tool_call_id@ != tool_call_id@);
                }
            }
        }
        None
    }

    /// Moves a conversation to its next generation (see [`next_generation`]); the answer is
    /// the new generation.
    fn bump_generation(&mut self, conv: &str) -> (r: u64)
        requires
            old(self).wf(),
        ensures
            final(self).wf(),
            r == next_generation(gen_of(old(self).generations@, conv@)),
            forall|c: Seq<char>| #[trigger] gen_of(final(self).generations@, c) == if c == conv@ {
                r
            } else {
                gen_of(old(self).generations@, c)
            },
            final(self).pending@ == old(self).pending@,
            gen_known(final(self).generations@, conv@),
            forall|c: Seq<char>| #[trigger] gen_known(old(self).generations@, c) ==> gen_known(final(self).generations@, c),
    {
        match self.generation_index(conv) {
            Some(k) => {
                let g = self.generations[k].1.wrapping_add(1);
                let name = self.generations[k].0.clone();
                proof {
                    lemma_gen_set(self.generations@, k as int, g);
                    assert((name, g) == (self.generations@[k as int].0, g));
                }
                let ghost before = self.generations@;
                self.generations.set(k, (name, g));
                proof {
                    assert(self.generations@ == before.update(k as int, (before[k as int].0, g)));
                    assert(self.generations@[k as int].0@ == conv@);
                    assert(self.generations@[k as int].0@ == conv@);
                }
                g
            },
            None => {
                let e = (String::from_str(conv), 1u64);
                proof {
                    lemma_gen_push(self.generations@, e);
                }
                let ghost before = self.generations@;
                self.generations.push(e);
                proof {
                    assert(self.generations@[before.len() as int].0@ == conv@);
                    assert(self.generations@ == before.push(e));
                }
                1
            },
        }
    }

    /// Starts a wait for `conversation_id`, asked for by tool call `tool_call_id` with the
    /// given idle timeout. The conversation moves to its next generation, which the watchdog
    /// must still find to end the wait, and the wait replaces any earlier one of the
    /// conversation (whose tool call is returned: that wait ends now). The watchdog fires
    /// after [`watchdog_timeout_spec`] seconds.
    pub fn execute(&mut self, conversation_id: &str, tool_call_id: &str, idle_timeout_seconds: i32) -> (r:
        WaitStart)
        requires
            old(self).wf(),
        ensures
            final(self).wf(),
            r.timeout_secs == watchdog_timeout_spec(idle_timeout_seconds),
            r.generation == next_generation(old(self).generation_of(conversation_id@)),
            match r.replaced {
                Some(t) => old(self).pending_of(conversation_id@) == Some(t@),
                None => old(self).pending_of(conversation_id@) is None,
            },
            forall|c: Seq<char>| #[trigger] final(self).generation_of(c) == if c == conversation_id@ {
                r.generation
            } else {
                old(self).generation_of(c)
            },
            forall|c: Seq<char>| #[trigger] final(self).pending_of(c) == if c == conversation_id@ {
                Some(tool_call_id@)
            } else {
                old(self).pending_of(c)
            },
    {
        let timeout_secs = watchdog_timeout_for_stamped_seconds(idle_timeout_seconds);
        let ghost g0 = self.generations@;
        let ghost p0 = self.pending@;
        let generation = self.bump_generation(conversation_id);
        let wait = PendingWait {
            conversation_id: String::from_str(conversation_id),
            tool_call_id: String::from_str(tool_call_id),
        };
        let replaced = match self.pending_index_for_conversation(conversation_id) {
            Some(k) => {
                let previous = self.pending[k].tool_call_id.clone();
                proof {
                    lemma_pend_set(self.pending@, k as int, wait);
                }
                self.pending.set(k, wait);
                Some(previous)
            },
            None => {
                proof {
                    assert forall|i: int| 0 <= i < self.pending@.len() implies (#[trigger] self.pending@[i]).conversation_id@
                        != wait.conversation_id@ by {
                        if self.pending@[i].conversation_id@ == conversation_id@ {
                            lemma_pend_of_at(self.pending@, i);
                        }
                    }
                    lemma_pend_push(self.pending@, wait);
                }
                self.pending.push(wait);
                None
            },
        };
        proof {
            assert forall|c: Seq<char>| #[trigger] pend_of(self.pending@, c) is Some implies gen_known(self.generations@, c) by {
                if c != conversation_id@ {
                    assert(pend_of(p0, c) is Some);
                    assert(gen_known(g0, c));
                }
            }
            assert forall|c: Seq<char>| #[trigger] self.generation_of(c) == if c == conversation_id@ {
                generation
            } else {
                old(self).generation_of(c)
            } by {
                assert(gen_of(self.generations@, c) == if c == conversation_id@ {
                    generation
                } else {
                    gen_of(g0, c)
                });
            }
        }
        WaitStart { timeout_secs, generation, replaced }
    }

    /// Ends the wait asked for by this tool call with a result, if one is in progress; the
    /// answer names its conversation. Generations are unchanged, so the wait's watchdog finds
    /// nothing left to end.
    pub fn complete_execution(&mut self, tool_call_id: &str) -> (r: Option<String>)
        requires
            old(self).wf(),
        ensures
            final(self).wf(),
            r is None <==> forall|c: Seq<char>| old(self).pending_of(c) != Some(tool_call_id@),
            r is None ==> forall|c: Seq<char>| #[trigger] final(self).pending_of(c) == old(self).pending_of(c),
            forall|c: Seq<char>| #[trigger] final(self).generation_of(c) == old(self).generation_of(c),
            r matches Some(conv) ==> old(self).pending_of(conv@) == Some(tool_call_id@) && forall|c: Seq<char>|
                #[trigger] final(self).pending_of(c) == if c == conv@ {
                    None
                } else {
                    old(self).pending_of(c)
                },
    {
        match self.pending_index_for_tool_call(tool_call_id) {
            None => None,
            Some(k) => {
                let conv = self.pending[k].conversation_id.clone();
                proof {
                    lemma_pend_remove(self.pending@, k as int);
                }
                let ghost p0 = self.pending@;
                self.pending.remove(k);
                proof {
                    assert forall|c: Seq<char>| #[trigger] pend_of(self.pending@, c) is Some implies gen_known(self.generations@, c) by {
                        assert(pend_of(p0, c) is Some);
                    }
                }
                Some(conv)
            },
        }
    }

    /// Cancels the wait asked for by this tool call, if one is in progress; the answer names
    /// its conversation, which moves to its next generation, so the wait's watchdog can no
    /// longer end any wait.
    pub fn cancel_execution(&mut self, tool_call_id: &str) -> (r: Option<String>)
        requires
            old(self).wf(),
        ensures
            final(self).wf(),
            r is None <==> forall|c: Seq<char>| old(self).pending_of(c) != Some(tool_call_id@),
            r is None ==> forall|c: Seq<char>|
                #[trigger] final(self).pending_of(c) == old(self).pending_of(c)
                    && final(self).generation_of(c) == old(self).generation_of(c),
            r matches Some(conv) ==> {
                &&& old(self).pending_of(conv@) == Some(tool_call_id@)
                &&& forall|c: Seq<char>| #[trigger] final(self).pending_of(c) == if c == conv@ {
                    None
                } else {
                    old(self).pending_of(c)
                }
                &&& forall|c: Seq<char>| #[trigger] final(self).generation_of(c) == if c == conv@ {
                    next_generation(old(self).generation_of(c))
                } else {
                    old(self).generation_of(c)
                }
            },
    {
        match self.complete_execution(tool_call_id) {
            None => None,
            Some(conv) => {
                let ghost mid = *self;
                self.bump_generation(conv.as_str());
                proof {
                    assert forall|c: Seq<char>| #[trigger] self.pending_of(c) == if c == conv@ {
                        None
                    } else {
                        old(self).pending_of(c)
                    } by {
                        assert(self.pending_of(c) == mid.pending_of(c));
                    }
                    assert forall|c: Seq<char>| #[trigger] self.generation_of(c) == if c == conv@ {
                        next_generation(old(self).generation_of(c))
                    } else {
                        old(self).generation_of(c)
                    } by {
                        assert(mid.generation_of(c) == old(self).generation_of(c));
                        assert(gen_of(self.generations@, c) == if c == conv@ {
                            next_generation(gen_of(mid.generations@, conv@))
                        } else {
                            gen_of(mid.generations@, c)
                        });
                    }
                }
                Some(conv)
            },
        }
    }

    /// The watchdog of a wait fires: it ends the conversation's wait only when the
    /// conversation is still at the generation the wait started with and that wait, of this
    /// tool call, is still in progress. The answer says whether it ended one.
    pub fn fire_watchdog_if_current(&mut self, conversation_id: &str, tool_call_id: &str, expected_generation: u64) -> (r:
        bool)
        requires
            old(self).wf(),
        ensures
            final(self).wf(),
            r == old(self).watchdog_fires(conversation_id@, tool_call_id@, expected_generation),
            forall|c: Seq<char>| #[trigger] final(self).generation_of(c) == old(self).generation_of(c),
            forall|c: Seq<char>| #[trigger] final(self).pending_of(c) == if r && c == conversation_id@ {
                None
            } else {
                old(self).pending_of(c)
            },
    {
        let current = match self.generation_index(conversation_id) {
            Some(k) => self.generations[k].1,
            None => 0,
        };
        if current != expected_generation {
            return false;
        }
        match self.pending_index_for_conversation(conversation_id) {
            None => false,
            Some(k) => {
                if !str_eq(self.pending[k].tool_call_id.as_str(), tool_call_id) {
                    return false;
                }
                proof {
                    lemma_pend_remove(self.pending@, k as int);
                }
                let ghost p0 = self.pending@;
                self.pending.remove(k);
                proof {
                    assert forall|c: Seq<char>| #[trigger] pend_of(self.pending@, c) is Some implies gen_known(self.generations@, c) by {
                        assert(pend_of(p0, c) is Some);
                    }
                }
                true
            },
        }
    }
}

/// Once a conversation has moved on from the generation that a watchdog was armed with (a
/// newer wait started, or the wait was cancelled, and generations have not wrapped around),
/// that watchdog ends nothing when it fires.
pub proof fn lemma_superseded_watchdog_is_inert(
    executor: WaitForEventsExecutor,
    conv: Seq<char>,
    tool_call_id: Seq<char>,
    armed: u64,
)
    requires
        armed < u64::MAX,
        executor.generation_of(conv) == next_generation(armed),
    ensures
        !executor.watchdog_fires(conv, tool_call_id, armed),
{
}

} // verus!
