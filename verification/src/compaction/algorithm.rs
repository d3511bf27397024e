//! The compaction algorithm: splitting a conversation into user turns,
//! choosing the head that is summarised and the tail that is kept verbatim,
//! and choosing old tool outputs to prune.
//!
//! The algorithm sees messages only through the [`MessageRef`] trait.
use vstd::prelude::*;
use vstd::slice::slice_subrange;
use vstd::string::*;
use std::hash::Hash;

use super::config::CompactionConfig;
use super::consts::{PRUNE_MINIMUM, PRUNE_PROTECT};
use super::overflow::{usable, usable_spec, ModelLimit};

verus! {

/// The role of a message in a conversation.
#[derive(Debug, Clone, Copy, PartialEq, Eq, Structural)]
pub enum Role {
    User,
    Assistant,
    Tool,
}

/// One tool output inside a message, as far as pruning needs it.
#[derive(Debug)]
pub struct ToolOutputRef<CallId> {
    pub call_id: CallId,
    pub tool_name: String,
    /// Estimated size of the output, in tokens.
    pub output_size: usize,
    pub completed: bool,
    /// Already replaced by a placeholder in an earlier pruning pass.
    pub already_compacted: bool,
}

/// A message as the compaction algorithm sees it.
///
/// Each executable accessor returns the value of its spec counterpart, so the
/// algorithm's contracts can speak of the messages through the spec functions.
pub trait MessageRef {
    type Id: Clone + Eq + Hash;
    type CallId: Clone + Eq + Hash;

    spec fn id_spec(&self) -> Self::Id;

    spec fn role_spec(&self) -> Role;

    spec fn is_compaction_marker_spec(&self) -> bool;

    spec fn is_summary_spec(&self) -> bool;

    spec fn estimate_size_spec(&self) -> usize;

    spec fn tool_outputs_spec(&self) -> Seq<ToolOutputRef<Self::CallId>>;

    fn id(&self) -> (r: Self::Id)
        ensures
            r == self.id_spec(),
    ;

    fn role(&self) -> (r: Role)
        ensures
            r == self.role_spec(),
    ;

    /// Whether a user message only carries the marker that triggered a compaction.
    fn is_compaction_marker(&self) -> (r: bool)
        ensures
            r == self.is_compaction_marker_spec(),
    ;

    /// Whether an assistant message is a compaction summary.
    fn is_summary(&self) -> (r: bool)
        ensures
            r == self.is_summary_spec(),
    ;

    /// Estimated size of the message, in tokens.
    fn estimate_size(&self) -> (r: usize)
        ensures
            r == self.estimate_size_spec(),
    ;

    /// The tool outputs carried by the message, in order.
    fn tool_outputs(&self) -> (r: Vec<ToolOutputRef<Self::CallId>>)
        ensures
            r@ == self.tool_outputs_spec(),
    ;
}

/// A user turn: the messages `start..end`, opened by the user message with id `id`.
#[derive(Debug)]
pub struct Turn<Id> {
    pub start: usize,
    pub end: usize,
    pub id: Id,
}

/// The verbatim tail: it begins at message `start`, whose id is `id`.
#[derive(Debug)]
pub struct Tail<Id> {
    pub start: usize,
    pub id: Id,
}

/// The outcome of [`select`]: messages `..head_end` are summarised; the kept tail starts at
/// the message with id `tail_start_id`, or nothing is kept when it is `None`.
#[derive(Debug)]
pub struct SelectResult<Id> {
    pub head_end: usize,
    pub tail_start_id: Option<Id>,
}

/// A message held as plain values, for callers that have no message type of their own.
#[derive(Debug)]
pub struct MessageSnapshot {
    pub id: String,
    pub role: Role,
    pub is_compaction_marker: bool,
    pub is_summary: bool,
    pub estimate_size: usize,
    pub tool_outputs: Vec<ToolOutputRef<String>>,
}

/// A copy of a tool output.
fn copy_tool_output(t: &ToolOutputRef<String>) -> (r: ToolOutputRef<String>)
    ensures
        r == *t,
{
    ToolOutputRef {
        call_id: t.call_id.clone(),
        tool_name: t.tool_name.clone(),
        output_size: t.output_size,
        completed: t.completed,
        already_compacted: t.already_compacted,
    }
}

impl MessageRef for MessageSnapshot {
    type Id = String;

    type CallId = String;

    open spec fn id_spec(&self) -> String {
        self.id
    }

    open spec fn role_spec(&self) -> Role {
        self.role
    }

    open spec fn is_compaction_marker_spec(&self) -> bool {
        self.is_compaction_marker
    }

    open spec fn is_summary_spec(&self) -> bool {
        self.is_summary
    }

    open spec fn estimate_size_spec(&self) -> usize {
        self.estimate_size
    }

    open spec fn tool_outputs_spec(&self) -> Seq<ToolOutputRef<String>> {
        self.tool_outputs@
    }

    fn id(&self) -> (r: String) {
        self.id.clone()
    }

    fn role(&self) -> (r: Role) {
        self.role
    }

    fn is_compaction_marker(&self) -> (r: bool) {
        self.is_compaction_marker
    }

    fn is_summary(&self) -> (r: bool) {
        self.is_summary
    }

    fn estimate_size(&self) -> (r: usize) {
        self.estimate_size
    }

    fn tool_outputs(&self) -> (r: Vec<ToolOutputRef<String>>) {
        let mut out: Vec<ToolOutputRef<String>> = Vec::new();
        let mut i: usize = 0;
        while i < self.tool_outputs.len()
            invariant
                i <= self.tool_outputs@.len(),
                out@ =~= self.tool_outputs@.take(i as int),
            decreases self.tool_outputs@.len() - i,
        {
            out.push(copy_tool_output(&self.tool_outputs[i]));
            i = i + 1;
        }
        out
    }
}

// ---------------------------------------------------------------------------
// Turns
// ---------------------------------------------------------------------------

/// Whether a message opens a user turn: a user message that is not a compaction marker.
pub open spec fn opens_turn<M: MessageRef>(m: M) -> bool {
    m.role_spec() == Role::User && !m.is_compaction_marker_spec()
}

/// Indices, in increasing order, of the turn-opening messages among the first `k`.
pub open spec fn turn_starts<M: MessageRef>(msgs: Seq<M>, k: nat) -> Seq<int>
    decreases k,
{
    if k == 0 {
        Seq::empty()
    } else {
        let prev = turn_starts(msgs, (k - 1) as nat);
        if opens_turn(msgs[k - 1]) {
            prev.push(k - 1)
        } else {
            prev
        }
    }
}

/// The user turns of a conversation: each runs from its opening message to the next
/// opening message, the last one to the end of the conversation.
pub open spec fn turns_spec<M: MessageRef>(msgs: Seq<M>) -> Seq<Turn<M::Id>> {
    let s = turn_starts(msgs, msgs.len());
    Seq::new(
        s.len(),
        |j: int|
            Turn {
                start: s[j] as usize,
                end: if j + 1 < s.len() {
                    s[j + 1] as usize
                } else {
                    msgs.len() as usize
                },
                id: msgs[s[j]].id_spec(),
            },
    )
}

pub proof fn lemma_turn_starts<M: MessageRef>(msgs: Seq<M>, k: nat)
    requires
        k <= msgs.len(),
    ensures
        forall|j: int| 0 <= j < turn_starts(msgs, k).len() ==> 0 <= #[trigger] turn_starts(msgs, k)[j] < k,
        forall|j: int| 0 <= j < turn_starts(msgs, k).len() ==> opens_turn(msgs[#[trigger] turn_starts(msgs, k)[j]]),
        forall|a: int, b: int|
            0 <= a < b < turn_starts(msgs, k).len() ==> #[trigger] turn_starts(msgs, k)[a] < #[trigger] turn_starts(msgs, k)[b],
        forall|i: int| 0 <= i < k && opens_turn(#[trigger] msgs[i]) ==> turn_starts(msgs, k).contains(i),
        turn_starts(msgs, k).len() <= k,
    decreases k,
{
    if k > 0 {
        lemma_turn_starts(msgs, (k - 1) as nat);
        let prev = turn_starts(msgs, (k - 1) as nat);
        assert forall|i: int| 0 <= i < k && opens_turn(#[trigger] msgs[i]) implies turn_starts(msgs, k).contains(i) by {
            if i < k - 1 {
                let j = choose|j: int| 0 <= j < prev.len() && prev[j] == i;
                assert(turn_starts(msgs, k)[j] == i);
            } else {
                assert(turn_starts(msgs, k)[prev.len() as int] == i);
            }
        }
    }
}

/// The structure of the turns: they are in order, each opens with a user message that is
/// not a compaction marker, each ends where the next begins, the last ends with the
/// conversation, and every such user message opens a turn.
pub open spec fn turns_well_formed<M: MessageRef>(msgs: Seq<M>, t: Seq<Turn<M::Id>>) -> bool {
    &&& forall|j: int| 0 <= j < t.len() ==> (#[trigger] t[j]).start < t[j].end <= msgs.len()
    &&& forall|j: int| 0 <= j < t.len() ==> opens_turn(msgs[(#[trigger] t[j]).start as int])
    &&& forall|j: int| 0 <= j < t.len() ==> (#[trigger] t[j]).id == msgs[t[j].start as int].id_spec()
    &&& forall|j: int| 0 <= j < t.len() - 1 ==> (#[trigger] t[j]).end == t[j + 1].start
    &&& t.len() > 0 ==> t.last().end == msgs.len()
    &&& forall|i: int|
        0 <= i < msgs.len() && opens_turn(#[trigger] msgs[i]) ==> exists|j: int| 0 <= j < t.len() && t[j].start == i
}

/// The turns computed by [`turns_spec`] partition the conversation from its first user message.
pub proof fn lemma_turns_well_formed<M: MessageRef>(msgs: Seq<M>)
    requires
        msgs.len() <= usize::MAX,
    ensures
        turns_well_formed(msgs, turns_spec(msgs)),
{
    let s = turn_starts(msgs, msgs.len());
    lemma_turn_starts(msgs, msgs.len());
    let t = turns_spec(msgs);
    assert forall|j: int| 0 <= j < t.len() implies (#[trigger] t[j]).start < t[j].end <= msgs.len() by {
        if j + 1 < s.len() {
            assert(s[j] < s[j + 1]);
        }
    }
    assert forall|i: int| 0 <= i < msgs.len() && opens_turn(#[trigger] msgs[i]) implies exists|j: int|
        0 <= j < t.len() && t[j].start == i by {
        let j = choose|j: int| 0 <= j < s.len() && s[j] == i;
        assert(t[j].start == i);
    }
}

/// Splits the conversation into user turns; see [`turns_spec`].
pub fn turns<M: MessageRef>(messages: &[M]) -> (r: Vec<Turn<M::Id>>)
    ensures
        r@ == turns_spec(messages@),
        turns_well_formed(messages@, r@),
{
    let n = messages.len();
    let mut starts: Vec<usize> = Vec::new();
    let mut i: usize = 0;
    while i < n
        invariant
            n == messages@.len(),
            i <= n,
            starts@.len() == turn_starts(messages@, i as nat).len(),
            forall|j: int| 0 <= j < starts@.len() ==> starts@[j] as int == #[trigger] turn_starts(messages@, i as nat)[j],
        decreases n - i,
    {
        let msg = &messages[i];
        if msg.role() == Role::User && !msg.is_compaction_marker() {
            starts.push(i);
        }
        i = i + 1;
    }
    let ghost s = turn_starts(messages@, n as nat);
    proof {
        lemma_turn_starts(messages@, n as nat);
    }
    let len = starts.len();
    let mut result: Vec<Turn<M::Id>> = Vec::new();
    let mut j: usize = 0;
    while j < len
        invariant
            n == messages@.len(),
            len == starts@.len(),
            len == s.len(),
            s == turn_starts(messages@, n as nat),
            forall|k: int| 0 <= k < len ==> starts@[k] as int == #[trigger] s[k],
            forall|k: int| 0 <= k < len ==> 0 <= #[trigger] s[k] < n,
            j <= len,
            result@.len() == j,
            forall|k: int| 0 <= k < j ==> #[trigger] result@[k] == turns_spec(messages@)[k],
        decreases len - j,
    {
        let start = starts[j];
        assert(s[j as int] < n);
        let end = if j + 1 < len {
            starts[j + 1]
        } else {
            n
        };
        let id = messages[start].id();
        result.push(Turn { start, end, id });
        j = j + 1;
    }
    proof {
        assert(result@ =~= turns_spec(messages@));
        lemma_turns_well_formed(messages@);
    }
    result
}

// ---------------------------------------------------------------------------
// Size estimates supplied by the caller
// ---------------------------------------------------------------------------

/// Whether the estimator returned `r` for some slice whose contents are `s`.
pub open spec fn has_result<T, F: Fn(&[T]) -> usize>(f: F, s: Seq<T>, r: usize) -> bool {
    exists|sl: &[T]| sl@ == s && #[trigger] call_ensures(f, (sl,), r)
}

/// The estimate of a slice with contents `s`, as a function of the contents.
pub open spec fn est_of<T, F: Fn(&[T]) -> usize>(f: F, s: Seq<T>) -> usize {
    choose|r: usize| #[trigger] has_result(f, s, r)
}

/// The estimator gives equal results on slices with equal contents.
pub open spec fn deterministic<T, F: Fn(&[T]) -> usize>(f: F) -> bool {
    forall|a: &[T], b: &[T], ra: usize, rb: usize|
        a@ == b@ && #[trigger] call_ensures(f, (a,), ra) && #[trigger] call_ensures(f, (b,), rb)
            ==> ra == rb
}

/// The estimator as a spec function on contents.
pub open spec fn est_fn<T, F: Fn(&[T]) -> usize>(f: F) -> spec_fn(Seq<T>) -> int {
    |s: Seq<T>| est_of(f, s) as int
}

/// Calls the estimator on `messages[start..end]`.
fn estimate_range<M, EstFn: Fn(&[M]) -> usize>(
    messages: &[M],
    start: usize,
    end: usize,
    estimate: &EstFn,
) -> (r: usize)
    requires
        start <= end <= messages@.len(),
        forall|s: &[M]| call_requires(*estimate, (s,)),
    ensures
        deterministic(*estimate) ==> r == est_of(*estimate, messages@.subrange(start as int, end as int)),
{
    let sl = slice_subrange(messages, start, end);
    let r = estimate(sl);
    proof {
        if deterministic(*estimate) {
            assert(has_result(*estimate, sl@, r));
            let r2 = est_of(*estimate, sl@);
            assert(has_result(*estimate, sl@, r2));
            let sl2 = choose|sl2: &[M]| sl2@ == sl@ && call_ensures(*estimate, (sl2,), r2);
            assert(call_ensures(*estimate, (sl2,), r2));
        }
    }
    r
}

// ---------------------------------------------------------------------------
// Choosing the verbatim tail
// ---------------------------------------------------------------------------

/// `a - b`, or 0 when `b > a`.
pub open spec fn sat_sub(a: int, b: int) -> int {
    if a > b {
        a - b
    } else {
        0
    }
}

/// The first `s` in `from..end` such that `msgs[s..end]` fits the budget.
pub open spec fn first_fit<M>(
    msgs: Seq<M>,
    from: int,
    end: int,
    budget: int,
    est: spec_fn(Seq<M>) -> int,
) -> Option<int>
    decreases end - from,
{
    if from >= end {
        None
    } else if est(msgs.subrange(from, end)) > budget {
        first_fit(msgs, from + 1, end, budget, est)
    } else {
        Some(from)
    }
}

/// Where a turn `start..end` that does not fit as a whole can be cut so that its end
/// fits `budget`: the earliest cut after its opening message, if any fits.
pub open spec fn split_turn_spec<M>(
    msgs: Seq<M>,
    start: int,
    end: int,
    budget: int,
    est: spec_fn(Seq<M>) -> int,
) -> Option<int> {
    if budget == 0 || end - start <= 1 {
        None
    } else {
        first_fit(msgs, start + 1, end, budget, est)
    }
}

/// Scans the recent turns from the last one back. Whole turns are taken while their
/// sizes add up within the budget; the first turn that does not fit ends the scan, and
/// contributes its best cut if it has one. The result is where the kept tail starts.
pub open spec fn keep_scan<M: MessageRef>(
    msgs: Seq<M>,
    recent: Seq<Turn<M::Id>>,
    i: int,
    total: int,
    keep: Option<int>,
    budget: int,
    est: spec_fn(Seq<M>) -> int,
) -> Option<int>
    decreases i,
{
    if i <= 0 {
        keep
    } else {
        let t = recent[i - 1];
        let size = est(msgs.subrange(t.start as int, t.end as int));
        if total + size <= budget {
            keep_scan(msgs, recent, i - 1, total + size, Some(t.start as int), budget, est)
        } else {
            match split_turn_spec(msgs, t.start as int, t.end as int, sat_sub(budget, total), est) {
                Some(x) => Some(x),
                None => keep,
            }
        }
    }
}

/// The last `cfg.tail_turns` turns.
pub open spec fn recent_turns<M: MessageRef>(msgs: Seq<M>, cfg: CompactionConfig) -> Seq<Turn<M::Id>> {
    let all = turns_spec(msgs);
    all.skip(sat_sub(all.len() as int, cfg.tail_turns as int))
}

/// The token budget of the verbatim tail.
pub open spec fn tail_budget(cfg: CompactionConfig, model: ModelLimit) -> int {
    cfg.budget_spec(usable_spec(cfg, model) as nat) as int
}

/// Where the kept tail starts, if anything is kept.
pub open spec fn select_keep<M: MessageRef>(
    msgs: Seq<M>,
    cfg: CompactionConfig,
    model: ModelLimit,
    est: spec_fn(Seq<M>) -> int,
) -> Option<int> {
    if cfg.tail_turns == 0 || turns_spec(msgs).len() == 0 {
        None
    } else {
        let recent = recent_turns(msgs, cfg);
        keep_scan(msgs, recent, recent.len() as int, 0, None, tail_budget(cfg, model), est)
    }
}

/// The result of [`select`] for a given tail start: a tail starting at the first message
/// is no tail at all, since nothing would be summarised.
pub open spec fn select_result_matches<M: MessageRef>(
    msgs: Seq<M>,
    keep: Option<int>,
    r: SelectResult<M::Id>,
) -> bool {
    match keep {
        Some(s) if s != 0 => r.head_end == s && r.tail_start_id == Some(msgs[s].id_spec()),
        _ => r.head_end == msgs.len() && r.tail_start_id is None,
    }
}

/// The start of an optional tail.
pub open spec fn tail_start<Id>(t: Option<Tail<Id>>) -> Option<int> {
    match t {
        Some(t) => Some(t.start as int),
        None => None,
    }
}

/// `first_fit` only returns a cut inside the searched range.
pub proof fn lemma_first_fit_range<M>(
    msgs: Seq<M>,
    from: int,
    end: int,
    budget: int,
    est: spec_fn(Seq<M>) -> int,
)
    ensures
        first_fit(msgs, from, end, budget, est) matches Some(x) ==> from <= x < end
            && est(msgs.subrange(x, end)) <= budget,
    decreases end - from,
{
    if from < end && est(msgs.subrange(from, end)) > budget {
        lemma_first_fit_range(msgs, from + 1, end, budget, est);
    }
}

/// Searches the turn for the earliest cut whose end fits `budget`; see [`split_turn_spec`].
fn split_turn<M: MessageRef, EstFn: Fn(&[M]) -> usize>(
    messages: &[M],
    turn: &Turn<M::Id>,
    budget: usize,
    estimate: &EstFn,
) -> (r: Option<Tail<M::Id>>)
    requires
        turn.start <= turn.end <= messages@.len(),
        forall|s: &[M]| call_requires(*estimate, (s,)),
    ensures
        deterministic(*estimate) ==> match r {
            Some(t) => split_turn_spec(
                messages@,
                turn.start as int,
                turn.end as int,
                budget as int,
                est_fn(*estimate),
            ) == Some(t.start as int),
            None => split_turn_spec(
                messages@,
                turn.start as int,
                turn.end as int,
                budget as int,
                est_fn(*estimate),
            ) is None,
        },
        r matches Some(t) ==> turn.start < t.start < turn.end && t.id == messages@[t.start as int].id_spec(),
{
    if budget == 0 {
        return None;
    }
    if turn.end - turn.start <= 1 {
        return None;
    }
    let ghost est = est_fn(*estimate);
    let mut start = turn.start + 1;
    while start < turn.end
        invariant
            turn.start < start <= turn.end <= messages@.len(),
            forall|s: &[M]| call_requires(*estimate, (s,)),
            est == est_fn(*estimate),
            budget > 0,
            turn.end - turn.start > 1,
            deterministic(*estimate) ==> split_turn_spec(
                messages@,
                turn.start as int,
                turn.end as int,
                budget as int,
                est,
            ) == first_fit(messages@, start as int, turn.end as int, budget as int, est),
        decreases turn.end - start,
    {
        let size = estimate_range(messages, start, turn.end, estimate);
        if size > budget {
            start = start + 1;
            continue;
        }
        return Some(Tail { start, id: messages[start].id() });
    }
    None
}

/// Turns further along the conversation start later.
proof fn lemma_turn_starts_ordered<M: MessageRef>(msgs: Seq<M>, t: Seq<Turn<M::Id>>, a: int, b: int)
    requires
        turns_well_formed(msgs, t),
        0 <= a <= b < t.len(),
    ensures
        t[a].start <= t[b].start,
    decreases b - a,
{
    if a < b {
        lemma_turn_starts_ordered(msgs, t, a, b - 1);
        assert(t[b - 1].end == t[b].start);
        assert(t[b - 1].start < t[b - 1].end);
    }
}

/// The index of the first of the last `tail_turns` turns among `count` turns.
pub open spec fn first_recent_index(count: int, tail_turns: int) -> int {
    if count > tail_turns {
        count - tail_turns
    } else {
        0
    }
}

/// Chooses the head to summarise and the tail to keep verbatim.
///
/// Of the last `cfg.tail_turns` user turns, whole turns are kept from the end back while
/// their estimated sizes fit the tail budget; the first turn that does not fit is cut at
/// the earliest point whose remainder fits, if there is one, and the scan stops there.
/// When nothing is kept, or the kept tail would be the whole conversation, everything is
/// summarised. `estimate_slice` estimates the size of a run of messages; when it depends
/// only on the contents of the run, the result is exactly the one described by
/// [`select_keep`]. Whatever the estimator, a conversation without user turns is summarised
/// whole, and a kept tail starts within the last `cfg.tail_turns` turns.
pub fn select<M: MessageRef, EstFn: Fn(&[M]) -> usize>(
    messages: &[M],
    cfg: &CompactionConfig,
    model: ModelLimit,
    estimate_slice: EstFn,
) -> (r: SelectResult<M::Id>)
    requires
        forall|s: &[M]| call_requires(estimate_slice, (s,)),
    ensures
        deterministic(estimate_slice) ==> select_result_matches(
            messages@,
            select_keep(messages@, *cfg, model, est_fn(estimate_slice)),
            r,
        ),
        r.head_end <= messages@.len(),
        r.tail_start_id matches Some(id) ==> 0 < r.head_end < messages@.len() && id
            == messages@[r.head_end as int].id_spec(),
        r.tail_start_id is None ==> r.head_end == messages@.len(),
        cfg.tail_turns == 0 ==> r.tail_start_id is None,
        turns_spec(messages@).len() == 0 ==> r.tail_start_id is None && r.head_end == messages@.len(),
        r.tail_start_id is Some ==> turns_spec(messages@).len() > 0 && turns_spec(messages@)[first_recent_index(
            turns_spec(messages@).len() as int,
            cfg.tail_turns as int,
        )].start <= r.head_end,
{
    let n = messages.len();
    let ghost msgs = messages@;
    let ghost est = est_fn(estimate_slice);
    let limit = cfg.tail_turns;
    if limit == 0 {
        return SelectResult { head_end: n, tail_start_id: None };
    }
    let usable_tokens = usable(cfg, model);
    let budget = cfg.preserve_recent_budget(usable_tokens);
    let all = turns(messages);
    if all.len() == 0 {
        return SelectResult { head_end: n, tail_start_id: None };
    }
    let recent_start = if all.len() > limit {
        all.len() - limit
    } else {
        0
    };
    let rlen = all.len() - recent_start;
    let ghost recent = recent_turns(msgs, *cfg);
    proof {
        assert(recent =~= all@.skip(recent_start as int));
    }
    let mut sizes: Vec<usize> = Vec::new();
    let mut j: usize = 0;
    while j < rlen
        invariant
            msgs == messages@,
            n == msgs.len(),
            est == est_fn(estimate_slice),
            forall|s: &[M]| call_requires(estimate_slice, (s,)),
            turns_well_formed(msgs, all@),
            recent == all@.skip(recent_start as int),
            recent_start + rlen == all@.len(),
            all.len() == recent_start + rlen,
            j <= rlen,
            sizes@.len() == j,
            deterministic(estimate_slice) ==> forall|k: int|
                0 <= k < j ==> #[trigger] sizes@[k] == est(
                    msgs.subrange(recent[k].start as int, recent[k].end as int),
                ),
        decreases rlen - j,
    {
        let t = &all[recent_start + j];
        assert(t.start < t.end <= n);
        let size = estimate_range(messages, t.start, t.end, &estimate_slice);
        sizes.push(size);
        j = j + 1;
    }
    let mut total: usize = 0;
    let mut keep: Option<Tail<M::Id>> = None;
    let mut done = false;
    let mut i: usize = rlen;
    let ghost goal = keep_scan(msgs, recent, rlen as int, 0, None, budget as int, est);
    proof {
        lemma_usable_nonneg(*cfg, model);
    }
    while i > 0 && !done
        invariant
            msgs == messages@,
            n == msgs.len(),
            est == est_fn(estimate_slice),
            forall|s: &[M]| call_requires(estimate_slice, (s,)),
            turns_well_formed(msgs, all@),
            recent == all@.skip(recent_start as int),
            recent_start + rlen == all@.len(),
            all.len() == recent_start + rlen,
            sizes@.len() == rlen,
            deterministic(estimate_slice) ==> forall|k: int|
                0 <= k < rlen ==> #[trigger] sizes@[k] == est(
                    msgs.subrange(recent[k].start as int, recent[k].end as int),
                ),
            i <= rlen,
            total <= budget,
            keep matches Some(t) ==> t.start < n && t.id == msgs[t.start as int].id_spec(),
            rlen > 0,
            keep matches Some(t) ==> all@[recent_start as int].start <= t.start,
            deterministic(estimate_slice) ==> goal == if done {
                tail_start(keep)
            } else {
                keep_scan(
                    msgs,
                    recent,
                    i as int,
                    total as int,
                    tail_start(keep),
                    budget as int,
                    est,
                )
            },
        decreases i + if done { 0int } else { 1int },
    {
        let turn = &all[recent_start + i - 1];
        let size = sizes[i - 1];
        assert(turn.start < turn.end <= n);
        proof {
            lemma_turn_starts_ordered(msgs, all@, recent_start as int, (recent_start + i - 1) as int);
        }
        if size <= budget - total {
            total = total + size;
            keep = Some(Tail { start: turn.start, id: messages[turn.start].id() });
            i = i - 1;
        } else {
            let remaining = budget - total;
            let split = split_turn(messages, turn, remaining, &estimate_slice);
            if split.is_some() {
                keep = split;
            }
            done = true;
        }
    }
    proof {
        if deterministic(estimate_slice) {
            assert(goal == tail_start(keep));
        }
    }
    match keep {
        None => SelectResult { head_end: n, tail_start_id: None },
        Some(t) => {
            if t.start == 0 {
                SelectResult { head_end: n, tail_start_id: None }
            } else {
                SelectResult { head_end: t.start, tail_start_id: Some(t.id) }
            }
        },
    }
}

// ---------------------------------------------------------------------------
// Pruning old tool outputs
// ---------------------------------------------------------------------------

/// Tools whose outputs are never pruned: `skill`.
pub open spec fn is_protected_tool(name: Seq<char>) -> bool {
    name == seq!['s', 'k', 'i', 'l', 'l']
}

/// The running state of a pruning pass: tokens seen, tokens pruned, outputs chosen,
/// and whether an already-pruned output ended the pass.
pub open spec fn prune_outputs<Id, C>(
    id: Id,
    outs: Seq<ToolOutputRef<C>>,
    total: int,
    pruned: int,
    acc: Seq<(Id, C)>,
) -> (int, int, Seq<(Id, C)>, bool)
    decreases outs.len(),
{
    if outs.len() == 0 {
        (total, pruned, acc, false)
    } else {
        let tp = outs.last();
        let rest = outs.drop_last();
        if !tp.completed || is_protected_tool(tp.tool_name@) {
            prune_outputs(id, rest, total, pruned, acc)
        } else if tp.already_compacted {
            (total, pruned, acc, true)
        } else {
            let t2 = total + tp.output_size;
            if t2 <= PRUNE_PROTECT {
                prune_outputs(id, rest, t2, pruned, acc)
            } else {
                prune_outputs(id, rest, t2, pruned + tp.output_size, acc.push((id, tp.call_id)))
            }
        }
    }
}

/// Walks the messages `..k` from the last one back. Messages after the second user
/// message from the end are skipped; a summary stops the walk, and so does an output
/// pruned before. Within a message, outputs are visited from the last one back; completed
/// outputs of unprotected tools add to the total, and once the total passes
/// `PRUNE_PROTECT` each further output is chosen.
pub open spec fn prune_msgs<M: MessageRef>(
    msgs: Seq<M>,
    k: int,
    seen: int,
    total: int,
    pruned: int,
    acc: Seq<(M::Id, M::CallId)>,
) -> (int, Seq<(M::Id, M::CallId)>)
    decreases k,
{
    if k <= 0 {
        (pruned, acc)
    } else {
        let m = msgs[k - 1];
        let seen2 = if m.role_spec() == Role::User {
            seen + 1
        } else {
            seen
        };
        if seen2 < 2 {
            prune_msgs(msgs, k - 1, seen2, total, pruned, acc)
        } else if m.role_spec() == Role::Assistant && m.is_summary_spec() {
            (pruned, acc)
        } else {
            let r = prune_outputs(m.id_spec(), m.tool_outputs_spec(), total, pruned, acc);
            if r.3 {
                (r.1, r.2)
            } else {
                prune_msgs(msgs, k - 1, seen2, r.0, r.1, r.2)
            }
        }
    }
}

/// The outputs to prune: those chosen by the walk, provided they add up to more than
/// `PRUNE_MINIMUM` tokens; otherwise none.
pub open spec fn prune_spec<M: MessageRef>(msgs: Seq<M>) -> Seq<(M::Id, M::CallId)> {
    let r = prune_msgs(msgs, msgs.len() as int, 0, 0, 0, Seq::empty());
    if r.0 > PRUNE_MINIMUM {
        r.1
    } else {
        Seq::empty()
    }
}

/// `min(v, usize::MAX)`.
pub open spec fn cap(v: int) -> int {
    if v > usize::MAX {
        usize::MAX as int
    } else {
        v
    }
}

/// Whether a tool name is one whose outputs are never pruned.
fn is_protected_tool_name(name: &String) -> (r: bool)
    ensures
        r == is_protected_tool(name@),
{
    let lit = "skill";
    proof {
        reveal_strlit("skill");
        assert(lit@ =~= seq!['s', 'k', 'i', 'l', 'l']);
    }
    crate::text::str_eq(name.as_str(), lit)
}

/// Chooses the tool outputs to replace by placeholders, as `(message id, call id)` pairs
/// in the order they were found; see [`prune_spec`].
pub fn prune_decisions<M: MessageRef>(messages: &[M]) -> (r: Vec<(M::Id, M::CallId)>)
    ensures
        r@ == prune_spec(messages@),
{
    let ghost msgs = messages@;
    let ghost goal = prune_msgs(msgs, msgs.len() as int, 0, 0, 0, Seq::empty());
    let mut total: usize = 0;
    let mut pruned: usize = 0;
    let mut to_prune: Vec<(M::Id, M::CallId)> = Vec::new();
    let mut seen: usize = 0;
    let ghost mut total_g: int = 0;
    let ghost mut pruned_g: int = 0;
    let mut k: usize = messages.len();
    let mut stop = false;
    while k > 0 && !stop
        invariant
            msgs == messages@,
            k <= msgs.len(),
            !stop ==> seen <= msgs.len() - k,
            total_g >= 0,
            pruned_g >= 0,
            total as int == cap(total_g),
            pruned as int == cap(pruned_g),
            goal == if stop {
                (pruned_g, to_prune@)
            } else {
                prune_msgs(msgs, k as int, seen as int, total_g, pruned_g, to_prune@)
            },
        decreases k + if stop { 0int } else { 1int },
    {
        let msg = &messages[k - 1];
        let role = msg.role();
        if role == Role::User {
            seen = seen + 1;
        }
        if seen < 2 {
            k = k - 1;
        } else if role == Role::Assistant && msg.is_summary() {
            stop = true;
        } else {
            let id = msg.id();
            let ghost outs_full = msg.tool_outputs_spec();
            let ghost t0 = total_g;
            let ghost p0 = pruned_g;
            let ghost a0 = to_prune@;
            let mut outputs = msg.tool_outputs();
            let mut stop_inner = false;
            while outputs.len() > 0 && !stop_inner
                invariant
                    id == msg.id_spec(),
                    total_g >= 0,
                    pruned_g >= 0,
                    total as int == cap(total_g),
                    pruned as int == cap(pruned_g),
                    prune_outputs(id, outs_full, t0, p0, a0) == if stop_inner {
                        (total_g, pruned_g, to_prune@, true)
                    } else {
                        prune_outputs(id, outputs@, total_g, pruned_g, to_prune@)
                    },
                decreases outputs@.len() + if stop_inner { 0int } else { 1int },
            {
                let tp = outputs.pop().unwrap();
                if !tp.completed || is_protected_tool_name(&tp.tool_name) {
                } else if tp.already_compacted {
                    stop_inner = true;
                } else {
                    let size = tp.output_size;
                    total = total.saturating_add(size);
                    proof {
                        total_g = total_g + size;
                    }
                    if total <= PRUNE_PROTECT {
                    } else {
                        pruned = pruned.saturating_add(size);
                        proof {
                            pruned_g = pruned_g + size;
                        }
                        to_prune.push((msg.id(), tp.call_id));
                    }
                }
            }
            if stop_inner {
                stop = true;
            } else {
                k = k - 1;
            }
        }
    }
    if pruned > PRUNE_MINIMUM {
        to_prune
    } else {
        Vec::new()
    }
}

/// Number of user messages among `msgs[k..]`.
pub open spec fn users_from<M: MessageRef>(msgs: Seq<M>, k: int) -> int
    decreases msgs.len() - k,
{
    if k < 0 || k >= msgs.len() {
        0
    } else {
        (if msgs[k].role_spec() == Role::User {
            1int
        } else {
            0int
        }) + users_from(msgs, k + 1)
    }
}

/// `pair` names output `t` of message `k`, which pruning may touch: at least two user
/// messages lie at or after `k` (so the last two user turns are untouched), and the output
/// is completed, not of a protected tool, and not pruned before.
pub open spec fn prunable_at<M: MessageRef>(msgs: Seq<M>, pair: (M::Id, M::CallId), k: int, t: int) -> bool {
    let outs = msgs[k].tool_outputs_spec();
    &&& 0 <= k < msgs.len()
    &&& users_from(msgs, k) >= 2
    &&& msgs[k].id_spec() == pair.0
    &&& 0 <= t < outs.len()
    &&& outs[t].call_id == pair.1
    &&& outs[t].completed
    &&& !is_protected_tool(outs[t].tool_name@)
    &&& !outs[t].already_compacted
}

/// `pair` names some prunable output of `msgs`.
pub open spec fn names_prunable<M: MessageRef>(msgs: Seq<M>, pair: (M::Id, M::CallId)) -> bool {
    exists|k: int, t: int| #[trigger] prunable_at(msgs, pair, k, t)
}

/// Every pair of `acc` names a prunable output.
pub open spec fn all_prunable<M: MessageRef>(msgs: Seq<M>, acc: Seq<(M::Id, M::CallId)>) -> bool {
    forall|i: int| 0 <= i < acc.len() ==> #[trigger] names_prunable(msgs, acc[i])
}

proof fn lemma_prune_outputs_prunable<M: MessageRef>(
    msgs: Seq<M>,
    k: int,
    m: int,
    total: int,
    pruned: int,
    acc: Seq<(M::Id, M::CallId)>,
)
    requires
        0 <= k < msgs.len(),
        users_from(msgs, k) >= 2,
        0 <= m <= msgs[k].tool_outputs_spec().len(),
        all_prunable(msgs, acc),
    ensures
        all_prunable(
            msgs,
            prune_outputs(
                msgs[k].id_spec(),
                msgs[k].tool_outputs_spec().take(m),
                total,
                pruned,
                acc,
            ).2,
        ),
    decreases m,
{
    let full = msgs[k].tool_outputs_spec();
    let outs = full.take(m);
    if m > 0 {
        let tp = outs.last();
        assert(tp == full[m - 1]);
        assert(outs.drop_last() =~= full.take(m - 1));
        if !tp.completed || is_protected_tool(tp.tool_name@) {
            lemma_prune_outputs_prunable(msgs, k, m - 1, total, pruned, acc);
        } else if tp.already_compacted {
        } else {
            let t2 = total + tp.output_size;
            if t2 <= PRUNE_PROTECT {
                lemma_prune_outputs_prunable(msgs, k, m - 1, t2, pruned, acc);
            } else {
                let pair = (msgs[k].id_spec(), tp.call_id);
                let acc2 = acc.push(pair);
                assert(prunable_at(msgs, pair, k, m - 1));
                assert forall|i: int| 0 <= i < acc2.len() implies #[trigger] names_prunable(
                    msgs,
                    acc2[i],
                ) by {
                    if i < acc.len() {
                        assert(acc2[i] == acc[i]);
                    } else {
                        assert(acc2[i] == pair);
                        assert(prunable_at(msgs, acc2[i], k, m - 1));
                    }
                }
                lemma_prune_outputs_prunable(msgs, k, m - 1, t2, pruned + tp.output_size, acc2);
            }
        }
    }
}

proof fn lemma_prune_msgs_prunable<M: MessageRef>(
    msgs: Seq<M>,
    k: int,
    seen: int,
    total: int,
    pruned: int,
    acc: Seq<(M::Id, M::CallId)>,
)
    requires
        0 <= k <= msgs.len(),
        seen == users_from(msgs, k),
        all_prunable(msgs, acc),
    ensures
        all_prunable(msgs, prune_msgs(msgs, k, seen, total, pruned, acc).1),
    decreases k,
{
    if k > 0 {
        let m = msgs[k - 1];
        let seen2 = if m.role_spec() == Role::User {
            seen + 1
        } else {
            seen
        };
        assert(seen2 == users_from(msgs, k - 1));
        if seen2 < 2 {
            lemma_prune_msgs_prunable(msgs, k - 1, seen2, total, pruned, acc);
        } else if m.role_spec() == Role::Assistant && m.is_summary_spec() {
        } else {
            let full = m.tool_outputs_spec();
            assert(full.take(full.len() as int) =~= full);
            lemma_prune_outputs_prunable(msgs, k - 1, full.len() as int, total, pruned, acc);
            let r = prune_outputs(m.id_spec(), full, total, pruned, acc);
            if !r.3 {
                lemma_prune_msgs_prunable(msgs, k - 1, seen2, r.0, r.1, r.2);
            }
        }
    }
}

/// What pruning touches: every output it chooses belongs to a message with at least two
/// user messages at or after it, so the two most recent user turns are never touched, and
/// is a completed output of an unprotected tool that was not pruned before.
pub proof fn lemma_prune_spares_recent_turns<M: MessageRef>(msgs: Seq<M>)
    ensures
        all_prunable(msgs, prune_spec(msgs)),
{
    lemma_prune_msgs_prunable(msgs, msgs.len() as int, 0, 0, 0, Seq::empty());
}

proof fn lemma_usable_nonneg(cfg: CompactionConfig, model: ModelLimit)
    ensures
        usable_spec(cfg, model) >= 0,
{
}

} // verus!
