//! The subagents that a session's tool calls have spawned.
//!
//! A subagent is tracked from the preview of its tool call on. Its end is
//! reported by a turn whose text starts with a tag, or by a status event; one of
//! which neither comes in time is marked as lost, until one does.

use vstd::prelude::*;

use crate::json;
use crate::json::{Json, JsonView};
use crate::model;
use crate::model::Duplicate;
use crate::text;

verus! {

/// After this many milliseconds without a report a subagent counts as lost.
pub const SUBAGENT_GHOST_TIMEOUT_MS: u64 = 600_000;

/// What is known of a subagent's run.
#[derive(Debug, Clone, Copy, PartialEq, Eq, Structural)]
pub enum SubagentState {
    Working,
    Done,
    Error,
    Timeout,
    Cancelled,
    /// No report came in time.
    Lost,
}

/// One tracked subagent.
#[derive(Debug)]
pub struct SubagentItem {
    /// The tool call that spawned it.
    pub call_id: String,
    pub name: String,
    /// The subagent's own session; empty while unknown.
    pub seed: String,
    pub state: SubagentState,
    /// When it was spawned, in milliseconds since the epoch.
    pub started_at: u64,
    /// When its end was reported; 0 while it works.
    pub finished_at: u64,
}

/// The model of a `SubagentItem`.
#[verifier::ext_equal]
pub struct SubagentView {
    pub call_id: Seq<char>,
    pub name: Seq<char>,
    pub seed: Seq<char>,
    pub state: SubagentState,
    pub started_at: u64,
    pub finished_at: u64,
}

impl View for SubagentItem {
    type V = SubagentView;

    open spec fn view(&self) -> SubagentView {
        SubagentView {
            call_id: self.call_id@,
            name: self.name@,
            seed: self.seed@,
            state: self.state,
            started_at: self.started_at,
            finished_at: self.finished_at,
        }
    }
}

impl Duplicate for SubagentItem {
    fn duplicate(&self) -> (r: SubagentItem) {
        SubagentItem {
            call_id: self.call_id.clone(),
            name: self.name.clone(),
            seed: self.seed.clone(),
            state: self.state,
            started_at: self.started_at,
            finished_at: self.finished_at,
        }
    }
}

/// The name and end that a turn's text reports with its leading tag
/// `[SUBAGENT 'name' STATE...]`.
pub open spec fn injection_in(turn_text: Seq<char>) -> Option<(Seq<char>, SubagentState)> {
    match text::behind_prefix(text::trimmed_start(turn_text), "[SUBAGENT '"@) {
        None => None,
        Some(rest) => match text::cut_at(rest, "' "@) {
            None => None,
            Some((name, tag)) => if text::has_prefix(tag, "COMPLETED]"@) {
                Some((name, SubagentState::Done))
            } else if text::has_prefix(tag, "ERROR"@) {
                Some((name, SubagentState::Error))
            } else if text::has_prefix(tag, "TIMEOUT"@) {
                Some((name, SubagentState::Timeout))
            } else if text::has_prefix(tag, "CANCELLED]"@) {
                Some((name, SubagentState::Cancelled))
            } else {
                None
            },
        },
    }
}

/// `injection_in`, executable.
pub fn parse_subagent_injection(turn_text: &str) -> (r: Option<(String, SubagentState)>)
    ensures
        match (r, injection_in(turn_text@)) {
            (Some((name, state)), Some((n, s))) => name@ == n && state == s,
            (None, None) => true,
            _ => false,
        },
{
    let body = text::trim_start(turn_text);
    let rest = match text::strip_prefix(body.as_str(), "[SUBAGENT '") {
        Some(rest) => rest,
        None => return None,
    };
    let (name, tag) = match text::split_once(rest.as_str(), "' ") {
        Some(parts) => parts,
        None => return None,
    };
    let tag = tag.as_str();
    if text::starts_with(tag, "COMPLETED]") {
        Some((name, SubagentState::Done))
    } else if text::starts_with(tag, "ERROR") {
        Some((name, SubagentState::Error))
    } else if text::starts_with(tag, "TIMEOUT") {
        Some((name, SubagentState::Timeout))
    } else if text::starts_with(tag, "CANCELLED]") {
        Some((name, SubagentState::Cancelled))
    } else {
        None
    }
}

/// The end that a status event names.
pub open spec fn state_of_tag(tag: Seq<char>) -> Option<SubagentState> {
    if tag == "COMPLETED"@ {
        Some(SubagentState::Done)
    } else if tag == "ERROR"@ {
        Some(SubagentState::Error)
    } else if tag == "TIMEOUT"@ {
        Some(SubagentState::Timeout)
    } else if tag == "CANCELLED"@ {
        Some(SubagentState::Cancelled)
    } else {
        None
    }
}

/// `state_of_tag`, executable.
pub fn subagent_state_from_tag(tag: &str) -> (r: Option<SubagentState>)
    ensures
        r == state_of_tag(tag@),
{
    if text::same(tag, "COMPLETED") {
        Some(SubagentState::Done)
    } else if text::same(tag, "ERROR") {
        Some(SubagentState::Error)
    } else if text::same(tag, "TIMEOUT") {
        Some(SubagentState::Timeout)
    } else if text::same(tag, "CANCELLED") {
        Some(SubagentState::Cancelled)
    } else {
        None
    }
}

/// The name that the arguments of a spawning tool call give, if it is not blank.
pub open spec fn agent_name_in(args: JsonView) -> Option<Seq<char>> {
    match args.text_field("agent_name"@) {
        Some(name) => if text::blank(name) {
            None
        } else {
            Some(name)
        },
        None => None,
    }
}

/// `agent_name_in`, executable.
pub fn agent_name_of(args: &Json) -> (r: Option<String>)
    ensures
        model::opt_view(r) == agent_name_in(args@),
{
    match args.text_field("agent_name") {
        Some(name) => if text::is_blank(name.as_str()) {
            None
        } else {
            Some(name)
        },
        None => None,
    }
}

/// The name that the raw arguments of a spawning tool call give. Arguments that
/// are still streaming in are no JSON text and give none.
pub open spec fn agent_name_text(args: Seq<char>) -> Option<Seq<char>> {
    match json::json_text(args) {
        Some(value) => agent_name_in(value),
        None => None,
    }
}

/// `agent_name_text`, executable.
pub fn parse_agent_name(args_so_far: &str) -> (r: Option<String>)
    ensures
        model::opt_view(r) == agent_name_text(args_so_far@),
{
    match json::parse(args_so_far) {
        Some(value) => agent_name_of(&value),
        None => None,
    }
}

/// The session of a spawned subagent, in the result of the tool call: an object
/// with a number `process_id` and a text `seed` that is not empty.
pub open spec fn spawn_seed_in(result: JsonView) -> Option<Seq<char>> {
    match (result.field("process_id"@), result.text_field("seed"@)) {
        (Some(JsonView::Number(_)), Some(seed)) => if seed.len() > 0 {
            Some(seed)
        } else {
            None
        },
        _ => None,
    }
}

/// `spawn_seed_in`, executable.
pub fn spawn_seed_of(result: &Json) -> (r: Option<String>)
    ensures
        model::opt_view(r) == spawn_seed_in(result@),
{
    let has_pid = match result.get("process_id") {
        Some(Json::Number(_)) => true,
        _ => false,
    };
    match result.text_field("seed") {
        Some(seed) => if has_pid && !seed.as_str().is_empty() {
            Some(seed)
        } else {
            None
        },
        None => None,
    }
}

/// The session of a spawned subagent, in the raw result of the tool call.
pub open spec fn spawn_seed_text(result: Seq<char>) -> Option<Seq<char>> {
    match json::json_text(result) {
        Some(value) => spawn_seed_in(value),
        None => None,
    }
}

/// `spawn_seed_text`, executable.
pub fn parse_spawn_seed(model_text: &str) -> (r: Option<String>)
    ensures
        model::opt_view(r) == spawn_seed_text(model_text@),
{
    match json::parse(model_text) {
        Some(value) => spawn_seed_of(&value),
        None => None,
    }
}

/// Whether a list tracks the tool call `call_id`.
pub open spec fn tracks(list: Seq<SubagentView>, call_id: Seq<char>) -> bool {
    exists|i: int| 0 <= i < list.len() && (#[trigger] list[i]).call_id == call_id
}

/// No tool call is tracked twice.
pub open spec fn one_per_call(list: Seq<SubagentView>) -> bool {
    forall|i: int, j: int|
        0 <= i < j < list.len() ==> (#[trigger] list[i]).call_id != (#[trigger] list[j]).call_id
}

/// The name of a subagent that gave itself none.
pub open spec fn fallback_name(call_id: Seq<char>) -> Seq<char> {
    "sub-"@ + call_id.take(if call_id.len() < 6 {
        call_id.len() as int
    } else {
        6
    })
}

/// A list with the tool call `call_id` in it, under the name it gave, if it gave
/// one by now.
pub open spec fn with_call(
    list: Seq<SubagentView>,
    call_id: Seq<char>,
    name: Option<Seq<char>>,
    now: u64,
) -> Seq<SubagentView> {
    let all = if tracks(list, call_id) {
        list
    } else {
        list.push(
            SubagentView {
                call_id,
                name: fallback_name(call_id),
                seed: Seq::empty(),
                state: SubagentState::Working,
                started_at: now,
                finished_at: 0,
            },
        )
    };
    match name {
        Some(n) => all.map_values(
            |x: SubagentView|
                if x.call_id == call_id {
                    SubagentView { name: n, ..x }
                } else {
                    x
                },
        ),
        None => all,
    }
}

/// Whether the end of a subagent of this name is still to be reported.
pub open spec fn awaits_end(x: SubagentView, name: Seq<char>) -> bool {
    x.name == name && (x.state == SubagentState::Working || x.state == SubagentState::Lost)
}

/// One subagent after the end of those named `name` was reported.
pub open spec fn ended(
    x: SubagentView,
    name: Seq<char>,
    state: SubagentState,
    now: u64,
) -> SubagentView {
    if awaits_end(x, name) {
        SubagentView { state, finished_at: now, ..x }
    } else {
        x
    }
}

/// A list after the end of the subagents named `name` was reported.
pub open spec fn with_end(
    list: Seq<SubagentView>,
    name: Seq<char>,
    state: SubagentState,
    now: u64,
) -> Seq<SubagentView> {
    list.map_values(|x: SubagentView| ended(x, name, state, now))
}

/// One subagent after the session of tool call `call_id` became known.
pub open spec fn seeded(x: SubagentView, call_id: Seq<char>, seed: Seq<char>) -> SubagentView {
    if x.call_id == call_id && x.seed.len() == 0 {
        SubagentView { seed, ..x }
    } else {
        x
    }
}

/// A list after the session of tool call `call_id` became known.
pub open spec fn with_seed(
    list: Seq<SubagentView>,
    call_id: Seq<char>,
    seed: Seq<char>,
) -> Seq<SubagentView> {
    list.map_values(|x: SubagentView| seeded(x, call_id, seed))
}

/// One subagent after a sweep for lost ones at time `now`.
pub open spec fn swept(x: SubagentView, now: u64) -> SubagentView {
    if x.state == SubagentState::Working && x.started_at > 0 && now - x.started_at
        > SUBAGENT_GHOST_TIMEOUT_MS {
        SubagentView { state: SubagentState::Lost, finished_at: now, ..x }
    } else {
        x
    }
}

/// A list after a sweep for lost ones at time `now`.
pub open spec fn after_sweep(list: Seq<SubagentView>, now: u64) -> Seq<SubagentView> {
    list.map_values(|x: SubagentView| swept(x, now))
}

/// A report of an end does not touch a subagent whose end was reported before.
pub proof fn reported_end_is_final(
    x: SubagentView,
    name: Seq<char>,
    state: SubagentState,
    now: u64,
)
    requires
        x.state != SubagentState::Working,
        x.state != SubagentState::Lost,
    ensures
        ended(x, name, state, now) == x,
        forall|later: u64| #[trigger] swept(x, later) == x,
{
}

/// A late report takes the place of the mark that a sweep left.
pub proof fn late_report_replaces_lost(
    x: SubagentView,
    state: SubagentState,
    swept_at: u64,
    now: u64,
)
    requires
        x.state == SubagentState::Working,
    ensures
        ended(swept(x, swept_at), x.name, state, now) == (SubagentView {
            state,
            finished_at: now,
            ..x
        }),
{
}

/// A second sweep finds nothing that an earlier one at the same time left.
pub proof fn sweep_is_idempotent(list: Seq<SubagentView>, now: u64)
    ensures
        after_sweep(after_sweep(list, now), now) == after_sweep(list, now),
{
    assert(after_sweep(after_sweep(list, now), now) =~= after_sweep(list, now));
}

/// Tracking a call, reporting an end, a session or a sweep keeps every tool call
/// tracked at most once.
pub proof fn updates_keep_one_per_call(
    list: Seq<SubagentView>,
    call_id: Seq<char>,
    name: Option<Seq<char>>,
    end_name: Seq<char>,
    state: SubagentState,
    seed: Seq<char>,
    now: u64,
)
    requires
        one_per_call(list),
    ensures
        one_per_call(with_call(list, call_id, name, now)),
        one_per_call(with_end(list, end_name, state, now)),
        one_per_call(with_seed(list, call_id, seed)),
        one_per_call(after_sweep(list, now)),
{
}

/// `list` with `x` behind every item that started no later.
pub open spec fn placed(list: Seq<SubagentView>, x: SubagentView) -> Seq<SubagentView>
    decreases list.len(),
{
    if list.len() == 0 || list.last().started_at <= x.started_at {
        list.push(x)
    } else {
        placed(list.drop_last(), x).push(list.last())
    }
}

/// `list` in the order of the start times; items that started together keep
/// their order.
pub open spec fn by_start(list: Seq<SubagentView>) -> Seq<SubagentView>
    decreases list.len(),
{
    if list.len() == 0 {
        Seq::empty()
    } else {
        placed(by_start(list.drop_last()), list.last())
    }
}

/// Whether the items stand in the order of their start times.
pub open spec fn in_order(list: Seq<SubagentView>) -> bool {
    forall|i: int, j: int|
        0 <= i < j < list.len() ==> (#[trigger] list[i]).started_at <= (
        #[trigger] list[j]).started_at
}

/// Placing an item keeps the order and adds nothing but the item.
proof fn placed_is_ordered(list: Seq<SubagentView>, x: SubagentView)
    requires
        in_order(list),
    ensures
        in_order(placed(list, x)),
        placed(list, x).len() == list.len() + 1,
        placed(list, x).to_multiset() == list.to_multiset().insert(x),
    decreases list.len(),
{
    broadcast use vstd::seq_lib::group_to_multiset_ensures;

    if list.len() == 0 || list.last().started_at <= x.started_at {
        assert(in_order(list.push(x)));
    } else {
        let front = list.drop_last();
        assert(in_order(front));
        placed_is_ordered(front, x);
        let p = placed(front, x);
        assert(front.push(list.last()) =~= list);
        assert(p.push(list.last()).to_multiset() =~= list.to_multiset().insert(x));
        assert forall|i: int| 0 <= i < p.len() implies (#[trigger] p[i]).started_at
            <= list.last().started_at by {
            assert(p.to_multiset().contains(p[i]));
            if p[i] != x {
                assert(front.to_multiset().contains(p[i]));
                assert(front.contains(p[i]));
                let k = choose|k: int| 0 <= k < front.len() && front[k] == p[i];
                assert(list[k] == front[k]);
            }
        }
        assert(in_order(p.push(list.last())));
    }
}

/// `by_start` orders the items, loses none and adds none.
pub proof fn by_start_orders(list: Seq<SubagentView>)
    ensures
        in_order(by_start(list)),
        by_start(list).to_multiset() == list.to_multiset(),
        by_start(list).len() == list.len(),
    decreases list.len(),
{
    broadcast use vstd::seq_lib::group_to_multiset_ensures;

    if list.len() > 0 {
        by_start_orders(list.drop_last());
        placed_is_ordered(by_start(list.drop_last()), list.last());
        assert(list.drop_last().push(list.last()) =~= list);
    } else {
        assert(list =~= Seq::empty());
    }
}

/// The tracked subagents of one session, in the order they were first seen.
#[derive(Debug)]
pub struct SubagentList {
    pub items: Vec<SubagentItem>,
}

impl View for SubagentList {
    type V = Seq<SubagentView>;

    open spec fn view(&self) -> Seq<SubagentView> {
        model::views(self.items@)
    }
}

impl SubagentList {
    /// No subagent.
    pub fn new() -> (r: SubagentList)
        ensures
            r@ == Seq::<SubagentView>::empty(),
    {
        let r = SubagentList { items: Vec::new() };
        assert(r@ =~= Seq::<SubagentView>::empty());
        r
    }

    /// Tracks the tool call `call_id`, under the name it gave, if any.
    pub fn track(&mut self, call_id: &str, name: &Option<String>, now: u64)
        ensures
            final(self)@ == with_call(old(self)@, call_id@, model::opt_view(*name), now),
    {
        let ghost before = self@;
        let mut known = false;
        let mut i: usize = 0;
        while i < self.items.len()
            invariant
                i <= self.items@.len(),
                self@ == before,
                known == exists|k: int| 0 <= k < i && (#[trigger] before[k]).call_id == call_id@,
            decreases self.items@.len() - i,
        {
            assert(self.items@[i as int]@ == before[i as int]);
            if text::same(self.items[i].call_id.as_str(), call_id) {
                known = true;
            }
            i = i + 1;
        }
        assert(known == tracks(before, call_id@));
        if !known {
            let chars = text::chars_of(call_id);
            let keep: usize = if chars.len() < 6 {
                chars.len()
            } else {
                6
            };
            let short = text::string_between(chars.as_slice(), 0, keep);
            assert(short@ =~= call_id@.take(keep as int));
            let item = SubagentItem {
                call_id: call_id.to_owned(),
                name: text::join2("sub-", short.as_str()),
                seed: String::new(),
                state: SubagentState::Working,
                started_at: now,
                finished_at: 0,
            };
            self.items.push(item);
            assert(self@ =~= before.push(item@));
        }
        let ghost all = self@;
        if let Some(n) = name {
            let mut i: usize = 0;
            while i < self.items.len()
                invariant
                    i <= self.items@.len(),
                    self.items@.len() == all.len(),
                    forall|k: int|
                        0 <= k < i ==> (#[trigger] self.items@[k])@ == (if all[k].call_id
                            == call_id@ {
                            SubagentView { name: n@, ..all[k] }
                        } else {
                            all[k]
                        }),
                    forall|k: int|
                        i <= k < all.len() ==> (#[trigger] self.items@[k])@ == all[k],
                decreases self.items@.len() - i,
            {
                assert(self.items@[i as int]@ == all[i as int]);
                if text::same(self.items[i].call_id.as_str(), call_id) {
                    let mut item = self.items[i].duplicate();
                    item.name = n.clone();
                    self.items.set(i, item);
                }
                i = i + 1;
            }
            assert(self@ =~= with_call(before, call_id@, Some(n@), now));
        }
    }

    /// Reports the end of the subagents named `name`. Says whether there were
    /// any to end.
    pub fn end(&mut self, name: &str, state: SubagentState, now: u64) -> (r: bool)
        ensures
            final(self)@ == with_end(old(self)@, name@, state, now),
            r == exists|i: int|
                0 <= i < old(self)@.len() && awaits_end(#[trigger] old(self)@[i], name@),
    {
        let ghost before = self@;
        let mut changed = false;
        let mut i: usize = 0;
        while i < self.items.len()
            invariant
                i <= self.items@.len(),
                self.items@.len() == before.len(),
                forall|k: int|
                    0 <= k < i ==> (#[trigger] self.items@[k])@ == ended(
                        before[k],
                        name@,
                        state,
                        now,
                    ),
                forall|k: int|
                    i <= k < before.len() ==> (#[trigger] self.items@[k])@ == before[k],
                changed == exists|k: int|
                    0 <= k < i && awaits_end(#[trigger] before[k], name@),
            decreases self.items@.len() - i,
        {
            let open = self.items[i].state == SubagentState::Working || self.items[i].state
                == SubagentState::Lost;
            assert(self.items@[i as int]@ == before[i as int]);
            if open && text::same(self.items[i].name.as_str(), name) {
                let mut item = self.items[i].duplicate();
                item.state = state;
                item.finished_at = now;
                self.items.set(i, item);
                changed = true;
                assert(awaits_end(before[i as int], name@));
            }
            i = i + 1;
        }
        assert(self@ =~= with_end(before, name@, state, now));
        changed
    }

    /// Notes the session of the subagent that tool call `call_id` spawned. Says
    /// whether there was one whose session was unknown.
    pub fn note_seed(&mut self, call_id: &str, seed: &str) -> (r: bool)
        ensures
            final(self)@ == with_seed(old(self)@, call_id@, seed@),
            r == exists|i: int|
                0 <= i < old(self)@.len() && (#[trigger] old(self)@[i]).call_id == call_id@ && old(
                    self,
                )@[i].seed.len() == 0,
    {
        let ghost before = self@;
        let mut changed = false;
        let mut i: usize = 0;
        while i < self.items.len()
            invariant
                i <= self.items@.len(),
                self.items@.len() == before.len(),
                forall|k: int|
                    0 <= k < i ==> (#[trigger] self.items@[k])@ == seeded(
                        before[k],
                        call_id@,
                        seed@,
                    ),
                forall|k: int|
                    i <= k < before.len() ==> (#[trigger] self.items@[k])@ == before[k],
                changed == exists|k: int|
                    0 <= k < i && (#[trigger] before[k]).call_id == call_id@
                        && before[k].seed.len() == 0,
            decreases self.items@.len() - i,
        {
            assert(self.items@[i as int]@ == before[i as int]);
            if self.items[i].seed.as_str().is_empty() && text::same(
                self.items[i].call_id.as_str(),
                call_id,
            ) {
                let mut item = self.items[i].duplicate();
                item.seed = seed.to_owned();
                self.items.set(i, item);
                changed = true;
                assert(before[i as int].call_id == call_id@);
            }
            i = i + 1;
        }
        assert(self@ =~= with_seed(before, call_id@, seed@));
        changed
    }

    /// Marks those as lost of which no report came in time.
    pub fn sweep(&mut self, now: u64)
        ensures
            final(self)@ == after_sweep(old(self)@, now),
    {
        let ghost before = self@;
        let mut i: usize = 0;
        while i < self.items.len()
            invariant
                i <= self.items@.len(),
                self.items@.len() == before.len(),
                forall|k: int|
                    0 <= k < i ==> (#[trigger] self.items@[k])@ == swept(before[k], now),
                forall|k: int|
                    i <= k < before.len() ==> (#[trigger] self.items@[k])@ == before[k],
            decreases self.items@.len() - i,
        {
            assert(self.items@[i as int]@ == before[i as int]);
            let started: u64 = self.items[i].started_at;
            if self.items[i].state == SubagentState::Working && started > 0 && now >= started && now
                - started > SUBAGENT_GHOST_TIMEOUT_MS {
                let mut item = self.items[i].duplicate();
                item.state = SubagentState::Lost;
                item.finished_at = now;
                self.items.set(i, item);
            }
            i = i + 1;
        }
        assert(self@ =~= after_sweep(before, now));
    }

    /// A copy of the list in the order of the start times.
    pub fn sorted(&self) -> (r: Vec<SubagentItem>)
        ensures
            model::views(r@) == by_start(self@),
    {
        let mut out: Vec<SubagentItem> = Vec::new();
        let ghost all = self@;
        let mut i: usize = 0;
        assert(model::views(out@) =~= by_start(all.take(0)));
        while i < self.items.len()
            invariant
                i <= self.items@.len(),
                all == self@,
                model::views(out@) == by_start(all.take(i as int)),
            decreases self.items@.len() - i,
        {
            assert(all.take(i + 1).drop_last() =~= all.take(i as int));
            place(&mut out, self.items[i].duplicate());
            i = i + 1;
        }
        assert(all.take(all.len() as int) =~= all);
        out
    }
}

/// Puts `item` behind every item that started no later.
fn place(list: &mut Vec<SubagentItem>, item: SubagentItem)
    ensures
        model::views(final(list)@) == placed(model::views(old(list)@), item@),
{
    let ghost before = model::views(list@);
    let mut at: usize = list.len();
    let ghost x = item@;
    assert(before.take(at as int) =~= before);
    assert(placed(before, x) =~= placed(before.take(at as int), x) + before.skip(at as int));
    while at > 0 && list[at - 1].started_at > item.started_at
        invariant
            at <= list@.len(),
            before == model::views(list@),
            x == item@,
            placed(before, x) == placed(before.take(at as int), x) + before.skip(at as int),
        decreases at,
    {
        proof {
            let front = before.take(at as int);
            assert(front.last() == list@[at - 1]@);
            assert(front.drop_last() =~= before.take(at - 1));
            assert(placed(before.take(at - 1), x).push(before[at - 1]) + before.skip(at as int)
                =~= placed(before.take(at - 1), x) + before.skip(at - 1));
        }
        at = at - 1;
    }
    proof {
        let front = before.take(at as int);
        if at > 0 {
            assert(front.last() == list@[at - 1]@);
        }
        assert(placed(front, x) == front.push(x));
    }
    list.insert(at, item);
    assert(model::views(list@) =~= before.take(at as int).push(x) + before.skip(at as int));
}

/// A report of an end ends every subagent of that name that still works or was given
/// up, at the time of the report; all others, and everything else of these, stay.
pub proof fn reports_end_those_they_name(
    list: Seq<SubagentView>,
    name: Seq<char>,
    state: SubagentState,
    now: u64,
    i: int,
)
    requires
        0 <= i < list.len(),
    ensures
        with_end(list, name, state, now).len() == list.len(),
        ({
            let after = with_end(list, name, state, now)[i];
            let open = list[i].state == SubagentState::Working || list[i].state
                == SubagentState::Lost;
            &&& list[i].name == name && open ==> after.state == state && after.finished_at == now
            &&& list[i].name != name || !open ==> after == list[i]
            &&& after.call_id == list[i].call_id
            &&& after.name == list[i].name
            &&& after.seed == list[i].seed
            &&& after.started_at == list[i].started_at
        }),
{
}

/// A subagent that has worked for more than ten minutes is given up, and no other.
pub proof fn ten_minutes_of_silence_are_a_loss(list: Seq<SubagentView>, now: u64, i: int)
    requires
        0 <= i < list.len(),
    ensures
        after_sweep(list, now).len() == list.len(),
        ({
            let after = after_sweep(list, now)[i];
            let lost = list[i].state == SubagentState::Working && list[i].started_at > 0 && now
                > list[i].started_at + 600_000;
            &&& lost ==> after.state == SubagentState::Lost && after.finished_at == now
            &&& !lost ==> after == list[i]
            &&& after.call_id == list[i].call_id
            &&& after.name == list[i].name
        }),
{
}

/// The session of a call is noted with that call, unless one was noted before.
pub proof fn sessions_are_noted_once(
    list: Seq<SubagentView>,
    call_id: Seq<char>,
    seed: Seq<char>,
    i: int,
)
    requires
        0 <= i < list.len(),
    ensures
        with_seed(list, call_id, seed).len() == list.len(),
        ({
            let after = with_seed(list, call_id, seed)[i];
            &&& list[i].call_id == call_id && list[i].seed.len() == 0 ==> after.seed == seed
            &&& list[i].call_id != call_id || list[i].seed.len() > 0 ==> after == list[i]
            &&& after.state == list[i].state
            &&& after.name == list[i].name
            &&& after.call_id == list[i].call_id
        }),
{
}

/// What a text reports is an end: no subagent goes on working, or is given up, because
/// of a report.
pub proof fn reported_states_are_ends(turn_text: Seq<char>)
    ensures
        injection_in(turn_text) matches Some((_, state)) ==> state != SubagentState::Working
            && state != SubagentState::Lost,
{
}

} // verus!
