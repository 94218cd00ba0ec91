//! Cached timelines: the snapshot that the chat view restores from, pages of
//! earlier turns, and the timeline of a subagent's own session.

use std::collections::VecDeque;

use vstd::prelude::*;

use crate::bridge::timeline::TimelineEventQueues;
use crate::model;
use crate::seed_map::SeedMap;
use crate::text;

verus! {

broadcast use {model::map_views_insert, model::map_views_remove, model::map_views_empty};

/// The least number of milliseconds between two refreshes of a snapshot.
pub const REFRESH_THROTTLE_MS: u64 = 1_000;

/// How many characters of an answer a notification shows at most.
pub const NOTIFICATION_CHARS: usize = 200;

/// What a block of a timeline is.
#[derive(Debug, Clone, Copy, PartialEq, Eq, Structural)]
pub enum TimelineBlockKind {
    Reasoning,
    Tool,
    Text,
    Notice,
}

/// One block of a round.
#[derive(Debug)]
pub struct TimelineBlock {
    pub block_id: String,
    pub block_order: u32,
    pub kind: TimelineBlockKind,
    pub text: String,
}

/// One round of a turn.
#[derive(Debug)]
pub struct TimelineRound {
    pub round_num: u32,
    pub blocks: Vec<TimelineBlock>,
}

/// One turn of a timeline.
#[derive(Debug)]
pub struct TimelineTurn {
    pub turn_id: String,
    pub user_text: String,
    pub sealed: bool,
    pub rounds: Vec<TimelineRound>,
}

/// The turns of a session up to a point of its timeline.
#[derive(Debug)]
pub struct TimelineSnapshot {
    pub watermark: u64,
    pub turns: Vec<TimelineTurn>,
}

/// A snapshot as the daemon delivers it.
#[derive(Debug)]
pub struct TimelinePage {
    /// The session; empty if the daemon did not say.
    pub seed: String,
    pub snapshot: TimelineSnapshot,
    /// Whether there are earlier turns than these.
    pub has_more: bool,
}

/// The blocks of the first `rounds` rounds, in order.
pub open spec fn blocks_of_rounds(rounds: Seq<TimelineRound>) -> Seq<TimelineBlock>
    decreases rounds.len(),
{
    if rounds.len() == 0 {
        Seq::empty()
    } else {
        blocks_of_rounds(rounds.drop_last()) + rounds.last().blocks@
    }
}

/// The blocks of the turns, in order.
pub open spec fn blocks_of_turns(turns: Seq<TimelineTurn>) -> Seq<TimelineBlock>
    decreases turns.len(),
{
    if turns.len() == 0 {
        Seq::empty()
    } else {
        blocks_of_turns(turns.drop_last()) + blocks_of_rounds(turns.last().rounds@)
    }
}

/// The text of the last text block.
pub open spec fn last_text(blocks: Seq<TimelineBlock>) -> Option<Seq<char>>
    decreases blocks.len(),
{
    if blocks.len() == 0 {
        None
    } else if blocks.last().kind == TimelineBlockKind::Text {
        Some(blocks.last().text@)
    } else {
        last_text(blocks.drop_last())
    }
}

/// The last text block of two lists one behind the other.
proof fn last_text_of_both(front: Seq<TimelineBlock>, back: Seq<TimelineBlock>)
    ensures
        last_text(front + back) == (match last_text(back) {
            Some(t) => Some(t),
            None => last_text(front),
        }),
    decreases back.len(),
{
    if back.len() == 0 {
        assert(front + back =~= front);
    } else {
        assert((front + back).last() == back.last());
        assert((front + back).drop_last() =~= front + back.drop_last());
        last_text_of_both(front, back.drop_last());
    }
}

/// The text of the last text block of a list.
fn last_text_in_blocks(blocks: &Vec<TimelineBlock>) -> (r: Option<String>)
    ensures
        model::opt_view(r) == last_text(blocks@),
{
    let mut i: usize = blocks.len();
    assert(blocks@.take(blocks@.len() as int) =~= blocks@);
    while i > 0
        invariant
            i <= blocks@.len(),
            last_text(blocks@) == last_text(blocks@.take(i as int)),
        decreases i,
    {
        assert(blocks@.take(i as int).last() == blocks@[i - 1]);
        assert(blocks@.take(i as int).drop_last() =~= blocks@.take(i - 1));
        if blocks[i - 1].kind == TimelineBlockKind::Text {
            return Some(blocks[i - 1].text.clone());
        }
        i = i - 1;
    }
    None
}

/// The text of the last text block of a list of rounds.
fn last_text_in_rounds(rounds: &Vec<TimelineRound>) -> (r: Option<String>)
    ensures
        model::opt_view(r) == last_text(blocks_of_rounds(rounds@)),
{
    let mut i: usize = rounds.len();
    assert(rounds@.take(rounds@.len() as int) =~= rounds@);
    while i > 0
        invariant
            i <= rounds@.len(),
            last_text(blocks_of_rounds(rounds@)) == last_text(
                blocks_of_rounds(rounds@.take(i as int)),
            ),
        decreases i,
    {
        proof {
            assert(rounds@.take(i as int).last() == rounds@[i - 1]);
            assert(rounds@.take(i as int).drop_last() =~= rounds@.take(i - 1));
            last_text_of_both(blocks_of_rounds(rounds@.take(i - 1)), rounds@[i - 1].blocks@);
        }
        let found = last_text_in_blocks(&rounds[i - 1].blocks);
        if found.is_some() {
            return found;
        }
        i = i - 1;
    }
    None
}

/// The text of the last text block of a snapshot.
fn last_text_in_turns(turns: &Vec<TimelineTurn>) -> (r: Option<String>)
    ensures
        model::opt_view(r) == last_text(blocks_of_turns(turns@)),
{
    let mut i: usize = turns.len();
    assert(turns@.take(turns@.len() as int) =~= turns@);
    while i > 0
        invariant
            i <= turns@.len(),
            last_text(blocks_of_turns(turns@)) == last_text(
                blocks_of_turns(turns@.take(i as int)),
            ),
        decreases i,
    {
        proof {
            assert(turns@.take(i as int).last() == turns@[i - 1]);
            assert(turns@.take(i as int).drop_last() =~= turns@.take(i - 1));
            last_text_of_both(
                blocks_of_turns(turns@.take(i - 1)),
                blocks_of_rounds(turns@[i - 1].rounds@),
            );
        }
        let found = last_text_in_rounds(&turns[i - 1].rounds);
        if found.is_some() {
            return found;
        }
        i = i - 1;
    }
    None
}

/// An answer as a notification shows it: on one line, and cut off behind the
/// first `NOTIFICATION_CHARS` characters.
pub open spec fn notification_body(answer: Seq<char>) -> Seq<char> {
    let flat = text::squeezed(answer);
    if flat.len() > NOTIFICATION_CHARS {
        flat.take(NOTIFICATION_CHARS as int).push('…')
    } else {
        flat
    }
}

/// What a notification about the end of a turn shows: the last answer of the
/// snapshot, if there is one that is not blank.
pub open spec fn notification_of(snapshot: TimelineSnapshot) -> Option<Seq<char>> {
    match last_text(blocks_of_turns(snapshot.turns@)) {
        Some(answer) => if text::blank(answer) {
            None
        } else {
            Some(notification_body(answer))
        },
        None => None,
    }
}

/// `notification_of`, executable.
pub fn notification_text(snapshot: &TimelineSnapshot) -> (r: Option<String>)
    ensures
        model::opt_view(r) == notification_of(*snapshot),
{
    match last_text_in_turns(&snapshot.turns) {
        Some(answer) => {
            if text::is_blank(answer.as_str()) {
                return None;
            }
            let flat = text::squeeze(answer.as_str());
            if text::count(flat.as_str()) > NOTIFICATION_CHARS {
                let mut cut = text::first_chars(flat.as_str(), NOTIFICATION_CHARS);
                cut.push('…');
                Some(cut)
            } else {
                Some(flat)
            }
        },
        None => None,
    }
}

/// A notification is never empty, and never longer than its limit and the mark
/// of the cut.
pub proof fn notification_fits(snapshot: TimelineSnapshot)
    ensures
        notification_of(snapshot) matches Some(body) ==> 0 < body.len() <= NOTIFICATION_CHARS + 1,
{
    if let Some(answer) = last_text(blocks_of_turns(snapshot.turns@)) {
        text::squeezed_is_tight(answer);
    }
}

/// Whether a list of blocks holds no text.
pub open spec fn textless(blocks: Seq<TimelineBlock>) -> bool {
    forall|i: int|
        0 <= i < blocks.len() ==> (#[trigger] blocks[i]).kind != TimelineBlockKind::Text
}

/// Whether none of these rounds holds a text.
pub open spec fn textless_rounds(rounds: Seq<TimelineRound>) -> bool {
    forall|i: int| 0 <= i < rounds.len() ==> textless((#[trigger] rounds[i]).blocks@)
}

/// Whether none of these turns holds a text.
pub open spec fn textless_turns(turns: Seq<TimelineTurn>) -> bool {
    forall|i: int| 0 <= i < turns.len() ==> textless_rounds((#[trigger] turns[i]).rounds@)
}

proof fn last_text_in_list(blocks: Seq<TimelineBlock>)
    ensures
        textless(blocks) ==> last_text(blocks) is None,
        forall|b: int|
            0 <= b < blocks.len() && (#[trigger] blocks[b]).kind == TimelineBlockKind::Text
                && textless(blocks.skip(b + 1)) ==> last_text(blocks) == Some(blocks[b].text@),
    decreases blocks.len(),
{
    if blocks.len() > 0 {
        let front = blocks.drop_last();
        let last = blocks.len() - 1;
        last_text_in_list(front);
        assert(blocks.last() == blocks[last]);
        if textless(blocks) {
            assert forall|i: int| 0 <= i < front.len() implies (#[trigger] front[i]).kind
                != TimelineBlockKind::Text by {
                assert(blocks[i].kind != TimelineBlockKind::Text);
            }
        }
        assert forall|b: int|
            0 <= b < blocks.len() && (#[trigger] blocks[b]).kind == TimelineBlockKind::Text
                && textless(blocks.skip(b + 1)) implies last_text(blocks) == Some(
            blocks[b].text@,
        ) by {
            if b < last {
                let behind = blocks.skip(b + 1);
                assert(behind[last - b - 1] == blocks[last]);
                assert(front[b] == blocks[b]);
                let rest = front.skip(b + 1);
                assert forall|i: int| 0 <= i < rest.len() implies (#[trigger] rest[i]).kind
                    != TimelineBlockKind::Text by {
                    assert(behind[i].kind != TimelineBlockKind::Text);
                }
            }
        }
    }
}

proof fn last_text_in_list_of_rounds(rounds: Seq<TimelineRound>)
    ensures
        textless_rounds(rounds) ==> last_text(blocks_of_rounds(rounds)) is None,
        forall|r: int, b: int|
            0 <= r < rounds.len() && 0 <= b < rounds[r].blocks@.len() && (
            #[trigger] rounds[r].blocks@[b]).kind == TimelineBlockKind::Text && textless(
                rounds[r].blocks@.skip(b + 1),
            ) && textless_rounds(rounds.skip(r + 1)) ==> last_text(blocks_of_rounds(rounds))
                == Some(rounds[r].blocks@[b].text@),
    decreases rounds.len(),
{
    if rounds.len() > 0 {
        let front = rounds.drop_last();
        let last = rounds.len() - 1;
        last_text_in_list_of_rounds(front);
        last_text_in_list(rounds[last].blocks@);
        last_text_of_both(blocks_of_rounds(front), rounds[last].blocks@);
        if textless_rounds(rounds) {
            assert(textless(rounds[last].blocks@));
            assert forall|i: int| 0 <= i < front.len() implies textless(
                (#[trigger] front[i]).blocks@,
            ) by {
                assert(textless(rounds[i].blocks@));
            }
        }
        assert forall|r: int, b: int|
            0 <= r < rounds.len() && 0 <= b < rounds[r].blocks@.len() && (
            #[trigger] rounds[r].blocks@[b]).kind == TimelineBlockKind::Text && textless(
                rounds[r].blocks@.skip(b + 1),
            ) && textless_rounds(rounds.skip(r + 1)) implies last_text(blocks_of_rounds(rounds))
            == Some(rounds[r].blocks@[b].text@) by {
            if r < last {
                let behind = rounds.skip(r + 1);
                assert(behind[last - r - 1] == rounds[last]);
                assert(front[r] == rounds[r]);
                assert(front[r].blocks@[b].kind == TimelineBlockKind::Text);
                let rest = front.skip(r + 1);
                assert forall|i: int| 0 <= i < rest.len() implies textless(
                    (#[trigger] rest[i]).blocks@,
                ) by {
                    assert(textless(behind[i].blocks@));
                }
            }
        }
    }
}

proof fn no_text_in_turns(turns: Seq<TimelineTurn>)
    requires
        textless_turns(turns),
    ensures
        last_text(blocks_of_turns(turns)) is None,
    decreases turns.len(),
{
    if turns.len() > 0 {
        let front = turns.drop_last();
        let last = turns.len() - 1;
        assert(textless_rounds(turns[last].rounds@));
        assert forall|i: int| 0 <= i < front.len() implies textless_rounds(
            (#[trigger] front[i]).rounds@,
        ) by {
            assert(textless_rounds(turns[i].rounds@));
        }
        no_text_in_turns(front);
        last_text_in_list_of_rounds(turns[last].rounds@);
        last_text_of_both(blocks_of_turns(front), blocks_of_rounds(turns[last].rounds@));
    }
}

proof fn last_text_in_list_of_turns(turns: Seq<TimelineTurn>, t: int, r: int, b: int)
    requires
        0 <= t < turns.len(),
        0 <= r < turns[t].rounds@.len(),
        0 <= b < turns[t].rounds@[r].blocks@.len(),
        turns[t].rounds@[r].blocks@[b].kind == TimelineBlockKind::Text,
        textless(turns[t].rounds@[r].blocks@.skip(b + 1)),
        textless_rounds(turns[t].rounds@.skip(r + 1)),
        textless_turns(turns.skip(t + 1)),
    ensures
        last_text(blocks_of_turns(turns)) == Some(turns[t].rounds@[r].blocks@[b].text@),
    decreases turns.len(),
{
    let front = turns.drop_last();
    let last = turns.len() - 1;
    let rounds = turns[last].rounds@;
    last_text_in_list_of_rounds(rounds);
    last_text_of_both(blocks_of_turns(front), blocks_of_rounds(rounds));
    assert(turns.last() == turns[last]);
    if t < last {
        let behind = turns.skip(t + 1);
        assert(behind[last - t - 1] == turns[last]);
        assert(textless_rounds(behind[last - t - 1].rounds@));
        assert(front[t] == turns[t]);
        let rest = front.skip(t + 1);
        assert forall|i: int| 0 <= i < rest.len() implies textless_rounds(
            (#[trigger] rest[i]).rounds@,
        ) by {
            assert(rest[i] == behind[i]);
            assert(textless_rounds(behind[i].rounds@));
        }
        last_text_in_list_of_turns(front, t, r, b);
    } else {
        assert(rounds[r].blocks@[b].kind == TimelineBlockKind::Text);
        assert(textless(rounds[r].blocks@.skip(b + 1)));
        assert(textless_rounds(rounds.skip(r + 1)));
        assert(last_text(blocks_of_rounds(rounds)) == Some(rounds[r].blocks@[b].text@));
    }
}

/// A notification shows the last text of the timeline, whatever stands behind it
/// that is no text. It stands on one line, whole where it has two hundred
/// characters at most, else its first two hundred and a mark. A blank one is not
/// shown, nor is an earlier one in its place.
pub proof fn last_answer_is_announced(snapshot: TimelineSnapshot, t: int, r: int, b: int)
    requires
        0 <= t < snapshot.turns@.len(),
        0 <= r < snapshot.turns@[t].rounds@.len(),
        0 <= b < snapshot.turns@[t].rounds@[r].blocks@.len(),
        snapshot.turns@[t].rounds@[r].blocks@[b].kind == TimelineBlockKind::Text,
        textless(snapshot.turns@[t].rounds@[r].blocks@.skip(b + 1)),
        textless_rounds(snapshot.turns@[t].rounds@.skip(r + 1)),
        textless_turns(snapshot.turns@.skip(t + 1)),
    ensures
        ({
            let answer = snapshot.turns@[t].rounds@[r].blocks@[b].text@;
            let line = text::squeezed(answer);
            &&& notification_of(snapshot) is None <==> text::blank(answer)
            &&& !text::blank(answer) && line.len() <= 200 ==> notification_of(snapshot) == Some(
                line,
            )
            &&& !text::blank(answer) && line.len() > 200 ==> notification_of(snapshot) == Some(
                line.take(200).push('…'),
            )
        }),
{
    last_text_in_list_of_turns(snapshot.turns@, t, r, b);
}

/// A timeline without a text announces nothing.
pub proof fn timeline_without_text_announces_nothing(snapshot: TimelineSnapshot)
    requires
        textless_turns(snapshot.turns@),
    ensures
        notification_of(snapshot) is None,
{
    no_text_in_turns(snapshot.turns@);
}

/// The cached timelines.
pub struct TimelineCache {
    /// The session whose timeline was activated last.
    pub last_timeline_seed: String,
    /// The entries that wait for the frame pump.
    pub events: TimelineEventQueues,
    pub timeline_rev: u64,
    /// Counts the requests to show a session; only the last one counts.
    pub resume_generation: u64,
    /// The last snapshot, and its session.
    pub chat_timeline: Option<(String, TimelineSnapshot)>,
    /// The last snapshot of a subagent's session, and that session.
    pub subagent_timeline: Option<(String, TimelineSnapshot)>,
    /// The subagents' sessions that are being read.
    pub subagent_fetching: SeedMap<bool>,
    /// Whether there are earlier turns than the cached ones.
    pub has_more: SeedMap<bool>,
    /// Pages of earlier turns, and their sessions.
    pub chat_prepend: VecDeque<(String, TimelineSnapshot)>,
    /// The sessions of which earlier turns are being read.
    pub fetching: SeedMap<bool>,
    /// When a snapshot was refreshed last; none if never.
    pub refresh_at: Option<u64>,
}

/// A snapshot with its session.
pub open spec fn labelled(slot: Option<(String, TimelineSnapshot)>) -> Option<
    (Seq<char>, TimelineSnapshot),
> {
    match slot {
        Some((seed, snapshot)) => Some((seed@, snapshot)),
        None => None,
    }
}

/// Snapshots with their sessions.
pub open spec fn all_labelled(pages: Seq<(String, TimelineSnapshot)>) -> Seq<
    (Seq<char>, TimelineSnapshot),
> {
    Seq::new(pages.len(), |i: int| (pages[i].0@, pages[i].1))
}

/// The model of a `TimelineCache`.
#[verifier::ext_equal]
pub struct CacheView {
    pub last_timeline_seed: Seq<char>,
    pub events: TimelineEventQueues,
    pub timeline_rev: u64,
    pub resume_generation: u64,
    pub chat_timeline: Option<(Seq<char>, TimelineSnapshot)>,
    pub subagent_timeline: Option<(Seq<char>, TimelineSnapshot)>,
    pub subagent_fetching: Map<Seq<char>, bool>,
    pub has_more: Map<Seq<char>, bool>,
    pub chat_prepend: Seq<(Seq<char>, TimelineSnapshot)>,
    pub fetching: Map<Seq<char>, bool>,
    pub refresh_at: Option<u64>,
}

impl View for TimelineCache {
    type V = CacheView;

    open spec fn view(&self) -> CacheView {
        CacheView {
            last_timeline_seed: self.last_timeline_seed@,
            events: self.events,
            timeline_rev: self.timeline_rev,
            resume_generation: self.resume_generation,
            chat_timeline: labelled(self.chat_timeline),
            subagent_timeline: labelled(self.subagent_timeline),
            subagent_fetching: self.subagent_fetching@,
            has_more: self.has_more@,
            chat_prepend: all_labelled(self.chat_prepend@),
            fetching: self.fetching@,
            refresh_at: self.refresh_at,
        }
    }
}

/// The pages of one session.
pub open spec fn pages_of(
    pages: Seq<(Seq<char>, TimelineSnapshot)>,
    seed: Seq<char>,
) -> Seq<(Seq<char>, TimelineSnapshot)> {
    pages.filter(|page: (Seq<char>, TimelineSnapshot)| page.0 == seed)
}

impl TimelineCache {
    /// Nothing cached.
    pub fn new() -> (r: TimelineCache)
        ensures
            r@.last_timeline_seed == Seq::<char>::empty(),
            r@.timeline_rev == 0,
            r@.resume_generation == 0,
            r@.chat_timeline is None,
            r@.subagent_timeline is None,
            r@.subagent_fetching == Map::<Seq<char>, bool>::empty(),
            r@.has_more == Map::<Seq<char>, bool>::empty(),
            r@.chat_prepend.len() == 0,
            r@.fetching == Map::<Seq<char>, bool>::empty(),
            r@.refresh_at is None,
            r@.events.total() == 0,
            forall|seed: Seq<char>| (#[trigger] r@.events.queue(seed)).len() == 0,
    {
        TimelineCache {
            last_timeline_seed: String::new(),
            events: TimelineEventQueues::new(),
            timeline_rev: 0,
            resume_generation: 0,
            chat_timeline: None,
            subagent_timeline: None,
            subagent_fetching: SeedMap::new(),
            has_more: SeedMap::new(),
            chat_prepend: VecDeque::new(),
            fetching: SeedMap::new(),
            refresh_at: None,
        }
    }

    /// Whether there are earlier turns of `seed` than the cached ones.
    pub fn timeline_has_more(&self, seed: &str) -> (r: bool)
        ensures
            r == (self@.has_more.contains_key(seed@) && self@.has_more[seed@]),
    {
        match self.has_more.get(seed) {
            Some(more) => *more,
            None => false,
        }
    }

    /// Takes the cached snapshot out if it is one of `seed`; leaves it where it
    /// is one of another session.
    pub fn chat_timeline_take(&mut self, seed: &str) -> (r: Option<TimelineSnapshot>)
        ensures
            match old(self)@.chat_timeline {
                Some((owner, snapshot)) => if owner == seed@ {
                    r == Some(snapshot) && final(self)@ == (CacheView {
                        chat_timeline: None,
                        ..old(self)@
                    })
                } else {
                    r is None && final(self)@ == old(self)@
                },
                None => r is None && final(self)@ == old(self)@,
            },
    {
        let matched = match &self.chat_timeline {
            Some((owner, _)) => text::same(owner.as_str(), seed),
            None => false,
        };
        if matched {
            let slot = self.chat_timeline.take();
            match slot {
                Some((_, snapshot)) => Some(snapshot),
                None => None,
            }
        } else {
            None
        }
    }

    /// Takes out the pages of earlier turns. Those of another session than
    /// `active` are dropped.
    pub fn chat_prepend_drain(&mut self, active: &str) -> (r: Vec<(String, TimelineSnapshot)>)
        ensures
            all_labelled(r@) == pages_of(old(self)@.chat_prepend, active@),
            final(self)@ == (CacheView { chat_prepend: Seq::empty(), ..old(self)@ }),
    {
        let mut out: Vec<(String, TimelineSnapshot)> = Vec::new();
        let mut pages: VecDeque<(String, TimelineSnapshot)> = VecDeque::new();
        std::mem::swap(&mut pages, &mut self.chat_prepend);
        let ghost all = pages@;
        let ghost labels = all_labelled(all);
        let ghost keep = |page: (Seq<char>, TimelineSnapshot)| page.0 == active@;
        let ghost mut done: int = 0;
        proof {
            assert(self@.chat_prepend =~= Seq::empty());
            reveal(Seq::filter);
            assert(all_labelled(out@) =~= labels.take(0).filter(keep));
        }
        while pages.len() > 0
            invariant
                0 <= done <= all.len(),
                pages@ == all.skip(done),
                labels == all_labelled(all),
                keep == (|page: (Seq<char>, TimelineSnapshot)| page.0 == active@),
                all_labelled(out@) == labels.take(done).filter(keep),
                self@ == (CacheView { chat_prepend: Seq::empty(), ..old(self)@ }),
            decreases pages@.len(),
        {
            let ghost left = pages@;
            let next = pages.pop_front();
            if let Some((seed, snapshot)) = next {
                proof {
                    assert(left[0] == all[done]);
                    assert(left.subrange(1, left.len() as int) =~= all.skip(done + 1));
                    assert(labels.take(done + 1) =~= labels.take(done).push(labels[done]));
                    labels.take(done).lemma_filter_push(labels[done], keep);
                    done = done + 1;
                }
                if text::same(seed.as_str(), active) {
                    let ghost before = out@;
                    let ghost item = (seed@, snapshot);
                    out.push((seed, snapshot));
                    assert(all_labelled(out@) =~= all_labelled(before).push(item));
                }
            }
        }
        assert(labels.take(labels.len() as int) =~= labels);
        out
    }

    /// Whether a snapshot may be refreshed at `now`; notes the refresh if so.
    pub fn begin_refresh(&mut self, now: u64) -> (r: bool)
        ensures
            r == (match old(self)@.refresh_at {
                Some(last) => now - last >= REFRESH_THROTTLE_MS,
                None => true,
            }),
            final(self)@ == (if r {
                CacheView { refresh_at: Some(now), ..old(self)@ }
            } else {
                old(self)@
            }),
    {
        if let Some(last) = self.refresh_at {
            if now < last || now - last < REFRESH_THROTTLE_MS {
                return false;
            }
        }
        self.refresh_at = Some(now);
        true
    }

    /// Whether earlier turns of `seed` may be read; notes the reading if so. They
    /// are not read twice at a time.
    pub fn begin_fetch_earlier(&mut self, seed: &str) -> (r: bool)
        ensures
            r == !old(self)@.fetching.contains_key(seed@),
            final(self)@ == (if r {
                CacheView { fetching: old(self)@.fetching.insert(seed@, true), ..old(self)@ }
            } else {
                old(self)@
            }),
    {
        if self.fetching.contains_key(seed) {
            return false;
        }
        self.fetching.insert(seed.to_owned(), true);
        true
    }

    /// Takes over a page of earlier turns of `seed`. A page without turns means
    /// that there are no earlier ones.
    pub fn finish_fetch_earlier(&mut self, seed: &str, page: Option<(TimelineSnapshot, bool)>)
        ensures
            final(self)@ == match page {
                None => (CacheView { fetching: old(self)@.fetching.remove(seed@), ..old(self)@ }),
                Some((snapshot, more)) => if snapshot.turns@.len() == 0 {
                    CacheView {
                        fetching: old(self)@.fetching.remove(seed@),
                        has_more: old(self)@.has_more.insert(seed@, false),
                        ..old(self)@
                    }
                } else {
                    CacheView {
                        fetching: old(self)@.fetching.remove(seed@),
                        has_more: old(self)@.has_more.insert(seed@, more),
                        chat_prepend: old(self)@.chat_prepend.push((seed@, snapshot)),
                        ..old(self)@
                    }
                },
            },
    {
        let ghost before = self.chat_prepend@;
        if let Some((snapshot, more)) = page {
            if snapshot.turns.len() == 0 {
                self.has_more.insert(seed.to_owned(), false);
            } else {
                self.has_more.insert(seed.to_owned(), more);
                let ghost item = (seed@, snapshot);
                self.chat_prepend.push_back((seed.to_owned(), snapshot));
                assert(all_labelled(self.chat_prepend@) =~= all_labelled(before).push(item));
            }
        }
        let _ = self.fetching.remove(seed);
    }

    /// Whether the timeline of the subagent's session `seed` may be read; notes
    /// the reading if so.
    pub fn begin_fetch_subagent(&mut self, seed: &str) -> (r: bool)
        ensures
            r == !old(self)@.subagent_fetching.contains_key(seed@),
            final(self)@ == (if r {
                CacheView {
                    subagent_fetching: old(self)@.subagent_fetching.insert(seed@, true),
                    ..old(self)@
                }
            } else {
                old(self)@
            }),
    {
        if self.subagent_fetching.contains_key(seed) {
            return false;
        }
        self.subagent_fetching.insert(seed.to_owned(), true);
        true
    }

    /// Takes over the timeline of the subagent's session `seed`, if it could be
    /// read.
    pub fn finish_fetch_subagent(&mut self, seed: &str, snapshot: Option<TimelineSnapshot>)
        ensures
            final(self)@ == (CacheView {
                subagent_fetching: old(self)@.subagent_fetching.remove(seed@),
                subagent_timeline: match snapshot {
                    Some(s) => Some((seed@, s)),
                    None => old(self)@.subagent_timeline,
                },
                ..old(self)@
            }),
    {
        if let Some(s) = snapshot {
            self.subagent_timeline = Some((seed.to_owned(), s));
        }
        let _ = self.subagent_fetching.remove(seed);
    }

    /// The timeline of the subagent's session that was read last.
    pub fn subagent_timeline_peek(&self) -> (r: Option<&(String, TimelineSnapshot)>)
        ensures
            match (r, self@.subagent_timeline) {
                (Some(slot), Some((seed, snapshot))) => slot.0@ == seed && slot.1 == snapshot,
                (None, None) => true,
                _ => false,
            },
    {
        self.subagent_timeline.as_ref()
    }

    /// Drops the timeline of the subagent's session.
    pub fn subagent_timeline_consume(&mut self)
        ensures
            final(self)@ == (CacheView { subagent_timeline: None, ..old(self)@ }),
    {
        self.subagent_timeline = None;
    }
}

/// A snapshot that was made ready for the chat view in the background, with its
/// fingerprint. There is room for one.
#[derive(Debug)]
pub struct ReadySlot<T> {
    pub slot: Option<(String, T, u64)>,
}

impl<T> ReadySlot<T> {
    /// Nothing is ready.
    pub fn new() -> (r: ReadySlot<T>)
        ensures
            r.slot is None,
    {
        ReadySlot { slot: None }
    }

    /// Takes over that the snapshot of `seed` is ready. It replaces the one
    /// before.
    pub fn put(&mut self, seed: String, snapshot: T, fingerprint: u64)
        ensures
            final(self).slot == Some((seed, snapshot, fingerprint)),
    {
        self.slot = Some((seed, snapshot, fingerprint));
    }

    /// Hands out the snapshot if it is that of `seed`. One of another session
    /// stays.
    pub fn chat_timeline_ready_take(&mut self, seed: &str) -> (r: Option<(T, u64)>)
        ensures
            match old(self).slot {
                Some((owner, snapshot, fingerprint)) => if owner@ == seed@ {
                    r == Some((snapshot, fingerprint)) && final(self).slot is None
                } else {
                    r is None && *final(self) == *old(self)
                },
                None => r is None && *final(self) == *old(self),
            },
    {
        let ours = match &self.slot {
            Some((owner, _, _)) => text::same(owner.as_str(), seed),
            None => false,
        };
        if !ours {
            return None;
        }
        let mut taken: Option<(String, T, u64)> = None;
        std::mem::swap(&mut taken, &mut self.slot);
        match taken {
            Some((_, snapshot, fingerprint)) => Some((snapshot, fingerprint)),
            None => None,
        }
    }
}

} // verus!
