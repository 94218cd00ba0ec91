//! How the blocks of a turn are shown: what a model thought, the calls it made,
//! its answers, and what the service says.

use vstd::prelude::*;

use crate::bridge::transcript::TimelineBlockKind;
use crate::chat::tools;
use crate::chat::tools::{ToolCard, ToolCardView, ToolRow, ToolRowView};
use crate::model;
use crate::text;

verus! {

// ---------------------------------------------------------------------------
// Answers
// ---------------------------------------------------------------------------

/// A part of an answer that is being written.
#[derive(Debug)]
pub enum LiveSegment {
    Text(String),
    Table,
}

/// A part of a complete answer.
#[derive(Debug, Clone, Copy, PartialEq, Eq, Structural)]
pub enum FinalBlock {
    Paragraph,
    Heading { level: u8 },
    Table,
    Code,
    Diagram,
}

/// A complete answer: its parts in order, and how many there are of each. Older
/// answers have only the latter.
#[derive(Debug)]
pub struct RichText {
    pub blocks: Vec<FinalBlock>,
    pub paragraphs: usize,
    pub tables: usize,
    pub code_blocks: usize,
    pub diagrams: usize,
}

/// An answer.
#[derive(Debug)]
pub enum Answer {
    /// It is being written.
    Streaming { raw: String, segments: Vec<LiveSegment> },
    /// It is complete. `blocks` is how many parts its source has.
    Final { blocks: usize, rich: RichText },
}

/// Whether there is something to see of an answer.
pub open spec fn visible(answer: Answer) -> bool {
    match answer {
        Answer::Streaming { raw, .. } => !text::blank(raw@),
        Answer::Final { blocks, rich } => blocks > 0 || rich.paragraphs > 0 || rich.code_blocks
            > 0 || rich.diagrams > 0 || rich.tables > 0,
    }
}

impl Default for Answer {
    /// An answer that has not begun.
    fn default() -> (r: Answer)
        ensures
            !visible(r),
            r matches Answer::Streaming { raw, segments } && raw@.len() == 0 && segments@.len()
                == 0,
    {
        let raw = String::new();
        assert(text::blank(raw@));
        Answer::Streaming { raw, segments: Vec::new() }
    }
}

/// Whether there is something to see of an answer.
pub fn answer_has_visible_content(answer: &Answer) -> (r: bool)
    ensures
        r == visible(*answer),
{
    match answer {
        Answer::Streaming { raw, .. } => !text::is_blank(raw.as_str()),
        Answer::Final { blocks, rich } => *blocks > 0 || rich.paragraphs > 0 || rich.code_blocks
            > 0 || rich.diagrams > 0 || rich.tables > 0,
    }
}

/// The beginning of the keys of an answer.
pub open spec fn answer_key(turn_id: Seq<char>, round: u32) -> Seq<char> {
    turn_id + "-r"@ + text::decimal(round as nat)
}

/// A part of an answer that is being written, as it is shown.
#[derive(Debug)]
pub enum LiveItem {
    /// The text of the segment `index`.
    Text { index: usize, key: String },
    /// The table of the segment `index`.
    Table { index: usize, key: String },
    /// Nothing is there yet.
    Empty { key: String },
}

/// The model of a `LiveItem`.
#[verifier::ext_equal]
pub enum LiveItemView {
    Text { index: usize, key: Seq<char> },
    Table { index: usize, key: Seq<char> },
    Empty { key: Seq<char> },
}

impl View for LiveItem {
    type V = LiveItemView;

    open spec fn view(&self) -> LiveItemView {
        match self {
            LiveItem::Text { index, key } => LiveItemView::Text { index: *index, key: key@ },
            LiveItem::Table { index, key } => LiveItemView::Table { index: *index, key: key@ },
            LiveItem::Empty { key } => LiveItemView::Empty { key: key@ },
        }
    }
}

/// How the segment `index` is shown, if there is something to see of it.
pub open spec fn live_item(start: Seq<char>, segment: LiveSegment, index: int) -> Option<
    LiveItemView,
> {
    match segment {
        LiveSegment::Text(content) => if content@.len() > 0 {
            Some(
                LiveItemView::Text {
                    index: index as usize,
                    key: start + "-live-t"@ + text::decimal(index as nat),
                },
            )
        } else {
            None
        },
        LiveSegment::Table => Some(
            LiveItemView::Table {
                index: index as usize,
                key: start + "-live-table-"@ + text::decimal(index as nat),
            },
        ),
    }
}

/// What there is to see of the segments, in order.
pub open spec fn live_items(start: Seq<char>, segments: Seq<LiveSegment>) -> Seq<LiveItemView>
    decreases segments.len(),
{
    if segments.len() == 0 {
        Seq::empty()
    } else {
        let before = live_items(start, segments.drop_last());
        match live_item(start, segments.last(), segments.len() - 1) {
            Some(item) => before.push(item),
            None => before,
        }
    }
}

/// How an answer that is being written is shown. There is always something, so
/// that it keeps its place.
pub open spec fn live_plan(start: Seq<char>, segments: Seq<LiveSegment>) -> Seq<LiveItemView> {
    if live_items(start, segments).len() == 0 {
        seq![LiveItemView::Empty { key: start + "-live-empty"@ }]
    } else {
        live_items(start, segments)
    }
}

/// A key of an answer, executable: `word` behind the answer's own, then a number.
fn numbered_key(turn_id: &str, round: u32, word: &str, n: usize) -> (r: String)
    ensures
        r@ == answer_key(turn_id@, round) + word@ + text::decimal(n as nat),
{
    let mut key = text::join3(turn_id, "-r", text::decimal_of(round as u64).as_str());
    key.append(word);
    key.append(text::decimal_of(n as u64).as_str());
    key
}

/// How an answer that is being written is shown.
pub fn live_view(turn_id: &str, round: u32, segments: &Vec<LiveSegment>) -> (r: Vec<LiveItem>)
    ensures
        model::views(r@) == live_plan(answer_key(turn_id@, round), segments@),
{
    let ghost start = answer_key(turn_id@, round);
    let ghost all = segments@;
    let mut items: Vec<LiveItem> = Vec::new();
    let mut i: usize = 0;
    assert(model::views(items@) =~= live_items(start, all.take(0)));
    while i < segments.len()
        invariant
            i <= segments@.len(),
            all == segments@,
            start == answer_key(turn_id@, round),
            model::views(items@) == live_items(start, all.take(i as int)),
        decreases segments@.len() - i,
    {
        let ghost before = model::views(items@);
        proof {
            assert(all.take(i + 1).drop_last() =~= all.take(i as int));
            assert(all.take(i + 1).last() == all[i as int]);
        }
        match &segments[i] {
            LiveSegment::Text(content) => {
                if !content.as_str().is_empty() {
                    let key = numbered_key(turn_id, round, "-live-t", i);
                    items.push(LiveItem::Text { index: i, key });
                    assert(model::views(items@) =~= before.push(items@.last()@));
                }
            },
            LiveSegment::Table => {
                let key = numbered_key(turn_id, round, "-live-table-", i);
                items.push(LiveItem::Table { index: i, key });
                assert(model::views(items@) =~= before.push(items@.last()@));
            },
        }
        i = i + 1;
    }
    assert(all.take(i as int) =~= all);
    assert(items@.len() == model::views(items@).len());
    if items.len() == 0 {
        let mut key = text::join3(turn_id, "-r", text::decimal_of(round as u64).as_str());
        key.append("-live-empty");
        items.push(LiveItem::Empty { key });
        assert(model::views(items@) =~= live_plan(start, all));
    }
    items
}

/// What a part of a complete answer is shown as.
#[derive(Debug, Clone, Copy, PartialEq, Eq, Structural)]
pub enum FinalPart {
    /// All paragraphs together.
    Paragraphs,
    /// One paragraph or heading, with this much room above it.
    Paragraph { top: u32 },
    Table,
    Code,
    Diagram,
}

/// A part of a complete answer as it is shown.
#[derive(Debug)]
pub struct FinalItem {
    pub part: FinalPart,
    /// Which of the parts it is, or which of the tables, code blocks or diagrams
    /// of an older answer.
    pub index: usize,
    pub key: Option<String>,
}

/// The model of a `FinalItem`.
#[verifier::ext_equal]
pub struct FinalItemView {
    pub part: FinalPart,
    pub index: usize,
    pub key: Option<Seq<char>>,
}

impl View for FinalItem {
    type V = FinalItemView;

    open spec fn view(&self) -> FinalItemView {
        FinalItemView { part: self.part, index: self.index, key: model::opt_view(self.key) }
    }
}

/// The room above a heading: the more, the higher its level.
pub open spec fn heading_top(level: u8) -> u32 {
    if level == 1 {
        8
    } else if level == 2 {
        6
    } else {
        4
    }
}

/// What a block is shown as.
pub open spec fn part_of(block: FinalBlock) -> FinalPart {
    match block {
        FinalBlock::Paragraph => FinalPart::Paragraph { top: 0 },
        FinalBlock::Heading { level } => FinalPart::Paragraph { top: heading_top(level) },
        FinalBlock::Table => FinalPart::Table,
        FinalBlock::Code => FinalPart::Code,
        FinalBlock::Diagram => FinalPart::Diagram,
    }
}

/// What a key says of a part; nothing if the part has no key.
pub open spec fn key_word(part: FinalPart) -> Option<Seq<char>> {
    match part {
        FinalPart::Table => Some("-table-"@),
        FinalPart::Code => Some("-code-"@),
        FinalPart::Diagram => Some("-diagram-"@),
        _ => None,
    }
}

/// The part `index` of an answer whose keys begin with `start`.
pub open spec fn final_item(start: Seq<char>, part: FinalPart, index: int) -> FinalItemView {
    FinalItemView {
        part,
        index: index as usize,
        key: match key_word(part) {
            Some(word) => Some(start + word + text::decimal(index as nat)),
            None => None,
        },
    }
}

/// `n` parts of one sort.
pub open spec fn numbered(start: Seq<char>, part: FinalPart, n: nat) -> Seq<FinalItemView> {
    Seq::new(n, |i: int| final_item(start, part, i))
}

/// How a complete answer is shown: its parts in order, or, where only their
/// numbers are known, the paragraphs and then the tables, code blocks and
/// diagrams.
pub open spec fn final_plan(start: Seq<char>, rich: RichText) -> Seq<FinalItemView> {
    if rich.blocks@.len() > 0 {
        Seq::new(
            rich.blocks@.len(),
            |i: int| final_item(start, part_of(rich.blocks@[i]), i),
        )
    } else {
        seq![final_item(start, FinalPart::Paragraphs, 0)] + numbered(
            start,
            FinalPart::Table,
            rich.tables as nat,
        ) + numbered(start, FinalPart::Code, rich.code_blocks as nat) + numbered(
            start,
            FinalPart::Diagram,
            rich.diagrams as nat,
        )
    }
}

/// `final_item`, executable.
fn item(turn_id: &str, round: u32, part: FinalPart, index: usize) -> (r: FinalItem)
    ensures
        r@ == final_item(answer_key(turn_id@, round), part, index as int),
{
    let key = match part {
        FinalPart::Table => Some(numbered_key(turn_id, round, "-table-", index)),
        FinalPart::Code => Some(numbered_key(turn_id, round, "-code-", index)),
        FinalPart::Diagram => Some(numbered_key(turn_id, round, "-diagram-", index)),
        _ => None,
    };
    FinalItem { part, index, key }
}

/// Appends `n` parts of one sort.
fn append_numbered(
    items: &mut Vec<FinalItem>,
    turn_id: &str,
    round: u32,
    part: FinalPart,
    n: usize,
)
    ensures
        model::views(final(items)@) == model::views(old(items)@) + numbered(
            answer_key(turn_id@, round),
            part,
            n as nat,
        ),
{
    let ghost start = answer_key(turn_id@, round);
    let ghost before = model::views(items@);
    let mut i: usize = 0;
    assert(model::views(items@) =~= before + numbered(start, part, 0));
    while i < n
        invariant
            i <= n,
            start == answer_key(turn_id@, round),
            model::views(items@) == before + numbered(start, part, i as nat),
        decreases n - i,
    {
        let ghost now = model::views(items@);
        let next = item(turn_id, round, part, i);
        items.push(next);
        assert(model::views(items@) =~= now.push(next@));
        assert(numbered(start, part, (i + 1) as nat) =~= numbered(start, part, i as nat).push(
            next@,
        ));
        assert(model::views(items@) =~= before + numbered(start, part, (i + 1) as nat));
        i = i + 1;
    }
}

/// How a complete answer is shown.
pub fn final_view(turn_id: &str, round: u32, rich: &RichText) -> (r: Vec<FinalItem>)
    ensures
        model::views(r@) == final_plan(answer_key(turn_id@, round), *rich),
{
    let ghost start = answer_key(turn_id@, round);
    let mut items: Vec<FinalItem> = Vec::new();
    if rich.blocks.len() > 0 {
        let ghost plan = final_plan(start, *rich);
        let mut i: usize = 0;
        assert(model::views(items@) =~= plan.take(0));
        while i < rich.blocks.len()
            invariant
                i <= rich.blocks@.len(),
                rich.blocks@.len() > 0,
                start == answer_key(turn_id@, round),
                plan == final_plan(start, *rich),
                model::views(items@) == plan.take(i as int),
            decreases rich.blocks@.len() - i,
        {
            let ghost before = model::views(items@);
            let part = match rich.blocks[i] {
                FinalBlock::Paragraph => FinalPart::Paragraph { top: 0 },
                FinalBlock::Heading { level } => FinalPart::Paragraph {
                    top: if level == 1 {
                        8
                    } else if level == 2 {
                        6
                    } else {
                        4
                    },
                },
                FinalBlock::Table => FinalPart::Table,
                FinalBlock::Code => FinalPart::Code,
                FinalBlock::Diagram => FinalPart::Diagram,
            };
            let next = item(turn_id, round, part, i);
            items.push(next);
            assert(model::views(items@) =~= before.push(next@));
            assert(plan.take(i + 1) =~= plan.take(i as int).push(plan[i as int]));
            i = i + 1;
        }
        assert(plan.take(i as int) =~= plan);
    } else {
        let first = item(turn_id, round, FinalPart::Paragraphs, 0);
        items.push(first);
        assert(model::views(items@) =~= seq![first@]);
        append_numbered(&mut items, turn_id, round, FinalPart::Table, rich.tables);
        append_numbered(&mut items, turn_id, round, FinalPart::Code, rich.code_blocks);
        append_numbered(&mut items, turn_id, round, FinalPart::Diagram, rich.diagrams);
    }
    items
}

/// Two keys of one answer are the same only if they are of the same part with
/// the same number.
proof fn keys_tell_parts_apart(start: Seq<char>, a: FinalPart, i: int, b: FinalPart, j: int)
    requires
        0 <= i,
        0 <= j,
        key_word(a) is Some,
        key_word(b) is Some,
        final_item(start, a, i).key == final_item(start, b, j).key,
    ensures
        a == b,
        i == j,
{
    reveal_strlit("-table-");
    reveal_strlit("-code-");
    reveal_strlit("-diagram-");
    let v = key_word(a).unwrap();
    let w = key_word(b).unwrap();
    let x = start + v + text::decimal(i as nat);
    let y = start + w + text::decimal(j as nat);
    assert(x == y);
    let at = start.len() as int;
    assert(x[at + 1] == v[1]);
    assert(y[at + 1] == w[1]);
    assert(a == b);
    assert(text::decimal(i as nat) =~= x.skip(at + v.len()));
    assert(text::decimal(j as nat) =~= y.skip(at + w.len()));
    text::decimal_is_injective(i as nat, j as nat);
}

/// No two parts of an answer have the same key.
pub proof fn answer_keys_differ(start: Seq<char>, rich: RichText)
    ensures
        forall|i: int, j: int|
            0 <= i < j < final_plan(start, rich).len() && final_plan(start, rich)[i].key is Some
                && final_plan(start, rich)[j].key is Some ==> final_plan(start, rich)[i].key
                != final_plan(start, rich)[j].key,
{
    let plan = final_plan(start, rich);
    assert forall|i: int, j: int|
        0 <= i < j < plan.len() && plan[i].key is Some && plan[j].key is Some implies plan[i].key
        != plan[j].key by {
        if plan[i].key == plan[j].key {
            let (a, m) = place(rich, i);
            let (b, n) = place(rich, j);
            place_is_right(start, rich, i);
            place_is_right(start, rich, j);
            keys_tell_parts_apart(start, a, m, b, n);
        }
    }
}

/// What stands at a place of an answer, and which one of its sort it is.
spec fn place(rich: RichText, i: int) -> (FinalPart, int) {
    if rich.blocks@.len() > 0 {
        (part_of(rich.blocks@[i]), i)
    } else if i == 0 {
        (FinalPart::Paragraphs, 0)
    } else if i <= rich.tables {
        (FinalPart::Table, i - 1)
    } else if i <= rich.tables + rich.code_blocks {
        (FinalPart::Code, i - 1 - rich.tables)
    } else {
        (FinalPart::Diagram, i - 1 - rich.tables - rich.code_blocks)
    }
}

/// `place` says what stands there.
proof fn place_is_right(start: Seq<char>, rich: RichText, i: int)
    requires
        0 <= i < final_plan(start, rich).len(),
    ensures
        place(rich, i).1 >= 0,
        final_plan(start, rich)[i] == final_item(start, place(rich, i).0, place(rich, i).1),
{
}

// ---------------------------------------------------------------------------
// Thoughts
// ---------------------------------------------------------------------------

/// How far a summary of the thoughts is open.
#[derive(Debug, Clone, Copy, PartialEq, Eq, Structural)]
pub struct Reasoning {
    pub open: bool,
    /// Whether the user opened or closed it.
    pub touched: bool,
    /// Counts how often its end was scrolled to.
    pub scroll_generation: u64,
}

impl Reasoning {
    /// The state when it is shown for the first time.
    pub fn new() -> (r: Reasoning)
        ensures
            r == (Reasoning { open: true, touched: false, scroll_generation: 0 }),
    {
        Reasoning { open: true, touched: false, scroll_generation: 0 }
    }

    /// Takes over whether the thoughts are complete. Once they are, the summary
    /// is closed, unless the user chose otherwise.
    pub fn sealed_changed(&mut self, done: bool)
        ensures
            *final(self) == (if done && !old(self).touched {
                Reasoning { open: false, ..*old(self) }
            } else {
                *old(self)
            }),
    {
        if done && !self.touched {
            self.open = false;
        }
    }

    /// Takes over that there is more text: its end is scrolled to.
    pub fn text_changed(&mut self)
        ensures
            *final(self) == (Reasoning {
                scroll_generation: model::next_rev(old(self).scroll_generation),
                ..*old(self)
            }),
    {
        self.scroll_generation = model::bump(self.scroll_generation);
    }

    /// Opens or closes the summary because the user asked for it.
    pub fn toggle(&mut self)
        ensures
            *final(self) == (Reasoning { open: !old(self).open, touched: true, ..*old(self) }),
    {
        self.touched = true;
        self.open = !self.open;
    }

    /// What the head of the summary says: a title, a remark and a sign.
    pub fn head(&self, done: bool) -> (r: (&'static str, &'static str, &'static str))
        ensures
            r.0@ == (if done {
                "过程摘要"@
            } else {
                "正在整理过程摘要"@
            }),
            r.1@ == (if done {
                "已折叠"@
            } else {
                "思考中…"@
            }),
            r.2@ == (if self.open {
                "▾"@
            } else {
                "▸"@
            }),
    {
        let title = if done {
            "过程摘要"
        } else {
            "正在整理过程摘要"
        };
        let remark = if done {
            "已折叠"
        } else {
            "思考中…"
        };
        let sign = if self.open {
            "▾"
        } else {
            "▸"
        };
        (title, remark, sign)
    }
}

// ---------------------------------------------------------------------------
// Blocks
// ---------------------------------------------------------------------------

/// One block of a turn.
#[derive(Debug)]
pub struct Block {
    pub block_id: String,
    pub block_order: u32,
    pub kind: TimelineBlockKind,
    pub text: String,
    pub sealed: bool,
    pub tool: Option<ToolCard>,
    pub answer: Answer,
    pub mutation_rev: u64,
}

/// How a block is shown.
#[derive(Debug)]
pub enum BlockShow {
    /// Not at all.
    Hidden,
    Reasoning { key: String, automation_id: String },
    Tool(ToolRow),
    Answer { key: String },
    Notice { key: String },
}

/// The model of a `BlockShow`.
#[verifier::ext_equal]
pub enum BlockShowView {
    Hidden,
    Reasoning { key: Seq<char>, automation_id: Seq<char> },
    Tool(ToolRowView),
    Answer { key: Seq<char> },
    Notice { key: Seq<char> },
}

impl View for BlockShow {
    type V = BlockShowView;

    open spec fn view(&self) -> BlockShowView {
        match self {
            BlockShow::Hidden => BlockShowView::Hidden,
            BlockShow::Reasoning { key, automation_id } => BlockShowView::Reasoning {
                key: key@,
                automation_id: automation_id@,
            },
            BlockShow::Tool(row) => BlockShowView::Tool(row@),
            BlockShow::Answer { key } => BlockShowView::Answer { key: key@ },
            BlockShow::Notice { key } => BlockShowView::Notice { key: key@ },
        }
    }
}

/// The call of a block of which nothing is known but that it was begun.
pub open spec fn unknown_call(block_id: Seq<char>) -> ToolCardView {
    ToolCardView {
        id: block_id,
        name: None,
        args_json: None,
        changes: None,
        done: false,
        failed: false,
        failure: None,
        started: true,
    }
}

/// The call of a block.
pub open spec fn call_of(block: Block) -> ToolCardView {
    match block.tool {
        Some(card) => card@,
        None => unknown_call(block.block_id@),
    }
}

/// How a block is shown.
pub open spec fn shown(turn_id: Seq<char>, block: Block, took: Option<Seq<char>>) -> BlockShowView {
    match block.kind {
        TimelineBlockKind::Reasoning => if text::blank(block.text@) {
            BlockShowView::Hidden
        } else {
            BlockShowView::Reasoning {
                key: turn_id + "-block-reasoning-"@ + block.block_id@,
                automation_id: "chat-reasoning-"@ + block.block_id@,
            }
        },
        TimelineBlockKind::Tool => {
            let card = call_of(block);
            if card.started || card.done {
                BlockShowView::Tool(
                    tools::row_with(
                        turn_id,
                        block.block_order,
                        card,
                        tools::hint(card.args_json),
                        took,
                    ),
                )
            } else {
                BlockShowView::Hidden
            }
        },
        TimelineBlockKind::Text => if visible(block.answer) {
            BlockShowView::Answer { key: turn_id + "-block-answer-"@ + block.block_id@ }
        } else {
            BlockShowView::Hidden
        },
        TimelineBlockKind::Notice => if text::blank(block.text@) {
            BlockShowView::Hidden
        } else {
            BlockShowView::Notice { key: turn_id + "-block-notice-"@ + block.block_id@ }
        },
    }
}

/// How a block is shown. `took` says how long its call took.
pub fn block_view(turn_id: &str, block: &Block, took: Option<String>) -> (r: BlockShow)
    ensures
        r@ == shown(turn_id@, *block, model::opt_view(took)),
{
    match block.kind {
        TimelineBlockKind::Reasoning => {
            if text::is_blank(block.text.as_str()) {
                return BlockShow::Hidden;
            }
            BlockShow::Reasoning {
                key: text::join3(turn_id, "-block-reasoning-", block.block_id.as_str()),
                automation_id: text::join2("chat-reasoning-", block.block_id.as_str()),
            }
        },
        TimelineBlockKind::Tool => match &block.tool {
            Some(card) => if tools::tool_row_visible(card) {
                BlockShow::Tool(tools::tool_row(turn_id, block.block_order, card, took))
            } else {
                BlockShow::Hidden
            },
            None => {
                let card = ToolCard {
                    id: block.block_id.clone(),
                    name: None,
                    args_json: None,
                    changes: None,
                    done: false,
                    failed: false,
                    failure: None,
                    started: true,
                };
                BlockShow::Tool(tools::tool_row(turn_id, block.block_order, &card, took))
            },
        },
        TimelineBlockKind::Text => if answer_has_visible_content(&block.answer) {
            BlockShow::Answer {
                key: text::join3(turn_id, "-block-answer-", block.block_id.as_str()),
            }
        } else {
            BlockShow::Hidden
        },
        TimelineBlockKind::Notice => {
            if text::is_blank(block.text.as_str()) {
                return BlockShow::Hidden;
            }
            BlockShow::Notice {
                key: text::join3(turn_id, "-block-notice-", block.block_id.as_str()),
            }
        },
    }
}

/// What a block was drawn from.
#[derive(Debug)]
pub struct BlockProps {
    pub turn_id: String,
    pub block_id: String,
    pub mutation_rev: u64,
    /// Whether it was drawn in dark colours.
    pub dark: bool,
}

/// Whether a drawn block need not be drawn again. `same_data` says that it is the
/// very same block.
pub fn block_unchanged(old_props: &BlockProps, new_props: &BlockProps, same_data: bool) -> (r: bool)
    ensures
        r == (old_props.dark == new_props.dark && old_props.turn_id@ == new_props.turn_id@ && (
        same_data || (old_props.block_id@ == new_props.block_id@ && old_props.mutation_rev
            == new_props.mutation_rev))),
{
    old_props.dark == new_props.dark && text::same(
        old_props.turn_id.as_str(),
        new_props.turn_id.as_str(),
    ) && (same_data || (text::same(old_props.block_id.as_str(), new_props.block_id.as_str())
        && old_props.mutation_rev == new_props.mutation_rev))
}

/// An answer that is being written is seen as soon as it says something; one that is
/// complete if it has any part.
pub proof fn answers_with_parts_are_seen(answer: Answer)
    ensures
        answer matches Answer::Streaming { raw, .. } ==> (visible(answer) <==> exists|i: int|
            0 <= i < raw@.len() && !text::white(#[trigger] raw@[i])),
        answer matches Answer::Final { blocks, rich } ==> (!visible(answer) <==> blocks == 0
            && rich.paragraphs == 0 && rich.code_blocks == 0 && rich.diagrams == 0 && rich.tables
            == 0),
{
}

/// What is shown of a block follows its kind. Thoughts and notices are shown unless
/// they are blank, answers if there is something to see of them, calls once they were
/// started or are done; a call of which nothing is known counts as started.
pub proof fn blocks_are_shown_by_their_kind(
    turn_id: Seq<char>,
    block: Block,
    took: Option<Seq<char>>,
)
    ensures
        ({
            let show = shown(turn_id, block, took);
            let blank = text::blank(block.text@);
            &&& show is Reasoning <==> block.kind == TimelineBlockKind::Reasoning && !blank
            &&& show is Notice <==> block.kind == TimelineBlockKind::Notice && !blank
            &&& show is Answer <==> block.kind == TimelineBlockKind::Text && visible(block.answer)
            &&& block.kind != TimelineBlockKind::Tool ==> !(show is Tool)
            &&& block.kind == TimelineBlockKind::Tool && block.tool is None ==> show is Tool
            &&& block.tool matches Some(card) ==> (block.kind == TimelineBlockKind::Tool ==> (
            show is Tool <==> card@.started || card@.done))
            &&& show matches BlockShowView::Tool(row) ==> (block.tool matches Some(card)
                ==> row.critical == card@.failed)
        }),
{
}

/// Every part of a complete answer is shown as what it is, in order. A heading has the
/// more room above it the higher its level, a paragraph none.
pub proof fn parts_are_shown_as_what_they_are(start: Seq<char>, rich: RichText, i: int)
    requires
        0 <= i < rich.blocks@.len(),
    ensures
        final_plan(start, rich).len() == rich.blocks@.len(),
        ({
            let part = final_plan(start, rich)[i].part;
            &&& rich.blocks@[i] is Table <==> part is Table
            &&& rich.blocks@[i] is Code <==> part is Code
            &&& rich.blocks@[i] is Diagram <==> part is Diagram
            &&& rich.blocks@[i] is Paragraph ==> part == (FinalPart::Paragraph { top: 0 })
            &&& rich.blocks@[i] matches FinalBlock::Heading { level } ==> (part
                matches FinalPart::Paragraph { top } && (level == 1 ==> top == 8) && (level == 2
                ==> top == 6) && (level != 1 && level != 2 ==> top == 4))
        }),
{
}

/// An older answer shows its paragraphs, then each of its tables, code blocks and
/// diagrams.
pub proof fn older_answers_show_everything(start: Seq<char>, rich: RichText)
    requires
        rich.blocks@.len() == 0,
    ensures
        ({
            let plan = final_plan(start, rich);
            let tables = rich.tables as int;
            let codes = rich.code_blocks as int;
            let diagrams = rich.diagrams as int;
            &&& plan.len() == 1 + tables + codes + diagrams
            &&& plan[0].part is Paragraphs
            &&& forall|i: int| 0 < i <= tables ==> (#[trigger] plan[i]).part is Table
            &&& forall|i: int|
                tables < i <= tables + codes ==> (#[trigger] plan[i]).part is Code
            &&& forall|i: int|
                tables + codes < i < plan.len() ==> (#[trigger] plan[i]).part is Diagram
        }),
{
}

/// There is always something to see of an answer that is being written: each segment
/// but the empty texts, and where that is nothing, something in its place.
pub proof fn live_answers_keep_their_place(start: Seq<char>, segments: Seq<LiveSegment>)
    ensures
        live_plan(start, segments).len() > 0,
        live_plan(start, segments)[0] is Empty <==> forall|i: int|
            0 <= i < segments.len() ==> ((#[trigger] segments[i]) matches LiveSegment::Text(content)
                && content@.len() == 0),
{
    live_items_are_of_segments(start, segments);
}

proof fn live_items_are_of_segments(start: Seq<char>, segments: Seq<LiveSegment>)
    ensures
        live_items(start, segments).len() == 0 <==> forall|i: int|
            0 <= i < segments.len() ==> ((#[trigger] segments[i]) matches LiveSegment::Text(content)
                && content@.len() == 0),
        forall|k: int|
            0 <= k < live_items(start, segments).len() ==> !(#[trigger] live_items(
                start,
                segments,
            )[k] is Empty),
    decreases segments.len(),
{
    if segments.len() > 0 {
        let front = segments.drop_last();
        let last = segments.len() - 1;
        live_items_are_of_segments(start, front);
        assert(segments[last] == segments.last());
        assert forall|i: int| 0 <= i < last implies front[i] == segments[i] by {}
        if live_items(start, front).len() > 0 {
            let i = choose|i: int|
                0 <= i < front.len() && !((#[trigger] front[i]) matches LiveSegment::Text(content)
                    && content@.len() == 0);
            assert(segments[i] == front[i]);
        }
    }
}

} // verus!
