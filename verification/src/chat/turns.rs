//! How a turn is shown: what the user said and how it went, the blocks in the
//! order in which they came, and the files that were changed.

use vstd::prelude::*;

use crate::chat::diff;
use crate::chat::diff::{DrawerFile, DrawerFileView};
use crate::model;
use crate::text;

verus! {

/// How a turn went, as a tone.
#[derive(Debug, Clone, Copy, PartialEq, Eq, Structural)]
pub enum StatusTone {
    Critical,
    Success,
    Running,
}

/// A turn.
#[derive(Debug)]
pub struct Turn {
    pub turn_id: String,
    pub user_text: String,
    pub failed: bool,
    pub sealed: bool,
    pub failure: Option<String>,
    /// The blocks, in the order in which they came.
    pub block_ids: Vec<String>,
}

/// A part of a turn as it is shown.
#[derive(Debug)]
pub enum TurnItem {
    /// The menu that takes the turn back.
    UndoMenu,
    /// What the user said, with how the turn went.
    UserMessage { body: String, status: String, tone: StatusTone },
    /// What a subagent reported. It is not shown as said by the user.
    Injected { body: String },
    Failure { message: String, key: String },
    Block { index: usize, key: String },
    DiffSummary { label: String, key: String },
}

/// The model of a `TurnItem`.
#[verifier::ext_equal]
pub enum TurnItemView {
    UndoMenu,
    UserMessage { body: Seq<char>, status: Seq<char>, tone: StatusTone },
    Injected { body: Seq<char> },
    Failure { message: Seq<char>, key: Seq<char> },
    Block { index: usize, key: Seq<char> },
    DiffSummary { label: Seq<char>, key: Seq<char> },
}

impl View for TurnItem {
    type V = TurnItemView;

    open spec fn view(&self) -> TurnItemView {
        match self {
            TurnItem::UndoMenu => TurnItemView::UndoMenu,
            TurnItem::UserMessage { body, status, tone } => TurnItemView::UserMessage {
                body: body@,
                status: status@,
                tone: *tone,
            },
            TurnItem::Injected { body } => TurnItemView::Injected { body: body@ },
            TurnItem::Failure { message, key } => TurnItemView::Failure {
                message: message@,
                key: key@,
            },
            TurnItem::Block { index, key } => TurnItemView::Block { index: *index, key: key@ },
            TurnItem::DiffSummary { label, key } => TurnItemView::DiffSummary {
                label: label@,
                key: key@,
            },
        }
    }
}

/// How a turn went, in words and as a tone.
pub open spec fn status_of(failed: bool, sealed: bool) -> (Seq<char>, StatusTone) {
    if failed {
        ("失败"@, StatusTone::Critical)
    } else if sealed {
        ("已完成"@, StatusTone::Success)
    } else {
        ("正在处理"@, StatusTone::Running)
    }
}

/// Whether a text was reported by a subagent.
pub open spec fn is_injected(user_text: Seq<char>) -> bool {
    text::has_prefix(text::trimmed_start(user_text), "[SUBAGENT "@)
}

/// What began the turn, as it is shown.
pub open spec fn opening(turn: Turn) -> TurnItemView {
    if is_injected(turn.user_text@) {
        TurnItemView::Injected { body: turn.user_text@ }
    } else {
        let (status, tone) = status_of(turn.failed, turn.sealed);
        TurnItemView::UserMessage { body: turn.user_text@, status, tone }
    }
}

/// Why the turn failed, as it is shown.
pub open spec fn failure_items(turn: Turn) -> Seq<TurnItemView> {
    match (turn.failed, turn.failure) {
        (true, Some(error)) => seq![
            TurnItemView::Failure {
                message: "回合失败："@ + error@,
                key: turn.turn_id@ + "-failed-error"@,
            },
        ],
        _ => Seq::empty(),
    }
}

/// The blocks, in the order in which they came.
pub open spec fn block_items(turn: Turn) -> Seq<TurnItemView> {
    Seq::new(
        turn.block_ids@.len(),
        |i: int|
            TurnItemView::Block {
                index: i as usize,
                key: turn.turn_id@ + "-block-"@ + turn.block_ids@[i]@,
            },
    )
}

/// The summary of the changed files.
pub open spec fn summary_items<T>(turn_id: Seq<char>, files: Option<Seq<DrawerFileView<T>>>) -> Seq<
    TurnItemView,
> {
    match files {
        Some(list) => seq![
            TurnItemView::DiffSummary {
                label: diff::summary(list),
                key: turn_id + "-diff-summary"@,
            },
        ],
        None => Seq::empty(),
    }
}

/// The files that a turn changed, if it changed any.
pub open spec fn changed_files<T>(files: Option<Vec<DrawerFile<T>>>) -> Option<
    Seq<DrawerFileView<T>>,
> {
    match files {
        Some(list) => Some(model::views(list@)),
        None => None,
    }
}

/// How a turn is shown.
pub open spec fn turn_plan<T>(
    turn: Turn,
    menu_open: bool,
    files: Option<Seq<DrawerFileView<T>>>,
) -> Seq<TurnItemView> {
    (if menu_open {
        seq![TurnItemView::UndoMenu]
    } else {
        Seq::empty()
    }) + seq![opening(turn)] + failure_items(turn) + block_items(turn) + summary_items(
        turn.turn_id@,
        files,
    )
}

/// How a turn is shown. `files` are the files that it changed.
pub fn turn_view<T>(turn: &Turn, menu_open: bool, files: &Option<Vec<DrawerFile<T>>>) -> (r: Vec<
    TurnItem,
>)
    requires
        files matches Some(list) ==> diff::total_added(model::views(list@)) <= usize::MAX
            && diff::total_removed(model::views(list@)) <= usize::MAX,
    ensures
        model::views(r@) == turn_plan(
            *turn,
            menu_open,
            changed_files(*files),
        ),
{
    let mut items: Vec<TurnItem> = Vec::new();
    let ghost mut plan = Seq::<TurnItemView>::empty();
    if menu_open {
        items.push(TurnItem::UndoMenu);
        proof {
            plan = seq![TurnItemView::UndoMenu];
        }
    }
    assert(model::views(items@) =~= plan);
    let first = if text::starts_with(text::trim_start(turn.user_text.as_str()).as_str(), "[SUBAGENT ") {
        TurnItem::Injected { body: turn.user_text.clone() }
    } else {
        let (status, tone) = if turn.failed {
            ("失败", StatusTone::Critical)
        } else if turn.sealed {
            ("已完成", StatusTone::Success)
        } else {
            ("正在处理", StatusTone::Running)
        };
        TurnItem::UserMessage { body: turn.user_text.clone(), status: status.to_owned(), tone }
    };
    assert(first@ == opening(*turn));
    items.push(first);
    proof {
        plan = plan + seq![opening(*turn)];
    }
    assert(model::views(items@) =~= plan);
    if turn.failed {
        if let Some(error) = &turn.failure {
            let message = text::join2("回合失败：", error.as_str());
            let key = text::join2(turn.turn_id.as_str(), "-failed-error");
            items.push(TurnItem::Failure { message, key });
        }
    }
    proof {
        plan = plan + failure_items(*turn);
    }
    assert(model::views(items@) =~= plan);
    let ghost blocks = block_items(*turn);
    let mut i: usize = 0;
    assert(plan + blocks.take(0) =~= plan);
    while i < turn.block_ids.len()
        invariant
            i <= turn.block_ids@.len(),
            blocks == block_items(*turn),
            model::views(items@) == plan + blocks.take(i as int),
        decreases turn.block_ids@.len() - i,
    {
        let ghost before = model::views(items@);
        let key = text::join3(turn.turn_id.as_str(), "-block-", turn.block_ids[i].as_str());
        items.push(TurnItem::Block { index: i, key });
        assert(items@.last()@ == blocks[i as int]);
        assert(model::views(items@) =~= before.push(blocks[i as int]));
        assert(blocks.take(i + 1) =~= blocks.take(i as int).push(blocks[i as int]));
        assert(model::views(items@) =~= plan + blocks.take(i + 1));
        i = i + 1;
    }
    assert(blocks.take(i as int) =~= blocks);
    proof {
        plan = plan + blocks;
    }
    if let Some(list) = files {
        let label = diff::diff_summary(list);
        let key = text::join2(turn.turn_id.as_str(), "-diff-summary");
        let ghost before = model::views(items@);
        items.push(TurnItem::DiffSummary { label, key });
        assert(model::views(items@) =~= before.push(items@.last()@));
    }
    proof {
        let shown = changed_files(*files);
        assert(model::views(items@) =~= plan + summary_items(turn.turn_id@, shown));
        assert(turn_plan(*turn, menu_open, shown) =~= plan + summary_items(turn.turn_id@, shown));
    }
    items
}

/// What a subagent reported is never shown as said by the user, and what the user
/// said always is.
pub proof fn reports_are_not_shown_as_said<T>(
    turn: Turn,
    menu_open: bool,
    files: Option<Seq<DrawerFileView<T>>>,
)
    ensures
        is_injected(turn.user_text@) <==> forall|i: int|
            0 <= i < turn_plan(turn, menu_open, files).len() ==> !(#[trigger] turn_plan(
                turn,
                menu_open,
                files,
            )[i] is UserMessage),
{
    let plan = turn_plan(turn, menu_open, files);
    let at: int = if menu_open {
        1
    } else {
        0
    };
    assert(plan[at] == opening(turn));
}

// ---------------------------------------------------------------------------
// Taking a turn back
// ---------------------------------------------------------------------------

/// The menu of a turn, and the question whether it is to be taken back.
#[derive(Debug, Clone, Copy, PartialEq, Eq, Structural)]
pub struct UndoMenu {
    pub menu_open: bool,
    pub confirm_open: bool,
}

/// What can happen to the menu of a turn.
#[derive(Debug, Clone, Copy, PartialEq, Eq, Structural)]
pub enum UndoEvent {
    /// The turn was tapped with the right button.
    RightTapped,
    /// The turn was tapped.
    Tapped,
    /// The entry of the menu was chosen.
    Chosen,
    /// The question was answered.
    Answered { confirmed: bool },
}

/// The menu after an event.
pub open spec fn after_event(menu: UndoMenu, event: UndoEvent) -> UndoMenu {
    match event {
        UndoEvent::RightTapped => UndoMenu { menu_open: true, ..menu },
        UndoEvent::Tapped => UndoMenu { menu_open: false, ..menu },
        UndoEvent::Chosen => UndoMenu { menu_open: false, confirm_open: true },
        UndoEvent::Answered { .. } => UndoMenu { confirm_open: false, ..menu },
    }
}

impl UndoMenu {
    /// Nothing is open.
    pub fn new() -> (r: UndoMenu)
        ensures
            r == (UndoMenu { menu_open: false, confirm_open: false }),
    {
        UndoMenu { menu_open: false, confirm_open: false }
    }

    /// Takes over an event. Says whether the turn and everything behind it is
    /// taken back.
    pub fn handle(&mut self, event: UndoEvent) -> (r: bool)
        ensures
            *final(self) == after_event(*old(self), event),
            r == (event == UndoEvent::Answered { confirmed: true }),
    {
        match event {
            UndoEvent::RightTapped => {
                self.menu_open = true;
                false
            },
            UndoEvent::Tapped => {
                self.menu_open = false;
                false
            },
            UndoEvent::Chosen => {
                self.menu_open = false;
                self.confirm_open = true;
                false
            },
            UndoEvent::Answered { confirmed } => {
                self.confirm_open = false;
                confirmed
            },
        }
    }
}

/// The question is open only after the entry of the menu was chosen, and stays
/// open until it is answered.
pub proof fn nothing_is_taken_back_unasked(menu: UndoMenu, event: UndoEvent)
    ensures
        !menu.confirm_open && after_event(menu, event).confirm_open ==> event
            == UndoEvent::Chosen,
        menu.confirm_open && !after_event(menu, event).confirm_open ==> event is Answered,
{
}

// ---------------------------------------------------------------------------
// Turns that are drawn already
// ---------------------------------------------------------------------------

/// What a turn was drawn from.
#[derive(Debug)]
pub struct TurnProps {
    pub turn_id: String,
    pub mutation_rev: u64,
    /// Whether it was drawn in dark colours.
    pub dark: bool,
}

/// Whether a drawn turn need not be drawn again. `same_data` says that it is the
/// very same turn.
pub fn turn_unchanged(old_props: &TurnProps, new_props: &TurnProps, same_data: bool) -> (r: bool)
    ensures
        r == (old_props.dark == new_props.dark && (same_data || (old_props.turn_id@
            == new_props.turn_id@ && old_props.mutation_rev == new_props.mutation_rev))),
{
    old_props.dark == new_props.dark && (same_data || (text::same(
        old_props.turn_id.as_str(),
        new_props.turn_id.as_str(),
    ) && old_props.mutation_rev == new_props.mutation_rev))
}

/// A turn that failed is shown as failed, one that is complete as done, any other as
/// running; and each in its own tone.
pub proof fn turns_say_how_they_went(failed: bool, sealed: bool)
    ensures
        status_of(failed, sealed).1 == StatusTone::Critical <==> failed,
        status_of(failed, sealed).1 == StatusTone::Success <==> !failed && sealed,
        status_of(failed, sealed).1 == StatusTone::Running <==> !failed && !sealed,
        status_of(failed, sealed).0 == "失败"@ <==> failed,
        status_of(failed, sealed).0 == "已完成"@ <==> !failed && sealed,
{
    reveal_strlit("失败");
    reveal_strlit("已完成");
    reveal_strlit("正在处理");
    assert("失败"@.len() == 2);
    assert("已完成"@.len() == 3);
    assert("正在处理"@.len() == 4);
}

/// A turn is shown with what began it, then why it failed if it did and that is
/// known, then every block in order, then the files that it changed if there are
/// any. The menu stands before all that while it is open.
pub proof fn turns_are_shown_in_order<T>(
    turn: Turn,
    menu_open: bool,
    files: Option<Seq<DrawerFileView<T>>>,
)
    ensures
        ({
            let plan = turn_plan(turn, menu_open, files);
            let first: int = if menu_open {
                1
            } else {
                0
            };
            let tells = turn.failed && turn.failure is Some;
            let blocks: int = first + 1 + if tells {
                1int
            } else {
                0
            };
            let count = turn.block_ids@.len();
            &&& plan.len() == blocks + count + if files is Some {
                1int
            } else {
                0
            }
            &&& menu_open ==> plan[0] == TurnItemView::UndoMenu
            &&& plan[first] matches TurnItemView::UserMessage { body, .. } ==> body
                == turn.user_text@
            &&& plan[first] matches TurnItemView::Injected { body } ==> body == turn.user_text@
            &&& plan[first] is UserMessage || plan[first] is Injected
            &&& tells ==> plan[first + 1] is Failure
            &&& forall|i: int|
                0 <= i < count ==> #[trigger] plan[blocks + i] == (TurnItemView::Block {
                    index: i as usize,
                    key: turn.turn_id@ + "-block-"@ + turn.block_ids@[i]@,
                })
            &&& files is Some ==> plan[plan.len() - 1] is DiffSummary
        }),
{
}

/// Each event does what it says to the menu and the question, and nothing else: the
/// right button opens the menu, a tap closes it, its entry asks the question in its
/// place, and an answer closes the question.
pub proof fn menus_open_and_close(menu: UndoMenu, confirmed: bool)
    ensures
        after_event(menu, UndoEvent::RightTapped).menu_open,
        after_event(menu, UndoEvent::RightTapped).confirm_open == menu.confirm_open,
        !after_event(menu, UndoEvent::Tapped).menu_open,
        after_event(menu, UndoEvent::Tapped).confirm_open == menu.confirm_open,
        !after_event(menu, UndoEvent::Chosen).menu_open,
        after_event(menu, UndoEvent::Chosen).confirm_open,
        !after_event(menu, UndoEvent::Answered { confirmed }).confirm_open,
        after_event(menu, UndoEvent::Answered { confirmed }).menu_open == menu.menu_open,
{
}

} // verus!
