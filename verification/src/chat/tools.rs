//! How a call of a tool is shown: as one line that says what is done to what.

use vstd::prelude::*;

use crate::json;
use crate::json::{Json, JsonView};
use crate::model;
use crate::text;

verus! {

/// How many characters of an argument are shown at most.
pub const HINT_CHARS: usize = 52;

/// A call of a tool.
#[derive(Debug)]
pub struct ToolCard {
    pub id: String,
    /// The tool; unknown while the call is still being written.
    pub name: Option<String>,
    pub args_json: Option<String>,
    /// How many lines were added and removed, as it is shown; none if the call
    /// changed nothing.
    pub changes: Option<String>,
    pub done: bool,
    pub failed: bool,
    pub failure: Option<String>,
    /// Whether the call was begun, and not only announced.
    pub started: bool,
}

/// The model of a `ToolCard`.
#[verifier::ext_equal]
pub struct ToolCardView {
    pub id: Seq<char>,
    pub name: Option<Seq<char>>,
    pub args_json: Option<Seq<char>>,
    pub changes: Option<Seq<char>>,
    pub done: bool,
    pub failed: bool,
    pub failure: Option<Seq<char>>,
    pub started: bool,
}

impl View for ToolCard {
    type V = ToolCardView;

    open spec fn view(&self) -> ToolCardView {
        ToolCardView {
            id: self.id@,
            name: model::opt_view(self.name),
            args_json: model::opt_view(self.args_json),
            changes: model::opt_view(self.changes),
            done: self.done,
            failed: self.failed,
            failure: model::opt_view(self.failure),
            started: self.started,
        }
    }
}

// ---------------------------------------------------------------------------
// What is done
// ---------------------------------------------------------------------------

/// Whether a character parts the name of a tool from what it belongs to.
pub open spec fn parts_names(c: char) -> bool {
    c == '.' || c == ':' || c == '/'
}

/// A tool's name without what it belongs to: what stands behind the last parting
/// character.
pub open spec fn short_name(name: Seq<char>) -> Seq<char>
    decreases name.len(),
{
    if name.len() == 0 || parts_names(name.last()) {
        Seq::empty()
    } else {
        short_name(name.drop_last()).push(name.last())
    }
}

/// `short_name`, executable.
fn short_name_of(name: &str) -> (r: String)
    ensures
        r@ == short_name(name@),
{
    let chars = text::chars_of(name);
    let total: usize = chars.len();
    let mut from: usize = total;
    assert(name@.subrange(total as int, total as int) =~= Seq::<char>::empty());
    assert(name@.take(total as int) =~= name@);
    assert(short_name(name@) =~= short_name(name@.take(from as int)) + name@.subrange(
        from as int,
        total as int,
    ));
    while from > 0
        invariant
            from <= total,
            total == name@.len(),
            chars@ == name@,
            short_name(name@) == short_name(name@.take(from as int)) + name@.subrange(
                from as int,
                total as int,
            ),
        decreases from,
    {
        let c = chars[from - 1];
        let ghost front = name@.take(from as int);
        assert(front.last() == c);
        assert(front.drop_last() =~= name@.take(from - 1));
        if c == '.' || c == ':' || c == '/' {
            let out = text::string_between(chars.as_slice(), from, total);
            assert(short_name(name@) =~= out@);
            return out;
        }
        assert(short_name(name@) =~= short_name(name@.take(from - 1)) + name@.subrange(
            from - 1,
            total as int,
        ));
        from = from - 1;
    }
    let out = text::string_between(chars.as_slice(), 0, total);
    assert(short_name(name@) =~= out@);
    out
}

/// What a tool does, if it is one of the known ones. `name` is in lower case.
pub open spec fn known_action(name: Seq<char>) -> Option<Seq<char>> {
    if name == "exec"@ || name == "exec_command"@ || name == "shell"@ || name
        == "shell_command"@ {
        Some("运行命令"@)
    } else if name == "read"@ || name == "read_file"@ {
        Some("读取文件"@)
    } else if name == "write"@ || name == "write_file"@ {
        Some("写入文件"@)
    } else if name == "apply_patch"@ || name == "edit"@ || name == "edit_file"@ {
        Some("修改文件"@)
    } else if name == "grep"@ || name == "rg"@ || name == "search_files"@ || name
        == "search_text"@ {
        Some("搜索内容"@)
    } else if name == "web_search"@ || name == "search_query"@ {
        Some("搜索网页"@)
    } else if name == "view_image"@ || name == "open_image"@ || name == "read_image"@ {
        Some("查看图片"@)
    } else if name == "list_files"@ || name == "list_directory"@ {
        Some("列出文件"@)
    } else {
        None
    }
}

/// `known_action`, executable.
fn find_action(name: &str) -> (r: Option<&'static str>)
    ensures
        match (r, known_action(name@)) {
            (Some(action), Some(view)) => action@ == view,
            (None, None) => true,
            _ => false,
        },
{
    if text::same(name, "exec") || text::same(name, "exec_command") || text::same(name, "shell")
        || text::same(name, "shell_command") {
        Some("运行命令")
    } else if text::same(name, "read") || text::same(name, "read_file") {
        Some("读取文件")
    } else if text::same(name, "write") || text::same(name, "write_file") {
        Some("写入文件")
    } else if text::same(name, "apply_patch") || text::same(name, "edit") || text::same(
        name,
        "edit_file",
    ) {
        Some("修改文件")
    } else if text::same(name, "grep") || text::same(name, "rg") || text::same(
        name,
        "search_files",
    ) || text::same(name, "search_text") {
        Some("搜索内容")
    } else if text::same(name, "web_search") || text::same(name, "search_query") {
        Some("搜索网页")
    } else if text::same(name, "view_image") || text::same(name, "open_image") || text::same(
        name,
        "read_image",
    ) {
        Some("查看图片")
    } else if text::same(name, "list_files") || text::same(name, "list_directory") {
        Some("列出文件")
    } else {
        None
    }
}

/// What a call does, as it is shown.
pub open spec fn action(name: Option<Seq<char>>) -> Seq<char> {
    match name {
        None => "解析工具调用"@,
        Some(full) => match known_action(text::lowered(short_name(full))) {
            Some(known) => known,
            None => "调用 "@ + short_name(full),
        },
    }
}

/// What a call does, as it is shown.
pub fn tool_action(card: &ToolCard) -> (r: String)
    ensures
        r@ == action(card@.name),
{
    match &card.name {
        None => "解析工具调用".to_owned(),
        Some(full) => {
            let short = short_name_of(full.as_str());
            let lower = text::to_lower(short.as_str());
            match find_action(lower.as_str()) {
                Some(known) => known.to_owned(),
                None => text::join2("调用 ", short.as_str()),
            }
        },
    }
}

/// What a tool belongs to, and the case of its name, do not change what it does.
pub proof fn actions_ignore_where_a_tool_belongs(owner: Seq<char>, name: Seq<char>)
    requires
        forall|i: int| 0 <= i < name.len() ==> !parts_names(#[trigger] name[i]),
    ensures
        action(Some(owner + seq!['.'] + name)) == action(Some(name)),
{
    short_name_is_the_rest(owner + seq!['.'], name);
    short_name_is_the_rest(Seq::empty(), name);
    assert(Seq::<char>::empty() + name =~= name);
}

/// What stands behind the last parting character.
proof fn short_name_is_the_rest(front: Seq<char>, back: Seq<char>)
    requires
        front.len() == 0 || parts_names(front.last()),
        forall|i: int| 0 <= i < back.len() ==> !parts_names(#[trigger] back[i]),
    ensures
        short_name(front + back) == back,
    decreases back.len(),
{
    if back.len() == 0 {
        assert(front + back =~= front);
    } else {
        assert((front + back).last() == back.last());
        assert((front + back).drop_last() =~= front + back.drop_last());
        assert forall|i: int| 0 <= i < back.drop_last().len() implies !parts_names(
            #[trigger] back.drop_last()[i],
        ) by {
            assert(!parts_names(back[i]));
        }
        assert(!parts_names(back[back.len() - 1]));
        short_name_is_the_rest(front, back.drop_last());
        assert(back.drop_last().push(back.last()) =~= back);
    }
}

// ---------------------------------------------------------------------------
// To what it is done
// ---------------------------------------------------------------------------

/// `value` on one line, cut to `max` characters.
pub open spec fn preview(value: Seq<char>, max: usize) -> Seq<char> {
    let line = text::squeezed(value);
    if line.len() <= max {
        line
    } else if max == 0 {
        seq!['…']
    } else {
        line.take(max - 1).push('…')
    }
}

/// `value` on one line, cut to `max_chars` characters.
pub fn compact_preview(value: &str, max_chars: usize) -> (r: String)
    ensures
        r@ == preview(value@, max_chars),
{
    let line = text::squeeze(value);
    if text::count(line.as_str()) <= max_chars {
        return line;
    }
    let kept: usize = if max_chars == 0 {
        0
    } else {
        max_chars - 1
    };
    let mut out = text::first_chars(line.as_str(), kept);
    out.push('…');
    assert(line@.take(0).push('…') =~= seq!['…']);
    out
}

/// A preview fits, and is empty only if the text is blank.
pub proof fn previews_fit(value: Seq<char>, max: usize)
    requires
        max > 0,
    ensures
        preview(value, max).len() <= max,
        preview(value, max).len() == 0 <==> text::blank(value),
{
    text::squeezed_is_tight(value);
}

/// The arguments that say what a call works on, the most telling ones first.
pub open spec fn hint_keys() -> Seq<Seq<char>> {
    seq!["path"@, "file"@, "command"@, "query"@, "q"@, "pattern"@, "url"@, "name"@]
}

/// The preview of the first of `keys` that is a text and not blank.
pub open spec fn first_hint(value: JsonView, keys: Seq<Seq<char>>) -> Option<Seq<char>>
    decreases keys.len(),
{
    if keys.len() == 0 {
        None
    } else {
        match value.text_field(keys[0]) {
            Some(found) => if preview(found, HINT_CHARS).len() > 0 {
                Some(preview(found, HINT_CHARS))
            } else {
                first_hint(value, keys.skip(1))
            },
            None => first_hint(value, keys.skip(1)),
        }
    }
}

/// What a call with these arguments works on, as it is shown: one of its named
/// arguments, or the text that is its only argument.
pub open spec fn hint_of(value: JsonView) -> Option<Seq<char>> {
    match value {
        JsonView::Object(_) => first_hint(value, hint_keys()),
        JsonView::Text(found) => if preview(found, HINT_CHARS).len() > 0 {
            Some(preview(found, HINT_CHARS))
        } else {
            None
        },
        _ => None,
    }
}

/// What a call with these arguments works on, as it is shown.
pub open spec fn hint(args: Option<Seq<char>>) -> Option<Seq<char>> {
    match args {
        Some(raw) => match json::json_text(raw) {
            Some(value) => hint_of(value),
            None => None,
        },
        None => None,
    }
}

/// `hint_keys`, executable.
fn keys() -> (r: Vec<&'static str>)
    ensures
        r@.len() == hint_keys().len(),
        forall|i: int| 0 <= i < r@.len() ==> (#[trigger] r@[i])@ == hint_keys()[i],
{
    let mut out: Vec<&'static str> = Vec::new();
    out.push("path");
    out.push("file");
    out.push("command");
    out.push("query");
    out.push("q");
    out.push("pattern");
    out.push("url");
    out.push("name");
    out
}

/// What a call with these arguments works on, as it is shown.
pub fn hint_in(value: &Json) -> (r: Option<String>)
    ensures
        model::opt_view(r) == hint_of(value@),
{
    match value {
        Json::Object(_) => {
            let keys = keys();
            let ghost all = hint_keys();
            let mut i: usize = 0;
            assert(all.skip(0) =~= all);
            while i < keys.len()
                invariant
                    i <= keys@.len(),
                    keys@.len() == all.len(),
                    all == hint_keys(),
                    forall|k: int| 0 <= k < keys@.len() ==> (#[trigger] keys@[k])@ == all[k],
                    hint_of(value@) == first_hint(value@, all),
                    first_hint(value@, all) == first_hint(value@, all.skip(i as int)),
                decreases keys@.len() - i,
            {
                let ghost rest = all.skip(i as int);
                assert(rest[0] == all[i as int]);
                assert(rest.skip(1) =~= all.skip(i + 1));
                if let Some(found) = value.text_field(keys[i]) {
                    let shown = compact_preview(found.as_str(), HINT_CHARS);
                    if !shown.as_str().is_empty() {
                        return Some(shown);
                    }
                }
                i = i + 1;
            }
            assert(all.skip(i as int).len() == 0);
            None
        },
        Json::Text(found) => {
            let shown = compact_preview(found.as_str(), HINT_CHARS);
            if shown.as_str().is_empty() {
                None
            } else {
                Some(shown)
            }
        },
        _ => None,
    }
}

/// What a call works on, as it is shown.
pub fn tool_argument_hint(card: &ToolCard) -> (r: Option<String>)
    ensures
        model::opt_view(r) == hint(card@.args_json),
{
    match &card.args_json {
        Some(raw) => match json::parse(raw.as_str()) {
            Some(value) => hint_in(&value),
            None => None,
        },
        None => None,
    }
}

/// A hint is never empty, and it fits.
pub proof fn hints_say_something(value: JsonView)
    ensures
        hint_of(value) matches Some(shown) ==> 0 < shown.len() <= HINT_CHARS,
{
    match value {
        JsonView::Object(_) => first_hint_says_something(value, hint_keys()),
        JsonView::Text(found) => previews_fit(found, HINT_CHARS),
        _ => {},
    }
}

/// The first hint is never empty, and it fits.
proof fn first_hint_says_something(value: JsonView, keys: Seq<Seq<char>>)
    ensures
        first_hint(value, keys) matches Some(shown) ==> 0 < shown.len() <= HINT_CHARS,
    decreases keys.len(),
{
    if keys.len() > 0 {
        if let Some(found) = value.text_field(keys[0]) {
            previews_fit(found, HINT_CHARS);
        }
        first_hint_says_something(value, keys.skip(1));
    }
}

// ---------------------------------------------------------------------------
// The line
// ---------------------------------------------------------------------------

/// Whether a call is shown: not while it is only announced.
pub fn tool_row_visible(card: &ToolCard) -> (r: bool)
    ensures
        r == (card@.started || card@.done),
{
    card.started || card.done
}

/// How long a call took, as it is shown. `seconds` is the time in seconds with one
/// decimal, which is shown from a second on.
pub open spec fn duration(ms: u64, seconds: Seq<char>) -> Seq<char> {
    if ms < 1000 {
        text::decimal(ms as nat) + "ms"@
    } else {
        seconds + "s"@
    }
}

/// How long a call took, as it is shown.
pub fn format_duration(ms: u64, seconds: &str) -> (r: String)
    ensures
        r@ == duration(ms, seconds@),
{
    if ms < 1000 {
        let number = text::decimal_of(ms);
        text::join2(number.as_str(), "ms")
    } else {
        text::join2(seconds, "s")
    }
}

/// How a call went.
#[derive(Debug, Clone, Copy, PartialEq, Eq, Structural)]
pub enum ToolState {
    Running,
    Failed,
    Done,
}

/// How a call is shown.
#[derive(Debug)]
pub struct ToolRow {
    pub state: ToolState,
    /// Whether the line is shown as a problem.
    pub critical: bool,
    pub line: String,
    /// What is shown below the line.
    pub failure: Option<String>,
    pub key: String,
    pub automation_id: String,
}

/// The model of a `ToolRow`.
#[verifier::ext_equal]
pub struct ToolRowView {
    pub state: ToolState,
    pub critical: bool,
    pub line: Seq<char>,
    pub failure: Option<Seq<char>>,
    pub key: Seq<char>,
    pub automation_id: Seq<char>,
}

impl View for ToolRow {
    type V = ToolRowView;

    open spec fn view(&self) -> ToolRowView {
        ToolRowView {
            state: self.state,
            critical: self.critical,
            line: self.line@,
            failure: model::opt_view(self.failure),
            key: self.key@,
            automation_id: self.automation_id@,
        }
    }
}

/// How a call went.
pub open spec fn state_of(card: ToolCardView) -> ToolState {
    if !card.done {
        ToolState::Running
    } else if card.failed {
        ToolState::Failed
    } else {
        ToolState::Done
    }
}

/// What a call changed and how long it took, as it is shown behind the rest.
pub open spec fn stats(changes: Option<Seq<char>>, took: Option<Seq<char>>) -> Seq<char> {
    match (changes, took) {
        (Some(c), Some(t)) => "   "@ + c + "  "@ + t,
        (Some(c), None) => "   "@ + c,
        (None, Some(t)) => "   "@ + t,
        (None, None) => Seq::empty(),
    }
}

/// The line of a call that works on `target` and took `took`.
pub open spec fn line_of(
    card: ToolCardView,
    target: Option<Seq<char>>,
    took: Option<Seq<char>>,
) -> Seq<char> {
    action(card.name) + (match target {
        Some(shown) => " · "@ + shown,
        None => Seq::empty(),
    }) + stats(card.changes, took)
}

/// How a call that works on `target` is shown.
pub open spec fn row_with(
    turn_id: Seq<char>,
    block_order: u32,
    card: ToolCardView,
    target: Option<Seq<char>>,
    took: Option<Seq<char>>,
) -> ToolRowView {
    ToolRowView {
        state: state_of(card),
        critical: card.failed,
        line: line_of(card, target, took),
        failure: if card.failed {
            match card.failure {
                Some(reason) => Some("错误："@ + reason),
                None => None,
            }
        } else {
            None
        },
        key: turn_id + "-r"@ + text::decimal(block_order as nat) + "-tool-"@ + card.id,
        automation_id: "chat-tool-"@ + card.id,
    }
}

/// How a call that works on `target` is shown. `took` says how long it took.
pub fn row_for(
    turn_id: &str,
    block_order: u32,
    card: &ToolCard,
    target: Option<String>,
    took: Option<String>,
) -> (r: ToolRow)
    ensures
        r@ == row_with(turn_id@, block_order, card@, model::opt_view(target), model::opt_view(took)),
{
    let mut line = tool_action(card);
    let ghost start = line@;
    if let Some(shown) = &target {
        line.append(" · ");
        line.append(shown.as_str());
    }
    let ghost middle = line@;
    assert(middle =~= start + (match model::opt_view(target) {
        Some(shown) => " · "@ + shown,
        None => Seq::empty(),
    }));
    match (&card.changes, &took) {
        (Some(changes), Some(time)) => {
            line.append("   ");
            line.append(changes.as_str());
            line.append("  ");
            line.append(time.as_str());
        },
        (Some(changes), None) => {
            line.append("   ");
            line.append(changes.as_str());
        },
        (None, Some(time)) => {
            line.append("   ");
            line.append(time.as_str());
        },
        (None, None) => {},
    }
    assert(line@ =~= line_of(card@, model::opt_view(target), model::opt_view(took)));
    let state = if !card.done {
        ToolState::Running
    } else if card.failed {
        ToolState::Failed
    } else {
        ToolState::Done
    };
    let failure = if card.failed {
        match &card.failure {
            Some(reason) => Some(text::join2("错误：", reason.as_str())),
            None => None,
        }
    } else {
        None
    };
    let order = text::decimal_of(block_order as u64);
    let mut key = text::join3(turn_id, "-r", order.as_str());
    key.append("-tool-");
    key.append(card.id.as_str());
    let automation_id = text::join2("chat-tool-", card.id.as_str());
    ToolRow { state, critical: card.failed, line, failure, key, automation_id }
}

/// How a call is shown. `took` says how long it took.
pub fn tool_row(turn_id: &str, block_order: u32, card: &ToolCard, took: Option<String>) -> (r:
    ToolRow)
    ensures
        r@ == row_with(
            turn_id@,
            block_order,
            card@,
            hint(card@.args_json),
            model::opt_view(took),
        ),
{
    let target = tool_argument_hint(card);
    row_for(turn_id, block_order, card, target, took)
}

/// What a call says does not depend on how it goes: only the sign before it and
/// the tone do.
pub proof fn lines_keep_their_words(
    turn_id: Seq<char>,
    block_order: u32,
    card: ToolCardView,
    done: bool,
    failed: bool,
    target: Option<Seq<char>>,
    took: Option<Seq<char>>,
)
    ensures
        ({
            let before = row_with(turn_id, block_order, card, target, took);
            let after = row_with(
                turn_id,
                block_order,
                ToolCardView { done, failed, ..card },
                target,
                took,
            );
            before.line == after.line && before.key == after.key
        }),
{
}

/// A call runs until it is done, and has failed then exactly if it says so. A failed
/// one is shown as a problem, and why it failed is shown if that is known; of any
/// other no failure is shown.
pub proof fn rows_show_how_calls_went(
    turn_id: Seq<char>,
    block_order: u32,
    card: ToolCardView,
    target: Option<Seq<char>>,
    took: Option<Seq<char>>,
)
    ensures
        ({
            let row = row_with(turn_id, block_order, card, target, took);
            &&& row.state == ToolState::Running <==> !card.done
            &&& row.state == ToolState::Failed <==> card.done && card.failed
            &&& row.state == ToolState::Done <==> card.done && !card.failed
            &&& row.critical == card.failed
            &&& row.failure is Some <==> card.failed && card.failure is Some
            &&& row.automation_id == "chat-tool-"@ + card.id
        }),
        card.failure matches Some(reason) ==> (card.failed ==> row_with(
            turn_id,
            block_order,
            card,
            target,
            took,
        ).failure == Some("错误："@ + reason)),
{
}

/// A line says what is done, then to what if that is known, then what it changed and
/// how long it took, each if it is known.
pub proof fn lines_say_what_is_known(
    card: ToolCardView,
    target: Seq<char>,
    changes: Seq<char>,
    took: Seq<char>,
)
    ensures
        ({
            let plain = ToolCardView { changes: None, ..card };
            let changed = ToolCardView { changes: Some(changes), ..card };
            let does = action(card.name);
            &&& line_of(plain, None, None) == does
            &&& line_of(plain, Some(target), None) == does + " · "@ + target
            &&& line_of(plain, None, Some(took)) == does + ("   "@ + took)
            &&& line_of(changed, None, None) == does + ("   "@ + changes)
            &&& line_of(changed, None, Some(took)) == does + ("   "@ + changes + "  "@ + took)
            &&& line_of(changed, Some(target), Some(took)) == does + " · "@ + target + ("   "@
                + changes + "  "@ + took)
        }),
{
    let plain = ToolCardView { changes: None, ..card };
    let changed = ToolCardView { changes: Some(changes), ..card };
    let does = action(card.name);
    assert(line_of(plain, None, None) =~= does);
    assert(line_of(plain, Some(target), None) =~= does + " · "@ + target);
    assert(line_of(plain, None, Some(took)) =~= does + ("   "@ + took));
    assert(line_of(changed, None, None) =~= does + ("   "@ + changes));
    assert(line_of(changed, None, Some(took)) =~= does + ("   "@ + changes + "  "@ + took));
    assert(line_of(changed, Some(target), Some(took)) =~= does + " · "@ + target + ("   "@ + changes
        + "  "@ + took));
}

/// A time below a second is shown in milliseconds, any other in seconds.
pub proof fn times_are_shown_in_their_unit(ms: u64, seconds: Seq<char>)
    ensures
        ms < 1000 ==> duration(ms, seconds) == text::decimal(ms as nat) + "ms"@,
        ms >= 1000 ==> duration(ms, seconds) == seconds + "s"@,
{
}

/// A text that fits is shown whole, on one line; one that does not is cut, its last
/// character gives way to a mark, and what is left is its beginning.
pub proof fn previews_are_beginnings(value: Seq<char>, max: usize)
    requires
        max > 0,
    ensures
        ({
            let line = text::squeezed(value);
            let shown = preview(value, max);
            &&& line.len() <= max ==> shown == line
            &&& line.len() > max ==> shown.len() == max && shown.last() == '…' && shown.drop_last()
                == line.take(max - 1)
        }),
{
    let line = text::squeezed(value);
    if line.len() > max {
        assert(preview(value, max).drop_last() =~= line.take(max - 1));
    }
}

/// Of the arguments of a call, a path that says something is shown before all others;
/// arguments that are neither an object nor a text show nothing.
pub proof fn paths_are_shown_first(value: JsonView, path: Seq<char>)
    ensures
        value.field("path"@) == Some(JsonView::Text(path)) && !text::blank(path) ==> hint_of(value)
            == Some(preview(path, HINT_CHARS)),
        !(value is Object) && !(value is Text) ==> hint_of(value) is None,
        value == JsonView::Text(path) && !text::blank(path) ==> hint_of(value) == Some(
            preview(path, HINT_CHARS),
        ),
        value == JsonView::Text(path) && text::blank(path) ==> hint_of(value) is None,
        hint(None) is None,
{
    previews_fit(path, HINT_CHARS);
    assert(hint_keys()[0] == "path"@);
}

/// The tools of one sort are shown as doing one thing, under any of their names and
/// whatever they belong to. A tool of no known sort is shown by its own name.
pub proof fn tools_are_shown_by_their_sort(full: Seq<char>)
    ensures
        ({
            let does = action(Some(full));
            let name = text::lowered(short_name(full));
            let runs = name == "exec"@ || name == "exec_command"@ || name == "shell"@ || name
                == "shell_command"@;
            let reads = name == "read"@ || name == "read_file"@;
            let writes = name == "write"@ || name == "write_file"@;
            let edits = name == "apply_patch"@ || name == "edit"@ || name == "edit_file"@;
            let searches = name == "grep"@ || name == "rg"@ || name == "search_files"@ || name
                == "search_text"@;
            let asks = name == "web_search"@ || name == "search_query"@;
            let looks = name == "view_image"@ || name == "open_image"@ || name == "read_image"@;
            let lists = name == "list_files"@ || name == "list_directory"@;
            &&& runs ==> does == "运行命令"@
            &&& reads ==> does == "读取文件"@
            &&& writes ==> does == "写入文件"@
            &&& edits ==> does == "修改文件"@
            &&& searches ==> does == "搜索内容"@
            &&& asks ==> does == "搜索网页"@
            &&& looks ==> does == "查看图片"@
            &&& lists ==> does == "列出文件"@
            &&& !runs && !reads && !writes && !edits && !searches && !asks && !looks && !lists
                ==> does == "调用 "@ + short_name(full)
        }),
        action(None) == "解析工具调用"@,
{
    reveal_strlit("exec");
    reveal_strlit("exec_command");
    reveal_strlit("shell");
    reveal_strlit("shell_command");
    reveal_strlit("read");
    reveal_strlit("read_file");
    reveal_strlit("write");
    reveal_strlit("write_file");
    reveal_strlit("apply_patch");
    reveal_strlit("edit");
    reveal_strlit("edit_file");
    reveal_strlit("grep");
    reveal_strlit("rg");
    reveal_strlit("search_files");
    reveal_strlit("search_text");
    reveal_strlit("web_search");
    reveal_strlit("search_query");
    reveal_strlit("view_image");
    reveal_strlit("open_image");
    reveal_strlit("read_image");
    reveal_strlit("list_files");
    reveal_strlit("list_directory");
    assert("exec"@.len() == 4 && "exec"@[0] == 'e' && "exec"@[1] == 'x');
    assert("exec_command"@.len() == 12 && "exec_command"@[0] == 'e' && "exec_command"@[1] == 'x');
    assert("shell"@.len() == 5 && "shell"@[0] == 's' && "shell"@[1] == 'h');
    assert("shell_command"@.len() == 13 && "shell_command"@[0] == 's' && "shell_command"@[1] == 'h');
    assert("read"@.len() == 4 && "read"@[0] == 'r' && "read"@[1] == 'e');
    assert("read_file"@.len() == 9 && "read_file"@[0] == 'r' && "read_file"@[1] == 'e');
    assert("write"@.len() == 5 && "write"@[0] == 'w' && "write"@[1] == 'r');
    assert("write_file"@.len() == 10 && "write_file"@[0] == 'w' && "write_file"@[1] == 'r');
    assert("apply_patch"@.len() == 11 && "apply_patch"@[0] == 'a' && "apply_patch"@[1] == 'p');
    assert("edit"@.len() == 4 && "edit"@[0] == 'e' && "edit"@[1] == 'd');
    assert("edit_file"@.len() == 9 && "edit_file"@[0] == 'e' && "edit_file"@[1] == 'd');
    assert("grep"@.len() == 4 && "grep"@[0] == 'g' && "grep"@[1] == 'r');
    assert("rg"@.len() == 2 && "rg"@[0] == 'r' && "rg"@[1] == 'g');
    assert("search_files"@.len() == 12 && "search_files"@[0] == 's' && "search_files"@[1] == 'e' && "search_files"@[7] == 'f');
    assert("search_text"@.len() == 11 && "search_text"@[0] == 's' && "search_text"@[1] == 'e');
    assert("web_search"@.len() == 10 && "web_search"@[0] == 'w' && "web_search"@[1] == 'e');
    assert("search_query"@.len() == 12 && "search_query"@[0] == 's' && "search_query"@[1] == 'e' && "search_query"@[7] == 'q');
    assert("view_image"@.len() == 10 && "view_image"@[0] == 'v' && "view_image"@[1] == 'i');
    assert("open_image"@.len() == 10 && "open_image"@[0] == 'o' && "open_image"@[1] == 'p');
    assert("read_image"@.len() == 10 && "read_image"@[0] == 'r' && "read_image"@[1] == 'e');
    assert("list_files"@.len() == 10 && "list_files"@[0] == 'l' && "list_files"@[1] == 'i');
    assert("list_directory"@.len() == 14 && "list_directory"@[0] == 'l' && "list_directory"@[1] == 'i');
}

/// Of several arguments the most telling one is shown: of the path, the file, the
/// command, the query, the pattern, the address and the name, the first that says
/// something.
pub proof fn most_telling_argument_is_shown(value: JsonView, found: Seq<char>)
    requires
        value is Object,
        !text::blank(found),
    ensures
        ({
            let says = |key: Seq<char>| value.field(key) == Some(JsonView::Text(found));
            let silent = |key: Seq<char>| value.field(key) is None;
            let shown = Some(preview(found, HINT_CHARS));
            &&& says("path"@) ==> hint_of(value) == shown
            &&& silent("path"@) && says("file"@) ==> hint_of(value) == shown
            &&& silent("path"@) && silent("file"@) && says("command"@) ==> hint_of(value) == shown
            &&& silent("path"@) && silent("file"@) && silent("command"@) && says("query"@)
                ==> hint_of(value) == shown
            &&& silent("path"@) && silent("file"@) && silent("command"@) && silent("query"@)
                && silent("q"@) && says("pattern"@) ==> hint_of(value) == shown
            &&& silent("path"@) && silent("file"@) && silent("command"@) && silent("query"@)
                && silent("q"@) && silent("pattern"@) && says("url"@) ==> hint_of(value) == shown
            &&& silent("path"@) && silent("file"@) && silent("command"@) && silent("query"@)
                && silent("q"@) && silent("pattern"@) && silent("url"@) && says("name"@) ==> hint_of(
                value,
            ) == shown
        }),
{
    previews_fit(found, HINT_CHARS);
    let k0 = hint_keys();
    let k1 = k0.skip(1);
    let k2 = k1.skip(1);
    let k3 = k2.skip(1);
    let k4 = k3.skip(1);
    let k5 = k4.skip(1);
    let k6 = k5.skip(1);
    let k7 = k6.skip(1);
    assert(k0[0] == "path"@);
    assert(k1[0] == "file"@);
    assert(k2[0] == "command"@);
    assert(k3[0] == "query"@);
    assert(k4[0] == "q"@);
    assert(k5[0] == "pattern"@);
    assert(k6[0] == "url"@);
    assert(k7[0] == "name"@);
    reveal_with_fuel(first_hint, 9);
}

} // verus!
