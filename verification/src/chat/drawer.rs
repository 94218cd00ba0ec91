//! The panel that shows the changed files: a list of them, and the changes of the
//! one that is selected.

use vstd::prelude::*;

use crate::chat::diff;
use crate::chat::diff::{DrawerFile, DrawerFileView};
use crate::model;
use crate::text;

verus! {

/// The state of the panel and of the colours around it.
#[derive(Debug, Clone, Copy, PartialEq, Eq, Structural)]
pub struct DrawerState {
    pub open: bool,
    /// Which file is selected.
    pub selected: usize,
    pub dark: bool,
}

/// What can happen to the panel.
#[derive(Debug, Clone, Copy, PartialEq, Eq, Structural)]
pub enum DrawerEvent {
    /// The summary of a turn was tapped.
    Opened,
    /// The panel was closed with its button or with Escape.
    Closed,
    /// What lies behind the panel was tapped.
    ScrimTapped,
    /// A file of the list was tapped.
    Selected { index: usize },
    /// Other colours were asked for.
    ThemeToggled,
}

/// The state after an event.
pub open spec fn after_event(state: DrawerState, event: DrawerEvent) -> DrawerState {
    match event {
        DrawerEvent::Opened => DrawerState { open: true, selected: 0, ..state },
        DrawerEvent::Closed => DrawerState { open: false, ..state },
        DrawerEvent::ScrimTapped => state,
        DrawerEvent::Selected { index } => DrawerState { selected: index, ..state },
        DrawerEvent::ThemeToggled => DrawerState { dark: !state.dark, ..state },
    }
}

impl DrawerState {
    /// The state at the start: closed, in light colours.
    pub fn new() -> (r: DrawerState)
        ensures
            r == (DrawerState { open: false, selected: 0, dark: false }),
    {
        DrawerState { open: false, selected: 0, dark: false }
    }

    /// Takes over an event.
    pub fn handle(&mut self, event: DrawerEvent)
        ensures
            *final(self) == after_event(*old(self), event),
    {
        match event {
            DrawerEvent::Opened => {
                self.selected = 0;
                self.open = true;
            },
            DrawerEvent::Closed => {
                self.open = false;
            },
            DrawerEvent::ScrimTapped => {},
            DrawerEvent::Selected { index } => {
                self.selected = index;
            },
            DrawerEvent::ThemeToggled => {
                self.dark = !self.dark;
            },
        }
    }
}

/// A file of the list as it is shown.
#[derive(Debug)]
pub struct FileRow {
    pub marker: String,
    /// Whether a call that changed the file failed.
    pub critical: bool,
    pub path: String,
    pub counts: String,
    pub selected: bool,
}

/// The model of a `FileRow`.
#[verifier::ext_equal]
pub struct FileRowView {
    pub marker: Seq<char>,
    pub critical: bool,
    pub path: Seq<char>,
    pub counts: Seq<char>,
    pub selected: bool,
}

impl View for FileRow {
    type V = FileRowView;

    open spec fn view(&self) -> FileRowView {
        FileRowView {
            marker: self.marker@,
            critical: self.critical,
            path: self.path@,
            counts: self.counts@,
            selected: self.selected,
        }
    }
}

/// How a file of the list is shown.
pub open spec fn file_row<T>(file: DrawerFileView<T>, selected: bool) -> FileRowView {
    FileRowView {
        marker: if file.failed {
            "✕"@
        } else {
            "✓"@
        },
        critical: file.failed,
        path: file.path,
        counts: "+"@ + text::decimal(file.added) + " −"@ + text::decimal(file.removed),
        selected,
    }
}

/// How the list is shown.
pub open spec fn file_rows<T>(files: Seq<DrawerFileView<T>>, selected: usize) -> Seq<FileRowView> {
    Seq::new(files.len(), |i: int| file_row(files[i], i == selected))
}

/// What is shown beside the list.
#[derive(Debug)]
pub enum DiffPanel {
    /// The changes of the file `index`.
    File { index: usize, key: String },
    /// There is nothing to show.
    Nothing { label: String },
}

/// The panel as it is shown.
#[derive(Debug)]
pub struct Drawer {
    pub title: String,
    pub rows: Vec<FileRow>,
    pub panel: DiffPanel,
    pub footer: String,
}

/// The title of the panel.
pub open spec fn title<T>(files: Seq<DrawerFileView<T>>) -> Seq<char> {
    text::decimal(files.len()) + " 个文件  +"@ + text::decimal(diff::total_added(files)) + "  −"@
        + text::decimal(diff::total_removed(files))
}

/// What stands at the end of the panel.
pub open spec fn footer<T>(files: Seq<DrawerFileView<T>>) -> Seq<char> {
    "合计  +"@ + text::decimal(diff::total_added(files)) + "  −"@ + text::decimal(
        diff::total_removed(files),
    )
}

/// `file_row`, executable.
fn row<T>(file: &DrawerFile<T>, selected: bool) -> (r: FileRow)
    ensures
        r@ == file_row(file@, selected),
{
    let marker = if file.failed {
        "✕"
    } else {
        "✓"
    };
    let mut counts = text::join2("+", text::decimal_of(file.added as u64).as_str());
    counts.append(" −");
    counts.append(text::decimal_of(file.removed as u64).as_str());
    FileRow {
        marker: marker.to_owned(),
        critical: file.failed,
        path: file.path.clone(),
        counts,
        selected,
    }
}

/// How the panel is shown. `has_rows` says of each file whether there are lines
/// to show of it; `name` begins the keys.
pub fn render<T>(files: &Vec<DrawerFile<T>>, selected: usize, has_rows: &Vec<bool>, name: &str) -> (r:
    Drawer)
    requires
        diff::total_added(model::views(files@)) <= usize::MAX,
        diff::total_removed(model::views(files@)) <= usize::MAX,
        has_rows@.len() == files@.len(),
    ensures
        r.title@ == title(model::views(files@)),
        model::views(r.rows@) == file_rows(model::views(files@), selected),
        r.footer@ == footer(model::views(files@)),
        r.panel is File <==> selected < files@.len() && has_rows@[selected as int],
        r.panel matches DiffPanel::File { index, key } ==> index == selected && key@ == name@
            + "-diff-"@ + text::decimal(selected as nat),
        r.panel matches DiffPanel::Nothing { label } ==> label@ == "无 diff 数据"@,
{
    let ghost all = model::views(files@);
    let (added, removed, _): (usize, usize, usize) = diff::totals(files);
    let mut title = text::join2(text::decimal_of(files.len() as u64).as_str(), " 个文件  +");
    title.append(text::decimal_of(added as u64).as_str());
    title.append("  −");
    title.append(text::decimal_of(removed as u64).as_str());
    let mut footer = text::join2("合计  +", text::decimal_of(added as u64).as_str());
    footer.append("  −");
    footer.append(text::decimal_of(removed as u64).as_str());
    let ghost plan = file_rows(all, selected);
    let mut rows: Vec<FileRow> = Vec::new();
    let mut i: usize = 0;
    assert(model::views(rows@) =~= plan.take(0));
    while i < files.len()
        invariant
            i <= files@.len(),
            all == model::views(files@),
            plan == file_rows(all, selected),
            model::views(rows@) == plan.take(i as int),
        decreases files@.len() - i,
    {
        let ghost before = model::views(rows@);
        let next = row(&files[i], i == selected);
        assert(all[i as int] == files@[i as int]@);
        rows.push(next);
        assert(model::views(rows@) =~= before.push(next@));
        assert(plan.take(i + 1) =~= plan.take(i as int).push(plan[i as int]));
        i = i + 1;
    }
    assert(plan.take(i as int) =~= plan);
    let panel = if selected < files.len() && has_rows[selected] {
        let key = text::join3(name, "-diff-", text::decimal_of(selected as u64).as_str());
        DiffPanel::File { index: selected, key }
    } else {
        DiffPanel::Nothing { label: "无 diff 数据".to_owned() }
    };
    Drawer { title, rows, panel, footer }
}

/// Whatever happens, the panel opens on the first file, and goes only when it is
/// closed.
pub proof fn the_panel_stays_until_closed(state: DrawerState, event: DrawerEvent)
    ensures
        event == DrawerEvent::Opened ==> after_event(state, event).open && after_event(
            state,
            event,
        ).selected == 0,
        state.open && !after_event(state, event).open ==> event == DrawerEvent::Closed,
{
}

/// At most one file of the list is shown as selected, and exactly one if the
/// selection is one of the list.
pub proof fn one_file_is_selected<T>(files: Seq<DrawerFileView<T>>, selected: usize)
    ensures
        forall|i: int|
            0 <= i < files.len() ==> ((#[trigger] file_rows(files, selected)[i]).selected <==> i
                == selected),
{
}

/// Each event does what it says to the panel and nothing else.
pub proof fn events_change_what_they_name(state: DrawerState, index: usize)
    ensures
        ({
            let opened = after_event(state, DrawerEvent::Opened);
            let closed = after_event(state, DrawerEvent::Closed);
            let chosen = after_event(state, DrawerEvent::Selected { index });
            let other = after_event(state, DrawerEvent::ThemeToggled);
            &&& opened.dark == state.dark
            &&& !closed.open && closed.selected == state.selected && closed.dark == state.dark
            &&& after_event(state, DrawerEvent::ScrimTapped) == state
            &&& chosen.selected == index && chosen.open == state.open && chosen.dark == state.dark
            &&& other.dark != state.dark && other.open == state.open && other.selected
                == state.selected
        }),
{
}

/// Every file has a row of its own, with its path, and is marked as a problem exactly
/// if one of its changes failed.
pub proof fn rows_show_their_files<T>(files: Seq<DrawerFileView<T>>, selected: usize, i: int)
    requires
        0 <= i < files.len(),
    ensures
        ({
            let row = file_rows(files, selected)[i];
            &&& file_rows(files, selected).len() == files.len()
            &&& row.path == files[i].path
            &&& row.critical == files[i].failed
            &&& row.marker == "✕"@ <==> files[i].failed
            &&& row.counts == "+"@ + text::decimal(files[i].added) + " −"@ + text::decimal(
                files[i].removed,
            )
        }),
{
    reveal_strlit("✕");
    reveal_strlit("✓");
    assert("✕"@[0] == '✕');
    assert("✓"@[0] == '✓');
}

} // verus!
