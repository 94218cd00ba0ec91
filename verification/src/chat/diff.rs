//! The files that a turn changed, gathered from its calls.

use vstd::prelude::*;

use crate::model;
use crate::text;

verus! {

/// One change of a file. What it looks like is up to the caller.
#[derive(Debug)]
pub struct Segment<T> {
    pub added: usize,
    pub removed: usize,
    pub content: T,
}

/// A change of the file at `path`.
#[derive(Debug)]
pub struct FileChange<T> {
    pub path: String,
    pub segment: Segment<T>,
}

/// The changes that one call made.
#[derive(Debug)]
pub struct ToolChanges<T> {
    /// Whether the call failed.
    pub failed: bool,
    pub files: Vec<FileChange<T>>,
}

/// A file with all its changes. Each change counts its lines for itself.
#[derive(Debug)]
pub struct DrawerFile<T> {
    pub path: String,
    /// Whether one of the calls that changed it failed.
    pub failed: bool,
    pub added: usize,
    pub removed: usize,
    pub segments: Vec<Segment<T>>,
}

/// The model of a `DrawerFile`.
#[verifier::ext_equal]
pub struct DrawerFileView<T> {
    pub path: Seq<char>,
    pub failed: bool,
    pub added: nat,
    pub removed: nat,
    pub segments: Seq<Segment<T>>,
}

impl<T> View for DrawerFile<T> {
    type V = DrawerFileView<T>;

    open spec fn view(&self) -> DrawerFileView<T> {
        DrawerFileView {
            path: self.path@,
            failed: self.failed,
            added: self.added as nat,
            removed: self.removed as nat,
            segments: self.segments@,
        }
    }
}

/// One change, with the file it belongs to and whether its call failed.
#[verifier::ext_equal]
pub struct Edit<T> {
    pub path: Seq<char>,
    pub failed: bool,
    pub segment: Segment<T>,
}

/// The changes of one call, in order.
pub open spec fn edits_of_call<T>(failed: bool, files: Seq<FileChange<T>>) -> Seq<Edit<T>> {
    Seq::new(
        files.len(),
        |i: int| Edit { path: files[i].path@, failed, segment: files[i].segment },
    )
}

/// The changes of all calls, in order.
pub open spec fn edits<T>(calls: Seq<ToolChanges<T>>) -> Seq<Edit<T>>
    decreases calls.len(),
{
    if calls.len() == 0 {
        Seq::empty()
    } else {
        edits_of_call(calls[0].failed, calls[0].files@) + edits(calls.skip(1))
    }
}

/// How many lines the changes add.
pub open spec fn lines_added<T>(list: Seq<Edit<T>>) -> nat
    decreases list.len(),
{
    if list.len() == 0 {
        0
    } else {
        lines_added(list.drop_last()) + list.last().segment.added as nat
    }
}

/// How many lines the changes remove.
pub open spec fn lines_removed<T>(list: Seq<Edit<T>>) -> nat
    decreases list.len(),
{
    if list.len() == 0 {
        0
    } else {
        lines_removed(list.drop_last()) + list.last().segment.removed as nat
    }
}

/// The changed files, in the order in which they were changed first.
pub open spec fn changed_paths<T>(list: Seq<Edit<T>>) -> Seq<Seq<char>>
    decreases list.len(),
{
    if list.len() == 0 {
        Seq::empty()
    } else {
        let before = changed_paths(list.drop_last());
        if before.contains(list.last().path) {
            before
        } else {
            before.push(list.last().path)
        }
    }
}

/// The changes of one file, in order.
pub open spec fn edits_of<T>(list: Seq<Edit<T>>, path: Seq<char>) -> Seq<Edit<T>> {
    list.filter(|edit: Edit<T>| edit.path == path)
}

/// Whether one of the changes comes from a call that failed.
pub open spec fn any_failed<T>(list: Seq<Edit<T>>) -> bool {
    exists|i: int| 0 <= i < list.len() && (#[trigger] list[i]).failed
}

/// The changes themselves.
pub open spec fn segments<T>(list: Seq<Edit<T>>) -> Seq<Segment<T>> {
    Seq::new(list.len(), |i: int| list[i].segment)
}

/// A file with all its changes.
pub open spec fn file_with<T>(path: Seq<char>, own: Seq<Edit<T>>) -> DrawerFileView<T> {
    DrawerFileView {
        path,
        failed: any_failed(own),
        added: lines_added(own),
        removed: lines_removed(own),
        segments: segments(own),
    }
}

/// The changed files with all their changes.
pub open spec fn drawer<T>(list: Seq<Edit<T>>) -> Seq<DrawerFileView<T>> {
    let paths = changed_paths(list);
    Seq::new(paths.len(), |i: int| file_with(paths[i], edits_of(list, paths[i])))
}

/// How many lines the files' changes add.
pub open spec fn total_added<T>(files: Seq<DrawerFileView<T>>) -> nat
    decreases files.len(),
{
    if files.len() == 0 {
        0
    } else {
        total_added(files.drop_last()) + files.last().added
    }
}

/// How many lines the files' changes remove.
pub open spec fn total_removed<T>(files: Seq<DrawerFileView<T>>) -> nat
    decreases files.len(),
{
    if files.len() == 0 {
        0
    } else {
        total_removed(files.drop_last()) + files.last().removed
    }
}

// ---------------------------------------------------------------------------
// One more change
// ---------------------------------------------------------------------------

/// A file with one more change.
pub open spec fn with_edit<T>(file: DrawerFileView<T>, edit: Edit<T>) -> DrawerFileView<T> {
    DrawerFileView {
        path: file.path,
        failed: file.failed || edit.failed,
        added: file.added + edit.segment.added as nat,
        removed: file.removed + edit.segment.removed as nat,
        segments: file.segments.push(edit.segment),
    }
}

/// A file's changes after one more change of any file.
proof fn edits_of_push<T>(list: Seq<Edit<T>>, edit: Edit<T>, path: Seq<char>)
    ensures
        edits_of(list.push(edit), path) == (if edit.path == path {
            edits_of(list, path).push(edit)
        } else {
            edits_of(list, path)
        }),
{
    reveal(Seq::filter);
    assert(list.push(edit).drop_last() =~= list);
}

/// A file after one more change of its own.
proof fn file_with_push<T>(path: Seq<char>, own: Seq<Edit<T>>, edit: Edit<T>)
    ensures
        file_with(path, own.push(edit)) == with_edit(file_with(path, own), edit),
{
    let longer = own.push(edit);
    assert(longer.drop_last() =~= own);
    assert(segments(longer) =~= segments(own).push(edit.segment));
    assert(any_failed(longer) == (any_failed(own) || edit.failed)) by {
        if any_failed(own) {
            let i = choose|i: int| 0 <= i < own.len() && (#[trigger] own[i]).failed;
            assert(longer[i].failed);
        }
        if edit.failed {
            assert(longer[own.len() as int].failed);
        }
        if any_failed(longer) {
            let i = choose|i: int| 0 <= i < longer.len() && (#[trigger] longer[i]).failed;
            if i < own.len() {
                assert(own[i].failed);
            }
        }
    }
}

/// The changed files are different, and they are those that a change names.
proof fn paths_are_those_named<T>(list: Seq<Edit<T>>)
    ensures
        forall|i: int, j: int|
            0 <= i < j < changed_paths(list).len() ==> changed_paths(list)[i] != changed_paths(
                list,
            )[j],
        forall|i: int| 0 <= i < list.len() ==> changed_paths(list).contains(#[trigger] list[i].path),
    decreases list.len(),
{
    if list.len() > 0 {
        let before = changed_paths(list.drop_last());
        let now = changed_paths(list);
        paths_are_those_named(list.drop_last());
        let last = list.last().path;
        assert(now.contains(last)) by {
            if !before.contains(last) {
                assert(now[before.len() as int] == last);
            }
        }
        assert forall|i: int| 0 <= i < list.len() implies now.contains(#[trigger] list[i].path) by {
            if i < list.len() - 1 {
                assert(list.drop_last()[i].path == list[i].path);
                assert(before.contains(list[i].path));
                let k = choose|k: int| 0 <= k < before.len() && before[k] == list[i].path;
                assert(now[k] == list[i].path);
            }
        }
        assert forall|i: int, j: int| 0 <= i < j < now.len() implies now[i] != now[j] by {
            if j == before.len() {
                assert(before[i] == now[i]);
                assert(before.contains(before[i]));
            }
        }
    }
}

/// A file that no change names has no changes.
proof fn unnamed_files_have_no_edits<T>(list: Seq<Edit<T>>, path: Seq<char>)
    requires
        !changed_paths(list).contains(path),
    ensures
        edits_of(list, path) == Seq::<Edit<T>>::empty(),
    decreases list.len(),
{
    reveal(Seq::filter);
    if list.len() > 0 {
        let front = list.drop_last();
        paths_are_those_named(list);
        assert(list[list.len() - 1] == list.last());
        assert(changed_paths(list).contains(list.last().path));
        assert(!changed_paths(front).contains(path)) by {
            if changed_paths(front).contains(path) {
                let k = choose|k: int|
                    0 <= k < changed_paths(front).len() && changed_paths(front)[k] == path;
                assert(changed_paths(list)[k] == path);
            }
        }
        unnamed_files_have_no_edits(front, path);
        assert(front.push(list.last()) =~= list);
        edits_of_push(front, list.last(), path);
    }
}

/// The files after one more change of a file that was changed before.
proof fn drawer_push_known<T>(list: Seq<Edit<T>>, edit: Edit<T>, at: int)
    requires
        0 <= at < changed_paths(list).len(),
        changed_paths(list)[at] == edit.path,
    ensures
        drawer(list.push(edit)) == drawer(list).update(at, with_edit(drawer(list)[at], edit)),
{
    let longer = list.push(edit);
    let paths = changed_paths(list);
    assert(longer.drop_last() =~= list);
    assert(paths.contains(edit.path));
    assert(changed_paths(longer) == paths);
    paths_are_those_named(list);
    assert forall|i: int| 0 <= i < paths.len() implies #[trigger] drawer(longer)[i] == drawer(
        list,
    ).update(at, with_edit(drawer(list)[at], edit))[i] by {
        edits_of_push(list, edit, paths[i]);
        if i == at {
            file_with_push(paths[i], edits_of(list, paths[i]), edit);
        } else {
            assert(paths[i] != paths[at]);
        }
    }
    assert(drawer(longer) =~= drawer(list).update(at, with_edit(drawer(list)[at], edit)));
}

/// The files after one more change of a file that was not changed before.
proof fn drawer_push_new<T>(list: Seq<Edit<T>>, edit: Edit<T>)
    requires
        !changed_paths(list).contains(edit.path),
    ensures
        drawer(list.push(edit)) == drawer(list).push(file_with(edit.path, seq![edit])),
{
    let longer = list.push(edit);
    let paths = changed_paths(list);
    assert(longer.drop_last() =~= list);
    assert(changed_paths(longer) == paths.push(edit.path));
    unnamed_files_have_no_edits(list, edit.path);
    edits_of_push(list, edit, edit.path);
    assert(Seq::<Edit<T>>::empty().push(edit) =~= seq![edit]);
    assert forall|i: int| 0 <= i < paths.len() implies #[trigger] drawer(longer)[i] == drawer(
        list,
    )[i] by {
        assert(paths.contains(paths[i]));
        edits_of_push(list, edit, paths[i]);
    }
    assert(drawer(longer) =~= drawer(list).push(file_with(edit.path, seq![edit])));
}

/// No file has more lines added or removed than all changes together.
proof fn parts_are_not_more<T>(list: Seq<Edit<T>>, path: Seq<char>)
    ensures
        lines_added(edits_of(list, path)) <= lines_added(list),
        lines_removed(edits_of(list, path)) <= lines_removed(list),
    decreases list.len(),
{
    reveal(Seq::filter);
    if list.len() > 0 {
        let front = list.drop_last();
        parts_are_not_more(front, path);
        assert(front.push(list.last()) =~= list);
        edits_of_push(front, list.last(), path);
        if list.last().path == path {
            assert(edits_of(front, path).push(list.last()).drop_last() =~= edits_of(front, path));
        }
    }
}

/// Later changes add to what earlier ones added and removed.
proof fn starts_are_not_more<T>(front: Seq<Edit<T>>, back: Seq<Edit<T>>)
    ensures
        lines_added(front) <= lines_added(front + back),
        lines_removed(front) <= lines_removed(front + back),
    decreases back.len(),
{
    if back.len() == 0 {
        assert(front + back =~= front);
    } else {
        assert((front + back).drop_last() =~= front + back.drop_last());
        starts_are_not_more(front, back.drop_last());
    }
}

// ---------------------------------------------------------------------------
// Laws
// ---------------------------------------------------------------------------

/// No file is listed twice, every change is listed, and a file is listed with all
/// of its changes in their order.
pub proof fn files_are_listed_once<T>(list: Seq<Edit<T>>)
    ensures
        forall|i: int, j: int|
            0 <= i < j < drawer(list).len() ==> drawer(list)[i].path != drawer(list)[j].path,
        forall|k: int|
            0 <= k < list.len() ==> exists|i: int|
                0 <= i < drawer(list).len() && (#[trigger] drawer(list)[i]).path == (
                #[trigger] list[k]).path,
        forall|i: int|
            0 <= i < drawer(list).len() ==> (#[trigger] drawer(list)[i]).segments == segments(
                edits_of(list, drawer(list)[i].path),
            ),
{
    paths_are_those_named(list);
    let paths = changed_paths(list);
    assert forall|k: int| 0 <= k < list.len() implies exists|i: int|
        0 <= i < drawer(list).len() && (#[trigger] drawer(list)[i]).path == (
        #[trigger] list[k]).path by {
        assert(paths.contains(list[k].path));
        let i = choose|i: int| 0 <= i < paths.len() && paths[i] == list[k].path;
        assert(drawer(list)[i].path == list[k].path);
    }
}

/// Gathering the changes by file changes neither how many lines are added nor how
/// many are removed.
pub proof fn gathering_keeps_the_totals<T>(list: Seq<Edit<T>>)
    ensures
        total_added(drawer(list)) == lines_added(list),
        total_removed(drawer(list)) == lines_removed(list),
    decreases list.len(),
{
    if list.len() == 0 {
        assert(drawer(list).len() == 0);
    } else {
        let front = list.drop_last();
        let edit = list.last();
        gathering_keeps_the_totals(front);
        assert(front.push(edit) =~= list);
        let files = drawer(front);
        if changed_paths(front).contains(edit.path) {
            let at = choose|at: int|
                0 <= at < changed_paths(front).len() && changed_paths(front)[at] == edit.path;
            drawer_push_known(front, edit, at);
            totals_of_update(files, at, with_edit(files[at], edit));
        } else {
            drawer_push_new(front, edit);
            let own = seq![edit];
            assert(own.drop_last().len() == 0);
            assert(lines_added(own.drop_last()) == 0);
            assert(lines_removed(own.drop_last()) == 0);
            assert(files.push(file_with(edit.path, own)).drop_last() =~= files);
        }
    }
}

/// The totals after one file was replaced.
proof fn totals_of_update<T>(files: Seq<DrawerFileView<T>>, at: int, file: DrawerFileView<T>)
    requires
        0 <= at < files.len(),
    ensures
        total_added(files.update(at, file)) == total_added(files) - files[at].added + file.added,
        total_removed(files.update(at, file)) == total_removed(files) - files[at].removed
            + file.removed,
    decreases files.len(),
{
    let now = files.update(at, file);
    if at == files.len() - 1 {
        assert(now.drop_last() =~= files.drop_last());
    } else {
        assert(now.drop_last() =~= files.drop_last().update(at, file));
        totals_of_update(files.drop_last(), at, file);
    }
}

// ---------------------------------------------------------------------------
// Gathering
// ---------------------------------------------------------------------------

/// Where the file at `path` stands among `files`.
fn find_file<T>(files: &Vec<DrawerFile<T>>, path: &str) -> (r: Option<usize>)
    ensures
        match r {
            Some(i) => i < files@.len() && files@[i as int]@.path == path@,
            None => forall|k: int| 0 <= k < files@.len() ==> (#[trigger] files@[k])@.path != path@,
        },
{
    let mut i: usize = 0;
    while i < files.len()
        invariant
            i <= files@.len(),
            forall|k: int| 0 <= k < i ==> (#[trigger] files@[k])@.path != path@,
        decreases files@.len() - i,
    {
        if text::same(files[i].path.as_str(), path) {
            return Some(i);
        }
        i = i + 1;
    }
    None
}

/// Adds one change to the files.
fn gather<T>(files: &mut Vec<DrawerFile<T>>, change: FileChange<T>, failed: bool, Ghost(done): Ghost<
    Seq<Edit<T>>,
>)
    requires
        model::views(old(files)@) == drawer(done),
        lines_added(done) + change.segment.added <= usize::MAX,
        lines_removed(done) + change.segment.removed <= usize::MAX,
    ensures
        model::views(final(files)@) == drawer(
            done.push(Edit { path: change.path@, failed, segment: change.segment }),
        ),
{
    let ghost before = model::views(files@);
    let ghost edit = Edit { path: change.path@, failed, segment: change.segment };
    let ghost paths = changed_paths(done);
    let FileChange { path, segment } = change;
    assert(before.len() == files@.len());
    assert(drawer(done).len() == paths.len());
    match find_file(files, path.as_str()) {
        Some(i) => {
            assert(before[i as int] == files@[i as int]@);
            assert(drawer(done)[i as int].path == paths[i as int]);
            proof {
                parts_are_not_more(done, path@);
                drawer_push_known(done, edit, i as int);
            }
            let mut file = files.remove(i);
            file.failed = file.failed || failed;
            file.added = file.added + segment.added;
            file.removed = file.removed + segment.removed;
            file.segments.push(segment);
            files.insert(i, file);
            assert(model::views(files@) =~= before.update(
                i as int,
                with_edit(before[i as int], edit),
            ));
        },
        None => {
            proof {
                assert(!paths.contains(path@)) by {
                    if paths.contains(path@) {
                        let k = choose|k: int| 0 <= k < paths.len() && paths[k] == path@;
                        assert(before[k] == files@[k]@);
                        assert(drawer(done)[k].path == path@);
                    }
                }
                drawer_push_new(done, edit);
                let own = seq![edit];
                assert(own.drop_last().len() == 0);
                assert(lines_added(own.drop_last()) == 0);
                assert(lines_removed(own.drop_last()) == 0);
                assert(segments(own) =~= seq![segment]);
                assert(any_failed(own) == failed) by {
                    assert(own[0] == edit);
                }
            }
            let added: usize = segment.added;
            let removed: usize = segment.removed;
            let mut own: Vec<Segment<T>> = Vec::new();
            own.push(segment);
            assert(own@ =~= seq![segment]);
            files.push(DrawerFile { path, failed, added, removed, segments: own });
            assert(model::views(files@) =~= before.push(file_with(edit.path, seq![edit])));
        },
    }
}

/// The files that a turn's calls changed, with all their changes; none if they
/// changed nothing.
pub fn collect_diff_drawer<T>(calls: Vec<ToolChanges<T>>) -> (r: Option<Vec<DrawerFile<T>>>)
    requires
        lines_added(edits(calls@)) <= usize::MAX,
        lines_removed(edits(calls@)) <= usize::MAX,
    ensures
        r is Some <==> edits(calls@).len() > 0,
        r matches Some(files) ==> model::views(files@) == drawer(edits(calls@)),
{
    let ghost all = edits(calls@);
    let ghost mut done = Seq::<Edit<T>>::empty();
    let mut rest = calls;
    let mut files: Vec<DrawerFile<T>> = Vec::new();
    assert(model::views(files@) =~= drawer(done));
    assert(done + edits(rest@) =~= all);
    while rest.len() > 0
        invariant
            all == done + edits(rest@),
            model::views(files@) == drawer(done),
            lines_added(all) <= usize::MAX,
            lines_removed(all) <= usize::MAX,
        decreases rest@.len(),
    {
        let ghost before = rest@;
        let call = rest.remove(0);
        assert(rest@ =~= before.skip(1));
        let failed = call.failed;
        let mut changes = call.files;
        assert(all =~= done + (edits_of_call(failed, changes@) + edits(rest@)));
        while changes.len() > 0
            invariant
                all == done + (edits_of_call(failed, changes@) + edits(rest@)),
                model::views(files@) == drawer(done),
                lines_added(all) <= usize::MAX,
                lines_removed(all) <= usize::MAX,
            decreases changes@.len(),
        {
            let ghost waiting = changes@;
            let change = changes.remove(0);
            let ghost edit = Edit { path: change.path@, failed, segment: change.segment };
            proof {
                let behind = edits_of_call(failed, changes@) + edits(rest@);
                assert(edits_of_call(failed, waiting) =~= seq![edit] + edits_of_call(
                    failed,
                    changes@,
                ));
                assert(all =~= done.push(edit) + behind);
                starts_are_not_more(done.push(edit), behind);
                assert(done.push(edit).drop_last() =~= done);
            }
            gather(&mut files, change, failed, Ghost(done));
            proof {
                done = done.push(edit);
            }
        }
        assert(all =~= done + edits(rest@));
    }
    assert(all =~= done);
    proof {
        paths_are_those_named(all);
        if all.len() > 0 {
            assert(changed_paths(all).contains(all[0].path));
        }
        if all.len() == 0 {
            assert(drawer(all).len() == 0);
        }
        assert(files@.len() == model::views(files@).len());
    }
    if files.len() == 0 {
        None
    } else {
        Some(files)
    }
}

// ---------------------------------------------------------------------------
// The summary
// ---------------------------------------------------------------------------

/// How many files had a call that failed.
pub open spec fn failures<T>(files: Seq<DrawerFileView<T>>) -> nat
    decreases files.len(),
{
    if files.len() == 0 {
        0
    } else {
        failures(files.drop_last()) + if files.last().failed {
            1nat
        } else {
            0
        }
    }
}

/// What is shown below a turn that changed files.
pub open spec fn summary<T>(files: Seq<DrawerFileView<T>>) -> Seq<char> {
    let all = "已修改 "@ + text::decimal(files.len()) + " 个文件（+"@ + text::decimal(
        total_added(files),
    ) + " −"@ + text::decimal(total_removed(files)) + "）"@;
    if failures(files) > 0 {
        all + "· "@ + text::decimal(failures(files)) + " 个异常"@
    } else {
        all
    }
}

/// How many lines a list of files adds and removes, and how many of the files had
/// a call that failed.
pub fn totals<T>(files: &Vec<DrawerFile<T>>) -> (r: (usize, usize, usize))
    requires
        total_added(model::views(files@)) <= usize::MAX,
        total_removed(model::views(files@)) <= usize::MAX,
    ensures
        r.0 == total_added(model::views(files@)),
        r.1 == total_removed(model::views(files@)),
        r.2 == failures(model::views(files@)),
        r.2 <= files@.len(),
{
    let ghost all = model::views(files@);
    let mut added: usize = 0;
    let mut removed: usize = 0;
    let mut failed: usize = 0;
    let mut i: usize = 0;
    while i < files.len()
        invariant
            i <= files@.len(),
            all == model::views(files@),
            total_added(all) <= usize::MAX,
            total_removed(all) <= usize::MAX,
            added == total_added(all.take(i as int)),
            removed == total_removed(all.take(i as int)),
            failed == failures(all.take(i as int)),
            failed <= i,
        decreases files@.len() - i,
    {
        proof {
            assert(all.take(i + 1).drop_last() =~= all.take(i as int));
            assert(all.take(i + 1).last() == files@[i as int]@);
            totals_of_start(all, i + 1);
        }
        added = added + files[i].added;
        removed = removed + files[i].removed;
        if files[i].failed {
            failed = failed + 1;
        }
        i = i + 1;
    }
    assert(all.take(i as int) =~= all);
    (added, removed, failed)
}

/// The first files do not add or remove more than all of them.
proof fn totals_of_start<T>(files: Seq<DrawerFileView<T>>, n: int)
    requires
        0 <= n <= files.len(),
    ensures
        total_added(files.take(n)) <= total_added(files),
        total_removed(files.take(n)) <= total_removed(files),
    decreases files.len(),
{
    if n == files.len() {
        assert(files.take(n) =~= files);
    } else {
        assert(files.drop_last().take(n) =~= files.take(n));
        totals_of_start(files.drop_last(), n);
    }
}

/// What is shown below a turn that changed files.
pub fn diff_summary<T>(files: &Vec<DrawerFile<T>>) -> (r: String)
    requires
        total_added(model::views(files@)) <= usize::MAX,
        total_removed(model::views(files@)) <= usize::MAX,
    ensures
        r@ == summary(model::views(files@)),
{
    let (added, removed, failed): (usize, usize, usize) = totals(files);
    let count = text::decimal_of(files.len() as u64);
    let added = text::decimal_of(added as u64);
    let removed = text::decimal_of(removed as u64);
    let mut out = text::join3("已修改 ", count.as_str(), " 个文件（+");
    out.append(added.as_str());
    out.append(" −");
    out.append(removed.as_str());
    out.append("）");
    if failed > 0 {
        let failed = text::decimal_of(failed as u64);
        out.append("· ");
        out.append(failed.as_str());
        out.append(" 个异常");
    }
    out
}

/// A file is marked as a problem exactly if a call that failed changed it.
pub proof fn files_fail_with_their_changes<T>(list: Seq<Edit<T>>, i: int)
    requires
        0 <= i < drawer(list).len(),
    ensures
        drawer(list)[i].failed <==> exists|k: int|
            0 <= k < list.len() && (#[trigger] list[k]).path == drawer(list)[i].path
                && list[k].failed,
{
    broadcast use vstd::seq_lib::group_filter_ensures;

    let path = drawer(list)[i].path;
    let pick = |edit: Edit<T>| edit.path == path;
    let own = edits_of(list, path);
    if any_failed(own) {
        let k = choose|k: int| 0 <= k < own.len() && (#[trigger] own[k]).failed;
        assert(own.contains(own[k]));
        assert(pick(own[k]));
        list.lemma_filter_contains_rev(pick, own[k]);
        let j = choose|j: int| 0 <= j < list.len() && list[j] == own[k];
        assert(list[j].path == path && list[j].failed);
    }
    if exists|k: int| 0 <= k < list.len() && (#[trigger] list[k]).path == path && list[k].failed {
        let k = choose|k: int|
            0 <= k < list.len() && (#[trigger] list[k]).path == path && list[k].failed;
        assert(pick(list[k]));
        assert(own.contains(list[k]));
        let j = choose|j: int| 0 <= j < own.len() && own[j] == list[k];
        assert(own[j].failed);
    }
}

/// The changes of the calls are those of their files: each file of each call is one,
/// failed exactly if its call did, and there is no other.
pub proof fn every_file_of_a_call_is_a_change<T>(calls: Seq<ToolChanges<T>>, edit: Edit<T>)
    ensures
        edits(calls).contains(edit) <==> exists|c: int, f: int|
            0 <= c < calls.len() && 0 <= f < calls[c].files@.len() && calls[c].failed == edit.failed
                && (#[trigger] calls[c].files@[f]).path@ == edit.path && calls[c].files@[f].segment
                == edit.segment,
    decreases calls.len(),
{
    if calls.len() > 0 {
        let first = edits_of_call(calls[0].failed, calls[0].files@);
        let rest = calls.skip(1);
        let all = edits(calls);
        every_file_of_a_call_is_a_change(rest, edit);
        if all.contains(edit) {
            let k = choose|k: int| 0 <= k < all.len() && all[k] == edit;
            if k < first.len() {
                assert(first[k] == edit);
                assert(calls[0].files@[k].path@ == edit.path);
            } else {
                assert(edits(rest)[k - first.len()] == edit);
                assert(edits(rest).contains(edit));
                let (c, f) = choose|c: int, f: int|
                    0 <= c < rest.len() && 0 <= f < rest[c].files@.len() && rest[c].failed
                        == edit.failed && (#[trigger] rest[c].files@[f]).path@ == edit.path
                        && rest[c].files@[f].segment == edit.segment;
                assert(calls[c + 1] == rest[c]);
                assert(calls[c + 1].files@[f].path@ == edit.path);
            }
        }
        if exists|c: int, f: int|
            0 <= c < calls.len() && 0 <= f < calls[c].files@.len() && calls[c].failed == edit.failed
                && (#[trigger] calls[c].files@[f]).path@ == edit.path && calls[c].files@[f].segment
                == edit.segment {
            let (c, f) = choose|c: int, f: int|
                0 <= c < calls.len() && 0 <= f < calls[c].files@.len() && calls[c].failed
                    == edit.failed && (#[trigger] calls[c].files@[f]).path@ == edit.path
                    && calls[c].files@[f].segment == edit.segment;
            if c == 0 {
                assert(first[f] == edit);
                assert(all[f] == edit);
            } else {
                assert(rest[c - 1] == calls[c]);
                assert(rest[c - 1].files@[f].path@ == edit.path);
                assert(edits(rest).contains(edit));
                let k = choose|k: int| 0 <= k < edits(rest).len() && edits(rest)[k] == edit;
                assert(all[first.len() + k] == edit);
            }
        }
    } else {
        assert(edits(calls).len() == 0);
    }
}

/// Failures are counted file by file, so that there are some exactly if a file had one.
pub proof fn failures_are_counted_by_file<T>(files: Seq<DrawerFileView<T>>)
    ensures
        failures(files) <= files.len(),
        failures(files) == 0 <==> forall|i: int|
            0 <= i < files.len() ==> !(#[trigger] files[i]).failed,
        failures(files) == files.len() <==> forall|i: int|
            0 <= i < files.len() ==> (#[trigger] files[i]).failed,
    decreases files.len(),
{
    if files.len() > 0 {
        let front = files.drop_last();
        let last = files.len() - 1;
        failures_are_counted_by_file(front);
        assert(files.last() == files[last]);
        assert forall|i: int| 0 <= i < last implies front[i] == files[i] by {}
        if failures(front) != 0 {
            let i = choose|i: int| 0 <= i < front.len() && (#[trigger] front[i]).failed;
            assert(files[i].failed);
        }
        if failures(front) != front.len() {
            let i = choose|i: int| 0 <= i < front.len() && !(#[trigger] front[i]).failed;
            assert(!files[i].failed);
        }
    }
}

/// The summary counts the files and their lines. It speaks of problems exactly if a file
/// had one.
pub proof fn summaries_speak_of_problems_if_any<T>(files: Seq<DrawerFileView<T>>)
    ensures
        ({
            let counts = "已修改 "@ + text::decimal(files.len()) + " 个文件（+"@ + text::decimal(
                total_added(files),
            ) + " −"@ + text::decimal(total_removed(files)) + "）"@;
            &&& (forall|i: int| 0 <= i < files.len() ==> !(#[trigger] files[i]).failed) ==> summary(
                files,
            ) == counts
            &&& (exists|i: int| 0 <= i < files.len() && (#[trigger] files[i]).failed) ==> summary(
                files,
            ) == counts + "· "@ + text::decimal(failures(files)) + " 个异常"@
        }),
{
    failures_are_counted_by_file(files);
}

} // verus!
