//! The product's processes: which they are, and how they are asked to end.

use vstd::prelude::*;

use crate::json;
use crate::json::{Json, JsonView};
use crate::model;
use crate::text;
use crate::text_laws;
use crate::updater::options;

verus! {

/// The exit code of a process that has not ended.
pub const STILL_ACTIVE: u32 = 259;

/// The process of the desktop shell, which is ended without being asked.
pub open spec fn shell_name() -> Seq<char> {
    "QAQ-Harness.exe"@
}

/// The processes that hold files of an installation.
pub open spec fn process_names() -> Seq<Seq<char>> {
    seq!["QAQ-Harness.exe"@, "qaqh-daemon.exe"@, "qaqh-workspace.exe"@]
}

/// The processes that an uninstallation ends.
pub open spec fn removed_process_names() -> Seq<Seq<char>> {
    seq!["QAQ-Harness.exe"@, "qaqh-daemon.exe"@, "qaqh-updater.exe"@]
}

/// `process_names`, executable.
pub fn qaqh_processes() -> (r: Vec<String>)
    ensures
        model::views(r@) == process_names(),
{
    let mut out: Vec<String> = Vec::new();
    out.push("QAQ-Harness.exe".to_owned());
    out.push("qaqh-daemon.exe".to_owned());
    out.push("qaqh-workspace.exe".to_owned());
    assert(model::views(out@) =~= process_names());
    out
}

/// `removed_process_names`, executable.
pub fn removed_processes() -> (r: Vec<String>)
    ensures
        model::views(r@) == removed_process_names(),
{
    let mut out: Vec<String> = Vec::new();
    out.push("QAQ-Harness.exe".to_owned());
    out.push("qaqh-daemon.exe".to_owned());
    out.push("qaqh-updater.exe".to_owned());
    assert(model::views(out@) =~= removed_process_names());
    out
}

/// Whether a process of this name is one of `names`, whatever its case.
pub open spec fn is_among(names: Seq<Seq<char>>, name: Seq<char>) -> bool {
    exists|i: int|
        0 <= i < names.len() && text::lowered(#[trigger] names[i]) == text::lowered(name)
}

/// `is_among`, executable.
fn among(names: &Vec<String>, name: &str) -> (r: bool)
    ensures
        r == is_among(model::views(names@), name@),
{
    let ghost all = model::views(names@);
    let mut i: usize = 0;
    while i < names.len()
        invariant
            i <= names@.len(),
            all == model::views(names@),
            forall|k: int| 0 <= k < i ==> text::lowered(#[trigger] all[k]) != text::lowered(name@),
        decreases names@.len() - i,
    {
        assert(all[i as int] == names@[i as int]@);
        if text::same_ignoring_case(names[i].as_str(), name) {
            return true;
        }
        i = i + 1;
    }
    false
}

/// A process of the product.
#[derive(Debug)]
pub struct ProcInfo {
    pub pid: u32,
    pub name: String,
    pub closed: bool,
}

/// The model of a `ProcInfo`.
#[verifier::ext_equal]
pub struct ProcView {
    pub pid: u32,
    pub name: Seq<char>,
    pub closed: bool,
}

impl View for ProcInfo {
    type V = ProcView;

    open spec fn view(&self) -> ProcView {
        ProcView { pid: self.pid, name: self.name@, closed: self.closed }
    }
}

// ---------------------------------------------------------------------------
// Finding them
// ---------------------------------------------------------------------------

/// A process as the system lists it: its number and its name.
pub open spec fn listed_view(entry: (u32, String)) -> (u32, Seq<char>) {
    (entry.0, entry.1@)
}

/// The process of a snapshot's entry, if it is one of the product's.
pub open spec fn own_process(entry: (u32, Seq<char>)) -> Option<ProcView> {
    if is_among(process_names(), entry.1) {
        Some(ProcView { pid: entry.0, name: entry.1, closed: false })
    } else {
        None
    }
}

/// The product's processes in a snapshot of all processes.
pub open spec fn in_snapshot(entries: Seq<(u32, Seq<char>)>) -> Seq<ProcView> {
    entries.filter_map(|entry: (u32, Seq<char>)| own_process(entry))
}

/// A field of a task list without its quotes and the white space around it.
pub open spec fn task_field(field: Seq<char>) -> Seq<char> {
    text::trimmed(text::without_trailing(text::without_leading(field, '"'), '"'))
}

/// The process that a line of a task list names: its second field is the number.
pub open spec fn task_in(name: Seq<char>, line: Seq<char>) -> Option<ProcView> {
    let parts = text::fields(line, ',');
    if parts.len() >= 2 {
        match text::number_in(task_field(parts[1])) {
            Some(pid) => Some(ProcView { pid, name, closed: false }),
            None => None,
        }
    } else {
        None
    }
}

/// The processes in the task list that was asked for `name`.
pub open spec fn in_task_list(name: Seq<char>, output: Seq<char>) -> Seq<ProcView> {
    text::lines(output).filter_map(|line: Seq<char>| task_in(name, line))
}

/// The task list that was asked for the `i`-th name, if it could be had.
pub open spec fn task_list_at(outputs: Seq<Option<Seq<char>>>, i: int) -> Option<Seq<char>> {
    if 0 <= i < outputs.len() {
        outputs[i]
    } else {
        None
    }
}

/// The processes in the task lists that were asked for the first `n` of `names`;
/// one that could not be had counts as empty.
pub open spec fn in_task_lists(
    names: Seq<Seq<char>>,
    outputs: Seq<Option<Seq<char>>>,
    n: nat,
) -> Seq<ProcView>
    decreases n,
{
    if n == 0 {
        Seq::empty()
    } else {
        let front = in_task_lists(names, outputs, (n - 1) as nat);
        match task_list_at(outputs, n - 1) {
            Some(output) => front + in_task_list(names[n - 1], output),
            None => front,
        }
    }
}

/// `task_in`, executable.
fn parse_task(name: &str, line: &str) -> (r: Option<ProcInfo>)
    ensures
        model::opt_view(r) == task_in(name@, line@),
{
    let parts = text::split_char(line, ',');
    if parts.len() < 2 {
        assert(model::views(parts@).len() < 2);
        return None;
    }
    assert(model::views(parts@)[1] == parts@[1]@);
    let bare = text::trim_char(parts[1].as_str(), '"');
    let field = text::trim(bare.as_str());
    match text::parse_u32(field.as_str()) {
        Some(pid) => Some(ProcInfo { pid, name: name.to_owned(), closed: false }),
        None => None,
    }
}

/// `in_task_list`, executable.
pub fn find_via_tasklist(name: &str, output: &str) -> (r: Vec<ProcInfo>)
    ensures
        model::views(r@) == in_task_list(name@, output@),
{
    let list = text::lines_of(output);
    let ghost all = text::lines(output@);
    let ghost pick = |line: Seq<char>| task_in(name@, line);
    let mut out: Vec<ProcInfo> = Vec::new();
    let mut i: usize = 0;
    assert(model::views(out@) =~= all.take(0).filter_map(pick)) by {
        reveal_with_fuel(Seq::filter_map, 1);
    }
    while i < list.len()
        invariant
            i <= list@.len(),
            all == model::views(list@),
            pick == (|line: Seq<char>| task_in(name@, line)),
            model::views(out@) == all.take(i as int).filter_map(pick),
        decreases list@.len() - i,
    {
        proof {
            all.lemma_filter_map_take_succ(pick, i as int);
            assert(all[i as int] == list@[i as int]@);
        }
        if let Some(task) = parse_task(name, list[i].as_str()) {
            let ghost before = out@;
            out.push(task);
            assert(model::views(out@) =~= model::views(before).push(task@));
        }
        i = i + 1;
    }
    assert(all.take(all.len() as int) =~= all);
    out
}

/// `in_snapshot`, executable.
pub fn find_via_toolhelp(entries: Vec<(u32, String)>) -> (r: Vec<ProcInfo>)
    ensures
        model::views(r@) == in_snapshot(
            Seq::new(entries@.len(), |i: int| listed_view(entries@[i])),
        ),
{
    let names = qaqh_processes();
    let ghost all = Seq::new(entries@.len(), |i: int| listed_view(entries@[i]));
    let ghost pick = |entry: (u32, Seq<char>)| own_process(entry);
    let mut out: Vec<ProcInfo> = Vec::new();
    let mut i: usize = 0;
    assert(model::views(out@) =~= all.take(0).filter_map(pick)) by {
        reveal_with_fuel(Seq::filter_map, 1);
    }
    while i < entries.len()
        invariant
            i <= entries@.len(),
            all == Seq::new(entries@.len(), |i: int| listed_view(entries@[i])),
            model::views(names@) == process_names(),
            pick == (|entry: (u32, Seq<char>)| own_process(entry)),
            model::views(out@) == all.take(i as int).filter_map(pick),
        decreases entries@.len() - i,
    {
        proof {
            all.lemma_filter_map_take_succ(pick, i as int);
            assert(all[i as int] == listed_view(entries@[i as int]));
        }
        if among(&names, entries[i].1.as_str()) {
            let ghost before = out@;
            let found = ProcInfo { pid: entries[i].0, name: entries[i].1.clone(), closed: false };
            out.push(found);
            assert(model::views(out@) =~= model::views(before).push(found@));
        }
        i = i + 1;
    }
    assert(all.take(all.len() as int) =~= all);
    out
}

/// The models of a snapshot's entries.
pub open spec fn snapshot_view(snapshot: Option<Vec<(u32, String)>>) -> Option<
    Seq<(u32, Seq<char>)>,
> {
    match snapshot {
        Some(entries) => Some(Seq::new(entries@.len(), |i: int| listed_view(entries@[i]))),
        None => None,
    }
}

/// The models of task lists.
pub open spec fn outputs_view(outputs: Seq<Option<String>>) -> Seq<Option<Seq<char>>> {
    Seq::new(outputs.len(), |i: int| model::opt_view(outputs[i]))
}

/// The product's processes: from a snapshot of all processes if there is one,
/// else from the task lists that were asked for each name of `process_names`.
pub fn find_qaqh_processes(
    snapshot: Option<Vec<(u32, String)>>,
    outputs: &Vec<Option<String>>,
) -> (r: Vec<ProcInfo>)
    ensures
        model::views(r@) == (match snapshot_view(snapshot) {
            Some(entries) => in_snapshot(entries),
            None => in_task_lists(process_names(), outputs_view(outputs@), 3),
        }),
{
    match snapshot {
        Some(entries) => find_via_toolhelp(entries),
        None => {
            let names = qaqh_processes();
            let ghost all = model::views(names@);
            let ghost lists = outputs_view(outputs@);
            let mut out: Vec<ProcInfo> = Vec::new();
            let mut i: usize = 0;
            assert(all.len() == 3);
            assert(model::views(out@) =~= in_task_lists(all, lists, 0));
            while i < names.len()
                invariant
                    i <= names@.len(),
                    all == model::views(names@),
                    lists == outputs_view(outputs@),
                    model::views(out@) == in_task_lists(all, lists, i as nat),
                decreases names@.len() - i,
            {
                assert(all[i as int] == names@[i as int]@);
                let ghost before = model::views(out@);
                if i < outputs.len() {
                    assert(lists[i as int] == model::opt_view(outputs@[i as int]));
                    if let Some(output) = &outputs[i] {
                        let mut found = find_via_tasklist(names[i].as_str(), output.as_str());
                        let ghost more = model::views(found@);
                        out.append(&mut found);
                        assert(model::views(out@) =~= before + more);
                    }
                }
                i = i + 1;
            }
            out
        },
    }
}

/// The numbers of the processes of a snapshot that an uninstallation ends.
pub open spec fn removed_in_snapshot(entries: Seq<(u32, Seq<char>)>) -> Seq<u32> {
    entries.filter_map(
        |entry: (u32, Seq<char>)|
            if is_among(removed_process_names(), entry.1) {
                Some(entry.0)
            } else {
                None
            },
    )
}

/// `removed_in_snapshot`, executable.
pub fn find_removed_processes(entries: &Vec<(u32, String)>) -> (r: Vec<u32>)
    ensures
        r@ == removed_in_snapshot(Seq::new(entries@.len(), |i: int| listed_view(entries@[i]))),
{
    let names = removed_processes();
    let ghost all = Seq::new(entries@.len(), |i: int| listed_view(entries@[i]));
    let ghost pick = |entry: (u32, Seq<char>)|
        if is_among(removed_process_names(), entry.1) {
            Some(entry.0)
        } else {
            None
        };
    let mut out: Vec<u32> = Vec::new();
    let mut i: usize = 0;
    assert(out@ =~= all.take(0).filter_map(pick)) by {
        reveal_with_fuel(Seq::filter_map, 1);
    }
    while i < entries.len()
        invariant
            i <= entries@.len(),
            all == Seq::new(entries@.len(), |i: int| listed_view(entries@[i])),
            model::views(names@) == removed_process_names(),
            pick == (|entry: (u32, Seq<char>)|
                if is_among(removed_process_names(), entry.1) {
                    Some(entry.0)
                } else {
                    None
                }),
            out@ == all.take(i as int).filter_map(pick),
        decreases entries@.len() - i,
    {
        proof {
            all.lemma_filter_map_take_succ(pick, i as int);
            assert(all[i as int] == listed_view(entries@[i as int]));
        }
        if among(&names, entries[i].1.as_str()) {
            out.push(entries[i].0);
        }
        i = i + 1;
    }
    assert(all.take(all.len() as int) =~= all);
    out
}

/// Whether a process runs: it could be opened, and has not ended.
pub fn is_alive(exit_code: Option<u32>) -> (r: bool)
    ensures
        r == (exit_code == Some(STILL_ACTIVE)),
{
    match exit_code {
        Some(code) => code == STILL_ACTIVE,
        None => false,
    }
}

// ---------------------------------------------------------------------------
// Ending them
// ---------------------------------------------------------------------------

/// Whether a process is the desktop shell.
pub open spec fn is_shell(p: ProcView) -> bool {
    text::lowered(p.name) == text::lowered(shell_name())
}

/// Whether process `i` is ended at the first step: a shell that runs.
pub open spec fn ended_first(procs: Seq<ProcView>, running: Seq<bool>, i: int) -> bool {
    is_shell(procs[i]) && running[i]
}

/// Whether process `i` is ended at the last step: one that is no shell and still
/// runs.
pub open spec fn ended_last(procs: Seq<ProcView>, running: Seq<bool>, i: int) -> bool {
    !is_shell(procs[i]) && running[i]
}

/// Whether only shells still run.
pub open spec fn only_shells_run(procs: Seq<ProcView>, running: Seq<bool>) -> bool {
    forall|i: int| 0 <= i < procs.len() ==> is_shell(#[trigger] procs[i]) || !running[i]
}

/// The processes, each marked as closed unless it runs.
pub open spec fn marked(procs: Seq<ProcView>, running: Seq<bool>) -> Seq<ProcView> {
    Seq::new(procs.len(), |i: int| ProcView { closed: !running[i], ..procs[i] })
}

/// Whether a process is the desktop shell.
pub fn is_shell_process(p: &ProcInfo) -> (r: bool)
    ensures
        r == is_shell(p@),
{
    text::same_ignoring_case(p.name.as_str(), "QAQ-Harness.exe")
}

/// Which processes are ended at the first step.
pub fn shells_to_end(procs: &Vec<ProcInfo>, running: &Vec<bool>) -> (r: Vec<bool>)
    requires
        running@.len() == procs@.len(),
    ensures
        r@ == Seq::new(
            procs@.len(),
            |i: int| ended_first(model::views(procs@), running@, i),
        ),
{
    let mut out: Vec<bool> = Vec::new();
    let mut i: usize = 0;
    while i < procs.len()
        invariant
            i <= procs@.len(),
            running@.len() == procs@.len(),
            out@.len() == i,
            forall|k: int|
                0 <= k < i ==> #[trigger] out@[k] == ended_first(
                    model::views(procs@),
                    running@,
                    k,
                ),
        decreases procs@.len() - i,
    {
        assert(model::views(procs@)[i as int] == procs@[i as int]@);
        out.push(is_shell_process(&procs[i]) && running[i]);
        i = i + 1;
    }
    assert(out@ =~= Seq::new(
        procs@.len(),
        |i: int| ended_first(model::views(procs@), running@, i),
    ));
    out
}

/// Which processes are ended at the last step.
pub fn others_to_end(procs: &Vec<ProcInfo>, running: &Vec<bool>) -> (r: Vec<bool>)
    requires
        running@.len() == procs@.len(),
    ensures
        r@ == Seq::new(
            procs@.len(),
            |i: int| ended_last(model::views(procs@), running@, i),
        ),
{
    let mut out: Vec<bool> = Vec::new();
    let mut i: usize = 0;
    while i < procs.len()
        invariant
            i <= procs@.len(),
            running@.len() == procs@.len(),
            out@.len() == i,
            forall|k: int|
                0 <= k < i ==> #[trigger] out@[k] == ended_last(
                    model::views(procs@),
                    running@,
                    k,
                ),
        decreases procs@.len() - i,
    {
        assert(model::views(procs@)[i as int] == procs@[i as int]@);
        out.push(!is_shell_process(&procs[i]) && running[i]);
        i = i + 1;
    }
    assert(out@ =~= Seq::new(
        procs@.len(),
        |i: int| ended_last(model::views(procs@), running@, i),
    ));
    out
}

/// Whether the wait for the other processes is over: none of them runs, or two
/// seconds have passed.
pub fn others_have_ended(procs: &Vec<ProcInfo>, running: &Vec<bool>, waited_ms: u64) -> (r: bool)
    requires
        running@.len() == procs@.len(),
    ensures
        r == (waited_ms >= 2000 || only_shells_run(model::views(procs@), running@)),
{
    if waited_ms >= 2000 {
        return true;
    }
    let ghost all = model::views(procs@);
    let mut i: usize = 0;
    while i < procs.len()
        invariant
            i <= procs@.len(),
            all == model::views(procs@),
            running@.len() == procs@.len(),
            waited_ms < 2000,
            forall|k: int| 0 <= k < i ==> is_shell(#[trigger] all[k]) || !running@[k],
        decreases procs@.len() - i,
    {
        assert(all[i as int] == procs@[i as int]@);
        if running[i] && !is_shell_process(&procs[i]) {
            return false;
        }
        i = i + 1;
    }
    true
}

/// Marks each process as closed unless it runs.
pub fn graceful_close(procs: &mut Vec<ProcInfo>, running: &Vec<bool>)
    requires
        running@.len() == old(procs)@.len(),
    ensures
        model::views(final(procs)@) == marked(model::views(old(procs)@), running@),
{
    let ghost all = model::views(procs@);
    let mut i: usize = 0;
    while i < procs.len()
        invariant
            i <= procs@.len(),
            procs@.len() == all.len(),
            running@.len() == all.len(),
            forall|k: int|
                0 <= k < i ==> (#[trigger] procs@[k])@ == (ProcView {
                    closed: !running@[k],
                    ..all[k]
                }),
            forall|k: int| i <= k < all.len() ==> (#[trigger] procs@[k])@ == all[k],
        decreases all.len() - i,
    {
        let p = ProcInfo { pid: procs[i].pid, name: procs[i].name.clone(), closed: !running[i] };
        procs.set(i, p);
        i = i + 1;
    }
    assert(model::views(procs@) =~= marked(all, running@));
}

/// After the shells were ended, and the others at the last step, every process
/// was ended that ran when its turn came; none is marked as closed that runs.
pub proof fn running_is_never_marked_closed(
    procs: Seq<ProcView>,
    running: Seq<bool>,
    i: int,
)
    requires
        0 <= i < procs.len(),
        running.len() == procs.len(),
    ensures
        marked(procs, running)[i].closed == !running[i],
        marked(procs, running)[i].pid == procs[i].pid,
        running[i] ==> ended_first(procs, running, i) != ended_last(procs, running, i),
{
}

/// What a caller does who waits for processes to end.
#[derive(Debug, Clone, Copy, PartialEq, Eq, Structural)]
pub enum ExitWait {
    /// They have ended.
    Ended,
    /// Look again.
    Again,
    /// They did not end in time.
    TimedOut,
}

/// Whether one of `running` is set.
pub open spec fn some_run(running: Seq<bool>) -> bool {
    exists|i: int| 0 <= i < running.len() && #[trigger] running[i]
}

/// What follows a look at the processes after `waited_ms` of `timeout_ms`.
pub open spec fn exit_wait(running: Seq<bool>, waited_ms: u64, timeout_ms: u64) -> ExitWait {
    if waited_ms >= timeout_ms {
        ExitWait::TimedOut
    } else if some_run(running) {
        ExitWait::Again
    } else {
        ExitWait::Ended
    }
}

/// `exit_wait`, executable.
pub fn wait_for_exit(running: &Vec<bool>, waited_ms: u64, timeout_ms: u64) -> (r: ExitWait)
    ensures
        r == exit_wait(running@, waited_ms, timeout_ms),
{
    if waited_ms >= timeout_ms {
        return ExitWait::TimedOut;
    }
    let mut i: usize = 0;
    while i < running.len()
        invariant
            i <= running@.len(),
            waited_ms < timeout_ms,
            forall|k: int| 0 <= k < i ==> !#[trigger] running@[k],
        decreases running@.len() - i,
    {
        if running[i] {
            return ExitWait::Again;
        }
        i = i + 1;
    }
    ExitWait::Ended
}

/// The arguments with which `taskkill` ends a process and all those that it
/// started.
pub fn taskkill_arguments(pid: u32) -> (r: Vec<String>)
    ensures
        model::views(r@) == seq!["/f"@, "/t"@, "/pid"@, text::decimal(pid as nat)],
{
    let mut out: Vec<String> = Vec::new();
    out.push("/f".to_owned());
    out.push("/t".to_owned());
    out.push("/pid".to_owned());
    out.push(text::decimal_of(pid as u64));
    assert(model::views(out@) =~= seq!["/f"@, "/t"@, "/pid"@, text::decimal(pid as nat)]);
    out
}

/// What is done next to end a process.
#[derive(Debug, Clone, Copy, PartialEq, Eq, Structural)]
pub enum EndStep {
    /// Ends it together with the processes that it started.
    EndTree,
    /// Ends it alone.
    EndAlone,
    /// Nothing more. `ended` says whether an attempt succeeded.
    Done { ended: bool },
}

/// What is done next to end a process. `tree` and `alone` say what came of the
/// attempts so far, if they were made. The processes that it started go with it:
/// it is ended alone only where that failed.
pub fn force_terminate(tree: Option<bool>, alone: Option<bool>) -> (r: EndStep)
    ensures
        r == (match (tree, alone) {
            (None, _) => EndStep::EndTree,
            (Some(true), _) => EndStep::Done { ended: true },
            (Some(false), None) => EndStep::EndAlone,
            (Some(false), Some(ended)) => EndStep::Done { ended },
        }),
{
    match (tree, alone) {
        (None, _) => EndStep::EndTree,
        (Some(true), _) => EndStep::Done { ended: true },
        (Some(false), None) => EndStep::EndAlone,
        (Some(false), Some(ended)) => EndStep::Done { ended },
    }
}

/// How the wait for one process ended.
#[derive(Debug)]
pub enum ProcessWait {
    /// There is no such process.
    NotThere,
    Ended,
    TimedOut,
    /// The system could not wait, for this reason.
    Failed { reason: String },
}

/// What is said of a wait for the process `pid`: nothing unless it went wrong.
pub open spec fn wait_failure(pid: u32, wait: ProcessWait) -> Option<Seq<char>> {
    match wait {
        ProcessWait::NotThere => None,
        ProcessWait::Ended => None,
        ProcessWait::TimedOut => Some(
            "timed out waiting for process "@ + text::decimal(pid as nat) + " to exit"@,
        ),
        ProcessWait::Failed { reason } => Some(
            "failed waiting for process "@ + text::decimal(pid as nat) + ": "@ + reason@,
        ),
    }
}

/// Whether the wait for the process `pid` went well. That it is not there is no
/// failure.
pub fn wait_for_process_exit(pid: u32, wait: ProcessWait) -> (r: Result<(), String>)
    ensures
        match (r, wait_failure(pid, wait)) {
            (Ok(()), None) => true,
            (Err(message), Some(expected)) => message@ == expected,
            _ => false,
        },
{
    let number = text::decimal_of(pid as u64);
    match wait {
        ProcessWait::NotThere => Ok(()),
        ProcessWait::Ended => Ok(()),
        ProcessWait::TimedOut => Err(
            text::join3("timed out waiting for process ", number.as_str(), " to exit"),
        ),
        ProcessWait::Failed { reason } => {
            let begun = text::join3("failed waiting for process ", number.as_str(), ": ");
            Err(text::join2(begun.as_str(), reason.as_str()))
        },
    }
}

// ---------------------------------------------------------------------------
// Asking the daemon to stop
// ---------------------------------------------------------------------------

/// `s` without the prefixes `part` at its start.
pub open spec fn without_prefixes(s: Seq<char>, part: Seq<char>) -> Seq<char>
    decreases s.len(),
{
    match text::behind_prefix(s, part) {
        Some(rest) => if rest.len() < s.len() {
            without_prefixes(rest, part)
        } else {
            s
        },
        None => s,
    }
}

/// The address in the endpoint of a daemon: what stands between `ws://` and the
/// next slash.
pub open spec fn address_in(endpoint: Seq<char>) -> Seq<char> {
    text::fields(without_prefixes(endpoint, "ws://"@), '/')[0]
}

/// The request that asks the daemon at `address` to stop.
pub open spec fn stop_request_to(address: Seq<char>, token: Seq<char>) -> Seq<char> {
    "POST /control/v1/stop HTTP/1.1\r\nHost: "@ + address + "\r\nAuthorization: Bearer "@ + token
        + "\r\nContent-Length: 0\r\nConnection: close\r\n\r\n"@
}

/// The daemon to stop, and the request to send it.
#[derive(Debug)]
pub struct StopRequest {
    pub address: String,
    pub request: String,
}

/// Whether a daemon's discovery file names one that can be asked to stop.
/// `filled` says whether an empty endpoint or token counts as none.
pub open spec fn names_daemon(discovery: JsonView, filled: bool) -> bool {
    let endpoint = discovery.text_field("endpoint"@);
    let token = discovery.text_field("token"@);
    endpoint is Some && token is Some && (filled ==> endpoint.unwrap().len() > 0
        && token.unwrap().len() > 0)
}

/// Whether `r` is the request that a discovery file gives.
pub open spec fn is_stop_request(r: StopRequest, discovery: JsonView) -> bool {
    &&& r.address@ == address_in(discovery.text_or_empty("endpoint"@))
    &&& r.request@ == stop_request_to(r.address@, discovery.text_or_empty("token"@))
}

/// `without_prefixes`, executable.
fn trim_prefixes(s: String, part: &str) -> (r: String)
    ensures
        r@ == without_prefixes(s@, part@),
    decreases s@.len(),
{
    if part.is_empty() {
        assert(text::behind_prefix(s@, part@) matches Some(rest) ==> rest.len() == s@.len());
        return s;
    }
    match text::strip_prefix(s.as_str(), part) {
        Some(rest) => trim_prefixes(rest, part),
        None => s,
    }
}

/// The request that a daemon's discovery file gives.
pub fn stop_request(discovery: &Json, filled: bool) -> (r: Option<StopRequest>)
    ensures
        r is Some <==> names_daemon(discovery@, filled),
        r matches Some(request) ==> is_stop_request(request, discovery@),
{
    let endpoint = match discovery.text_field("endpoint") {
        Some(endpoint) => endpoint,
        None => {
            return None;
        },
    };
    let token = match discovery.text_field("token") {
        Some(token) => token,
        None => {
            return None;
        },
    };
    if filled && (endpoint.as_str().is_empty() || token.as_str().is_empty()) {
        return None;
    }
    let bare = trim_prefixes(endpoint, "ws://");
    let mut parts = text::split_char(bare.as_str(), '/');
    proof {
        assert(text::fields(bare@, '/').len() > 0);
        assert(model::views(parts@)[0] == parts@[0]@);
    }
    let address = parts.remove(0);
    let start = text::join3(
        "POST /control/v1/stop HTTP/1.1\r\nHost: ",
        address.as_str(),
        "\r\nAuthorization: Bearer ",
    );
    let request = text::join3(
        start.as_str(),
        token.as_str(),
        "\r\nContent-Length: 0\r\nConnection: close\r\n\r\n",
    );
    Some(StopRequest { address, request })
}

/// What the text of a discovery file gives; nothing where it is no JSON.
pub fn stop_daemon_via_http(content: &str, filled: bool) -> (r: Option<StopRequest>)
    ensures
        r is Some <==> json::json_text(content@) is Some && names_daemon(
            json::json_text(content@).unwrap(),
            filled,
        ),
        r matches Some(request) ==> is_stop_request(
            request,
            json::json_text(content@).unwrap(),
        ),
{
    match json::parse(content) {
        Some(discovery) => stop_request(&discovery, filled),
        None => None,
    }
}

/// Whether a response says that the daemon has stopped.
pub fn stop_confirmed(response: &str) -> (r: bool)
    ensures
        r == text::has_prefix(response@, "HTTP/1.1 200"@),
{
    text::starts_with(response, "HTTP/1.1 200")
}

/// Whether a name is one of three, whatever its case.
pub open spec fn is_one_of(name: Seq<char>, a: Seq<char>, b: Seq<char>, c: Seq<char>) -> bool {
    text::lowered(name) == text::lowered(a) || text::lowered(name) == text::lowered(b)
        || text::lowered(name) == text::lowered(c)
}

/// Looking a name up among three compares it with each of them.
proof fn among_three(names: Seq<Seq<char>>, name: Seq<char>)
    requires
        names.len() == 3,
    ensures
        is_among(names, name) <==> is_one_of(name, names[0], names[1], names[2]),
{
    if is_one_of(name, names[0], names[1], names[2]) {
        if text::lowered(name) == text::lowered(names[0]) {
            assert(text::lowered(names[0]) == text::lowered(name));
        } else if text::lowered(name) == text::lowered(names[1]) {
            assert(text::lowered(names[1]) == text::lowered(name));
        } else {
            assert(text::lowered(names[2]) == text::lowered(name));
        }
    }
}

/// Of a snapshot the processes are found that are named like the shell, the daemon
/// or the workspace, whatever the case, each under its own number and not yet
/// closed; no other is.
pub proof fn own_processes_are_found_by_name(entries: Seq<(u32, Seq<char>)>, p: ProcView)
    ensures
        in_snapshot(entries).contains(p) <==> !p.closed && is_one_of(
            p.name,
            "QAQ-Harness.exe"@,
            "qaqh-daemon.exe"@,
            "qaqh-workspace.exe"@,
        ) && entries.contains((p.pid, p.name)),
{
    let pick = |entry: (u32, Seq<char>)| own_process(entry);
    model::picked_is_given_by_an_item(entries, pick, p);
    among_three(process_names(), p.name);
    if in_snapshot(entries).contains(p) {
        let i = choose|i: int| 0 <= i < entries.len() && pick(#[trigger] entries[i]) == Some(p);
        assert(entries[i] == (p.pid, p.name));
    }
    if !p.closed && is_among(process_names(), p.name) && entries.contains((p.pid, p.name)) {
        let i = choose|i: int| 0 <= i < entries.len() && entries[i] == (p.pid, p.name);
        assert(pick(entries[i]) == Some(p));
    }
}

/// Of a snapshot an uninstallation ends the processes that are named like the
/// shell, the daemon or the updater, whatever the case, and no other.
pub proof fn removed_processes_are_found_by_name(entries: Seq<(u32, Seq<char>)>, pid: u32)
    ensures
        removed_in_snapshot(entries).contains(pid) <==> exists|i: int|
            0 <= i < entries.len() && (#[trigger] entries[i]).0 == pid && is_one_of(
                entries[i].1,
                "QAQ-Harness.exe"@,
                "qaqh-daemon.exe"@,
                "qaqh-updater.exe"@,
            ),
{
    let pick = |entry: (u32, Seq<char>)|
        if is_among(removed_process_names(), entry.1) {
            Some(entry.0)
        } else {
            None
        };
    model::picked_is_given_by_an_item(entries, pick, pid);
    assert forall|i: int| 0 <= i < entries.len() implies (pick(#[trigger] entries[i]) == Some(pid)
        <==> entries[i].0 == pid && is_one_of(
        entries[i].1,
        "QAQ-Harness.exe"@,
        "qaqh-daemon.exe"@,
        "qaqh-updater.exe"@,
    )) by {
        among_three(removed_process_names(), entries[i].1);
    }
    if removed_in_snapshot(entries).contains(pid) {
        let i = choose|i: int| 0 <= i < entries.len() && pick(#[trigger] entries[i]) == Some(pid);
        assert(entries[i].0 == pid);
    }
}

/// A process that runs is ended at one of the two steps: at the first if it is
/// named like the shell, else at the last. One that does not run is ended at
/// neither.
pub proof fn shells_are_ended_first(procs: Seq<ProcView>, running: Seq<bool>, i: int)
    requires
        0 <= i < procs.len(),
        running.len() == procs.len(),
    ensures
        ({
            let shell = text::lowered(procs[i].name) == text::lowered("QAQ-Harness.exe"@);
            &&& ended_first(procs, running, i) <==> running[i] && shell
            &&& ended_last(procs, running, i) <==> running[i] && !shell
            &&& running[i] && !shell ==> !only_shells_run(procs, running)
        }),
        (forall|k: int| 0 <= k < running.len() ==> !#[trigger] running[k]) ==> only_shells_run(
            procs,
            running,
        ),
{
    assert(only_shells_run(procs, running) ==> is_shell(procs[i]) || !running[i]);
}

/// A wait is over when the time is, whatever still runs; before that it goes on
/// exactly while a process runs.
pub proof fn waits_end_with_the_processes(running: Seq<bool>, waited_ms: u64, timeout_ms: u64)
    ensures
        exit_wait(running, waited_ms, timeout_ms) == ExitWait::TimedOut <==> waited_ms
            >= timeout_ms,
        exit_wait(running, waited_ms, timeout_ms) == ExitWait::Again <==> waited_ms < timeout_ms
            && exists|i: int| 0 <= i < running.len() && #[trigger] running[i],
        exit_wait(running, waited_ms, timeout_ms) == ExitWait::Ended <==> waited_ms < timeout_ms
            && forall|i: int| 0 <= i < running.len() ==> !#[trigger] running[i],
{
}

/// Only a wait that ran out of time or could not be made is a failure, and what is
/// said of it tells the two apart.
pub proof fn ended_processes_are_no_failure(pid: u32, wait: ProcessWait)
    ensures
        wait_failure(pid, wait) is None <==> wait is NotThere || wait is Ended,
        wait is TimedOut ==> (wait_failure(pid, wait) matches Some(message) && text::has_prefix(
            message,
            "timed out waiting for process "@,
        )),
        wait is Failed ==> (wait_failure(pid, wait) matches Some(message) && text::has_prefix(
            message,
            "failed waiting for process "@,
        )),
{
    if let Some(message) = wait_failure(pid, wait) {
        let late = "timed out waiting for process "@;
        let failed = "failed waiting for process "@;
        if wait is TimedOut {
            assert(message.subrange(0, late.len() as int) =~= late);
        } else {
            assert(message.subrange(0, failed.len() as int) =~= failed);
        }
    }
}

/// A daemon can be asked to stop only where its file gives an endpoint and a token
/// as texts. Where empty ones count as none, both have to say something.
pub proof fn daemons_are_named_by_endpoint_and_token(discovery: JsonView, filled: bool)
    ensures
        names_daemon(discovery, filled) ==> (discovery.field("endpoint"@) matches Some(e)
            && e is Text) && (discovery.field("token"@) matches Some(t) && t is Text),
        forall|endpoint: Seq<char>, token: Seq<char>|
            discovery.field("endpoint"@) == Some(JsonView::Text(endpoint)) && discovery.field(
                "token"@,
            ) == Some(JsonView::Text(token)) ==> (names_daemon(discovery, filled) <==> !filled || (
            #[trigger] endpoint.len() > 0 && #[trigger] token.len() > 0)),
{
}

/// The address of a daemon is what stands between `ws://` and the next slash, unless
/// that is the beginning of another `ws://`.
pub proof fn address_stands_before_the_slash(address: Seq<char>, rest: Seq<char>)
    requires
        forall|i: int| 0 <= i < address.len() ==> #[trigger] address[i] != '/',
        address != "ws:"@,
    ensures
        address_in("ws://"@ + address + "/"@ + rest) == address,
        address_in("ws://"@ + address) == address,
{
    reveal_strlit("ws://");
    reveal_strlit("/");
    let mark = "ws://"@;
    let long = address + "/"@ + rest;
    assert(long.take(address.len() as int) =~= address);
    assert(address.take(address.len() as int) =~= address);
    without_one_prefix(address, long);
    without_one_prefix(address, address);
    assert(mark + address + "/"@ + rest =~= mark + long);
    text::first_at_is_least(long, seq!['/'], 0);
    text::first_at_is_least(address, seq!['/'], 0);
    assert(long.subrange(address.len() as int, (address.len() + 1) as int) =~= seq!['/']);
    assert(text::occurs_at(long, seq!['/'], address.len() as int));
    if let Some(i) = text::first_at(long, seq!['/'], 0) {
        assert(long.subrange(i, i + 1)[0] == long[i]);
        if i < address.len() {
            assert(address[i] == long[i]);
        }
        assert(long.subrange(0, i) =~= address);
    }
    if let Some(i) = text::first_at(address, seq!['/'], 0) {
        assert(address.subrange(i, i + 1)[0] == address[i]);
    }
}

/// One `ws://` before a text that does not begin with another is taken off.
proof fn without_one_prefix(address: Seq<char>, long: Seq<char>)
    requires
        forall|i: int| 0 <= i < address.len() ==> #[trigger] address[i] != '/',
        address != "ws:"@,
        long.len() >= address.len(),
        long.take(address.len() as int) == address,
        long.len() > address.len() ==> long[address.len() as int] == '/',
    ensures
        without_prefixes("ws://"@ + long, "ws://"@) == long,
{
    reveal_strlit("ws://");
    let mark = "ws://"@;
    let whole = mark + long;
    assert(whole.subrange(0, 5) =~= mark);
    assert(whole.subrange(5, whole.len() as int) =~= long);
    reveal_with_fuel(without_prefixes, 2);
    if text::has_prefix(long, mark) {
        reveal_strlit("ws:");
        let n = address.len() as int;
        assert forall|i: int| 0 <= i < 5 implies #[trigger] long[i] == mark[i] by {
            assert(long.subrange(0, 5)[i] == long[i]);
        }
        assert forall|i: int| 0 <= i < n implies #[trigger] address[i] == long[i] by {
            assert(long.take(n)[i] == long[i]);
        }
        assert(long[0] == 'w' && long[1] == 's' && long[2] == ':' && long[3] == '/');
        if n > 3 {
            assert(address[3] == '/');
        }
        if n < 3 {
            assert(long[n] == '/');
        }
        assert(address =~= "ws:"@);
    }
}

/// A line of a task list names its process by its second field: the number, between
/// quotation marks or not. The process bears the name that was asked for and is not
/// closed.
pub proof fn tasks_are_read_by_their_number(
    name: Seq<char>,
    image: Seq<char>,
    pid: u32,
    rest: Seq<char>,
)
    requires
        !image.contains(','),
    ensures
        ({
            let number = text::decimal(pid as nat);
            let quoted = seq!['"'] + number + seq!['"'];
            let found = Some(ProcView { pid, name, closed: false });
            &&& task_in(name, image.push(',') + (number.push(',') + rest)) == found
            &&& task_in(name, image.push(',') + (quoted.push(',') + rest)) == found
            &&& task_in(name, image) is None
        }),
{
    let number = text::decimal(pid as nat);
    let quoted = seq!['"'] + number + seq!['"'];
    text::decimal_is_digits(pid as nat);
    assert(!number.contains(','));
    assert(!quoted.contains(','));
    text_laws::first_field_stands_before_the_separator(image, number.push(',') + rest, ',');
    text_laws::first_field_stands_before_the_separator(image, quoted.push(',') + rest, ',');
    text_laws::first_field_stands_before_the_separator(number, rest, ',');
    text_laws::first_field_stands_before_the_separator(quoted, rest, ',');
    text_laws::splitting_loses_nothing(rest, ',');
    text_laws::solid_texts_are_not_trimmed(number);
    options::process_number_is_read_back(pid);
    let first = number[0];
    let last = number[number.len() - 1];
    assert('0' <= first <= '9');
    assert('0' <= last <= '9');
    assert(task_field(number) == number);
    let bare = number + seq!['"'];
    assert(quoted.skip(1) =~= bare);
    reveal_with_fuel(text::without_leading, 2);
    assert(text::without_leading(quoted, '"') == bare);
    assert(bare.subrange(0, bare.len() - 1) =~= number);
    reveal_with_fuel(text::without_trailing, 2);
    assert(text::without_trailing(bare, '"') == number);
    assert(task_field(quoted) == number);
    let a = text::fields(image.push(',') + (number.push(',') + rest), ',');
    let b = text::fields(image.push(',') + (quoted.push(',') + rest), ',');
    assert(a[1] == number);
    assert(b[1] == quoted);
}

/// A daemon is asked to stop at its own address and with its own token.
pub proof fn stop_requests_bear_address_and_token(address: Seq<char>, token: Seq<char>)
    ensures
        stop_request_to(address, token) == "POST /control/v1/stop HTTP/1.1\r\nHost: "@ + address
            + "\r\nAuthorization: Bearer "@ + token
            + "\r\nContent-Length: 0\r\nConnection: close\r\n\r\n"@,
{
}

} // verus!
