//! Removing the product: what is checked, and in which order things go.

use vstd::prelude::*;

use crate::model;
use crate::paths;
use crate::process;
use crate::process::ExitWait;
use crate::text;

verus! {

/// A tree with more entries than this is not deleted.
pub const MAX_UNINSTALL_ENTRIES: u64 = 100_000;

/// A tree with more bytes than this is not deleted.
pub const MAX_UNINSTALL_BYTES: u64 = 21_474_836_480;

// ---------------------------------------------------------------------------
// Counting what would be deleted
// ---------------------------------------------------------------------------

/// An entry of a tree that would be deleted.
#[derive(Debug)]
pub struct TreeEntry {
    pub path: String,
    /// Whether it leads somewhere else.
    pub linked: bool,
    pub bytes: u64,
}

/// How much of a tree was counted.
#[derive(Debug, Clone, Copy, PartialEq, Eq, Structural)]
pub struct DeletionAudit {
    pub entries: u64,
    pub bytes: u64,
}

/// A sum that stops at the greatest number.
pub open spec fn capped_sum(a: u64, b: u64) -> u64 {
    if a + b > u64::MAX {
        u64::MAX
    } else {
        (a + b) as u64
    }
}

/// The count with one more entry.
pub open spec fn counted(audit: DeletionAudit, entry: TreeEntry) -> DeletionAudit {
    DeletionAudit {
        entries: capped_sum(audit.entries, 1),
        bytes: capped_sum(audit.bytes, entry.bytes),
    }
}

/// Whether a count is within what may be deleted.
pub open spec fn within_budget(audit: DeletionAudit) -> bool {
    audit.entries <= MAX_UNINSTALL_ENTRIES && audit.bytes <= MAX_UNINSTALL_BYTES
}

/// What is said of an entry that leads somewhere else.
pub open spec fn linked_message(path: Seq<char>) -> Seq<char> {
    "refusing deletion tree containing link or reparse point '"@ + path + "'"@
}

/// What is said of a tree that is too large.
pub open spec fn budget_message(path: Seq<char>, audit: DeletionAudit) -> Seq<char> {
    "deletion safety budget exceeded at '"@ + path + "': "@ + text::decimal(audit.entries as nat)
        + " entries, "@ + text::decimal(audit.bytes as nat) + " bytes"@
}

/// The count after `entries`, or what is said of the first one that forbids the
/// deletion: it leads somewhere else, or there is too much.
pub open spec fn audit_of(audit: DeletionAudit, entries: Seq<TreeEntry>) -> Result<
    DeletionAudit,
    Seq<char>,
>
    decreases entries.len(),
{
    if entries.len() == 0 {
        Ok(audit)
    } else {
        match audit_of(audit, entries.drop_last()) {
            Ok(before) => {
                let after = counted(before, entries.last());
                if entries.last().linked {
                    Err(linked_message(entries.last().path@))
                } else if !within_budget(after) {
                    Err(budget_message(entries.last().path@, after))
                } else {
                    Ok(after)
                }
            },
            Err(message) => Err(message),
        }
    }
}

/// What is said of a tree, or its count. `root_linked` says whether the tree
/// itself leads somewhere else.
pub open spec fn tree_audit(
    root: Seq<char>,
    root_linked: bool,
    entries: Seq<TreeEntry>,
) -> Result<DeletionAudit, Seq<char>> {
    if root_linked {
        Err("refusing linked or redirected deletion root '"@ + root + "'"@)
    } else {
        audit_of(DeletionAudit { entries: 0, bytes: 0 }, entries)
    }
}

/// The bytes of `entries` together.
pub open spec fn total_bytes(entries: Seq<TreeEntry>) -> nat
    decreases entries.len(),
{
    if entries.len() == 0 {
        0
    } else {
        total_bytes(entries.drop_last()) + entries.last().bytes as nat
    }
}

/// A tree that passes leads nowhere else, and holds no more than may be deleted.
pub proof fn passed_trees_are_small_and_closed(entries: Seq<TreeEntry>)
    requires
        audit_of(DeletionAudit { entries: 0, bytes: 0 }, entries) is Ok,
    ensures
        forall|i: int| 0 <= i < entries.len() ==> !(#[trigger] entries[i]).linked,
        entries.len() <= MAX_UNINSTALL_ENTRIES,
        total_bytes(entries) <= MAX_UNINSTALL_BYTES,
        audit_of(DeletionAudit { entries: 0, bytes: 0 }, entries) == Ok::<
            DeletionAudit,
            Seq<char>,
        >(DeletionAudit { entries: entries.len() as u64, bytes: total_bytes(entries) as u64 }),
    decreases entries.len(),
{
    if entries.len() > 0 {
        let front = entries.drop_last();
        passed_trees_are_small_and_closed(front);
        assert forall|i: int| 0 <= i < entries.len() implies !(#[trigger] entries[i]).linked by {
            if i < front.len() {
                assert(!front[i].linked);
            }
        }
    }
}

/// A sum that stops at the greatest number.
fn add_capped(a: u64, b: u64) -> (r: u64)
    ensures
        r == capped_sum(a, b),
{
    if a > u64::MAX - b {
        u64::MAX
    } else {
        a + b
    }
}

impl DeletionAudit {
    /// Nothing counted yet.
    pub fn new() -> (r: DeletionAudit)
        ensures
            r == (DeletionAudit { entries: 0, bytes: 0 }),
    {
        DeletionAudit { entries: 0, bytes: 0 }
    }

    /// Counts one more entry, unless it forbids the deletion.
    pub fn note(&mut self, entry: &TreeEntry) -> (r: Result<(), String>)
        ensures
            r is Err <==> entry.linked || !within_budget(counted(*old(self), *entry)),
            entry.linked ==> *final(self) == *old(self),
            !entry.linked ==> *final(self) == counted(*old(self), *entry),
            r matches Err(message) ==> message@ == (if entry.linked {
                linked_message(entry.path@)
            } else {
                budget_message(entry.path@, counted(*old(self), *entry))
            }),
    {
        if entry.linked {
            return Err(
                text::join3(
                    "refusing deletion tree containing link or reparse point '",
                    entry.path.as_str(),
                    "'",
                ),
            );
        }
        self.entries = add_capped(self.entries, 1);
        self.bytes = add_capped(self.bytes, entry.bytes);
        if self.entries > MAX_UNINSTALL_ENTRIES || self.bytes > MAX_UNINSTALL_BYTES {
            let a = text::join3(
                "deletion safety budget exceeded at '",
                entry.path.as_str(),
                "': ",
            );
            let b = text::join3(
                a.as_str(),
                text::decimal_of(self.entries).as_str(),
                " entries, ",
            );
            return Err(
                text::join3(b.as_str(), text::decimal_of(self.bytes).as_str(), " bytes"),
            );
        }
        Ok(())
    }
}

/// Counts the entries of a tree that would be deleted, in the order in which they
/// were found.
pub fn audit_deletion_tree(root: &str, root_linked: bool, entries: &Vec<TreeEntry>) -> (r: Result<
    DeletionAudit,
    String,
>)
    ensures
        match (r, tree_audit(root@, root_linked, entries@)) {
            (Ok(audit), Ok(wanted)) => audit == wanted,
            (Err(message), Err(wanted)) => message@ == wanted,
            _ => false,
        },
{
    if root_linked {
        return Err(text::join3("refusing linked or redirected deletion root '", root, "'"));
    }
    let mut audit = DeletionAudit::new();
    let ghost start = audit;
    let mut i: usize = 0;
    assert(entries@.take(0).len() == 0);
    while i < entries.len()
        invariant
            i <= entries@.len(),
            !root_linked,
            start == (DeletionAudit { entries: 0, bytes: 0 }),
            audit_of(start, entries@.take(i as int)) == Ok::<DeletionAudit, Seq<char>>(audit),
        decreases entries@.len() - i,
    {
        let ghost longer = entries@.take(i + 1);
        assert(longer.drop_last() =~= entries@.take(i as int));
        assert(longer.last() == entries@[i as int]);
        match audit.note(&entries[i]) {
            Ok(()) => {},
            Err(message) => {
                proof {
                    stopped_stays_stopped(start, entries@, i + 1);
                }
                return Err(message);
            },
        }
        i = i + 1;
    }
    assert(entries@.take(entries@.len() as int) =~= entries@);
    Ok(audit)
}

/// What the first entries forbid stays forbidden.
proof fn stopped_stays_stopped(audit: DeletionAudit, entries: Seq<TreeEntry>, n: int)
    requires
        0 <= n <= entries.len(),
        audit_of(audit, entries.take(n)) is Err,
    ensures
        audit_of(audit, entries) == audit_of(audit, entries.take(n)),
    decreases entries.len(),
{
    if n < entries.len() {
        let front = entries.drop_last();
        assert(front.take(n) =~= entries.take(n));
        stopped_stays_stopped(audit, front, n);
    } else {
        assert(entries.take(n) =~= entries);
    }
}

// ---------------------------------------------------------------------------
// Whether a directory is an installation
// ---------------------------------------------------------------------------

/// What was found in a directory.
#[derive(Debug, Clone, Copy, PartialEq, Eq, Structural)]
pub struct InstallFiles {
    pub application: bool,
    pub state: bool,
    pub updater: bool,
}

/// Whether everything is there that an installation has.
pub open spec fn is_complete(files: InstallFiles) -> bool {
    files.application && files.state && files.updater
}

/// Whether a directory may be removed as an installation: its marker was
/// verified, removing it deletes no protected directory, and everything is there
/// that an installation has.
pub open spec fn is_removable(
    verified: bool,
    target: Seq<char>,
    protected: Seq<Seq<char>>,
    windows: bool,
    files: InstallFiles,
) -> bool {
    verified && !paths::is_dangerous(target, protected, windows) && is_complete(files)
}

/// Checks that a directory may be removed as an installation. `verified` is its
/// canonical path, or why its marker could not be verified.
pub fn validate_install_dir(
    verified: Result<String, String>,
    protected: &Vec<String>,
    windows: bool,
    files: InstallFiles,
) -> (r: Result<String, String>)
    ensures
        match verified {
            Ok(target) => {
                &&& r is Ok <==> is_removable(
                    true,
                    target@,
                    model::views(protected@),
                    windows,
                    files,
                )
                &&& r matches Ok(path) ==> path@ == target@
                &&& r matches Err(message) ==> message@ == (if paths::is_dangerous(
                    target@,
                    model::views(protected@),
                    windows,
                ) {
                    "refusing dangerous install root '"@ + target@ + "'"@
                } else {
                    "'"@ + target@ + "' is missing required QAQ-Harness installation files"@
                })
            },
            Err(error) => r matches Err(message) && message@
                == "unverified QAQ-Harness install root: "@ + error@,
        },
{
    let target = match verified {
        Ok(target) => target,
        Err(error) => {
            return Err(text::join2("unverified QAQ-Harness install root: ", error.as_str()));
        },
    };
    match paths::reject_dangerous_root(target.as_str(), protected, windows) {
        Ok(()) => {},
        Err(message) => {
            return Err(message);
        },
    }
    if !files.application || !files.state || !files.updater {
        return Err(
            text::join3(
                "'",
                target.as_str(),
                "' is missing required QAQ-Harness installation files",
            ),
        );
    }
    Ok(target)
}

/// Checks right before the removal that the directory is still the one that was
/// validated. `current` is its canonical path now, or why its marker could not be
/// verified.
pub fn revalidate_install_dir(
    path: &str,
    current: Result<String, String>,
    protected: &Vec<String>,
    windows: bool,
) -> (r: Result<(), String>)
    ensures
        match current {
            Ok(now) => {
                &&& r is Ok <==> paths::one_place(now@, path@, windows) && !paths::is_dangerous(
                    now@,
                    model::views(protected@),
                    windows,
                )
                &&& r matches Err(message) ==> message@ == (if !paths::one_place(
                    now@,
                    path@,
                    windows,
                ) {
                    "install root identity changed before deletion"@
                } else {
                    "refusing dangerous install root '"@ + now@ + "'"@
                })
            },
            Err(error) => r matches Err(message) && message@
                == "install root changed before deletion: "@ + error@,
        },
{
    let now = match current {
        Ok(now) => now,
        Err(error) => {
            return Err(text::join2("install root changed before deletion: ", error.as_str()));
        },
    };
    if !paths::same_path(now.as_str(), path, windows) {
        return Err("install root identity changed before deletion".to_owned());
    }
    paths::reject_dangerous_root(now.as_str(), protected, windows)
}

/// Checks right before the removal that the directory of the user's data is still
/// the one that was verified.
pub fn revalidate_data_dir(path: &str, current: Result<String, String>, windows: bool) -> (r:
    Result<(), String>)
    ensures
        match current {
            Ok(now) => {
                &&& r is Ok <==> paths::one_place(now@, path@, windows)
                &&& r matches Err(message) ==> message@
                    == "user data root identity changed before deletion"@
            },
            Err(error) => r matches Err(message) && message@
                == "user data root changed before deletion: "@ + error@,
        },
{
    let now = match current {
        Ok(now) => now,
        Err(error) => {
            return Err(text::join2("user data root changed before deletion: ", error.as_str()));
        },
    };
    if paths::same_path(now.as_str(), path, windows) {
        Ok(())
    } else {
        Err("user data root identity changed before deletion".to_owned())
    }
}

// ---------------------------------------------------------------------------
// The order of the removal
// ---------------------------------------------------------------------------

/// One step of the removal. A step that fails ends it.
#[derive(Debug, Clone, Copy, PartialEq, Eq, Structural)]
pub enum UninstallStep {
    ValidateInstall,
    ValidateData,
    AuditData,
    AuditInstall,
    StopProcesses,
    RevalidateInstall,
    ClearReadonlyInstall,
    RemoveInstall,
    DeleteShortcuts,
    DeleteRegistration,
    RevalidateData,
    ClearReadonlyData,
    RemoveData,
}

/// The steps of the removal. `with_data` says whether the user's data is there
/// and goes too.
pub open spec fn uninstall_steps(with_data: bool) -> Seq<UninstallStep> {
    seq![UninstallStep::ValidateInstall] + (if with_data {
        seq![UninstallStep::ValidateData, UninstallStep::AuditData]
    } else {
        Seq::empty()
    }) + seq![
        UninstallStep::AuditInstall,
        UninstallStep::StopProcesses,
        UninstallStep::RevalidateInstall,
        UninstallStep::AuditInstall,
        UninstallStep::ClearReadonlyInstall,
        UninstallStep::RevalidateInstall,
        UninstallStep::RemoveInstall,
        UninstallStep::DeleteShortcuts,
        UninstallStep::DeleteRegistration,
    ] + (if with_data {
        seq![
            UninstallStep::RevalidateData,
            UninstallStep::AuditData,
            UninstallStep::ClearReadonlyData,
            UninstallStep::RevalidateData,
            UninstallStep::RemoveData,
        ]
    } else {
        Seq::empty()
    })
}

/// `uninstall_steps`, executable. `delete_user_data` says that the user wants
/// their data gone, `data_exists` that there is any.
pub fn uninstall(delete_user_data: bool, data_exists: bool) -> (r: Vec<UninstallStep>)
    ensures
        r@ == uninstall_steps(delete_user_data && data_exists),
{
    let with_data = delete_user_data && data_exists;
    let mut out: Vec<UninstallStep> = Vec::new();
    out.push(UninstallStep::ValidateInstall);
    if with_data {
        out.push(UninstallStep::ValidateData);
        out.push(UninstallStep::AuditData);
    }
    out.push(UninstallStep::AuditInstall);
    out.push(UninstallStep::StopProcesses);
    out.push(UninstallStep::RevalidateInstall);
    out.push(UninstallStep::AuditInstall);
    out.push(UninstallStep::ClearReadonlyInstall);
    out.push(UninstallStep::RevalidateInstall);
    out.push(UninstallStep::RemoveInstall);
    out.push(UninstallStep::DeleteShortcuts);
    out.push(UninstallStep::DeleteRegistration);
    if with_data {
        out.push(UninstallStep::RevalidateData);
        out.push(UninstallStep::AuditData);
        out.push(UninstallStep::ClearReadonlyData);
        out.push(UninstallStep::RevalidateData);
        out.push(UninstallStep::RemoveData);
    }
    assert(out@ =~= uninstall_steps(with_data));
    out
}

/// Whether a step takes something away.
pub open spec fn removes(step: UninstallStep) -> bool {
    match step {
        UninstallStep::RemoveInstall
        | UninstallStep::DeleteShortcuts
        | UninstallStep::DeleteRegistration
        | UninstallStep::RemoveData => true,
        _ => false,
    }
}

/// The directory of an installation goes only right after it was found to be the
/// one that was validated, and the user's data likewise.
pub proof fn removal_follows_a_check(with_data: bool, i: int)
    requires
        0 <= i < uninstall_steps(with_data).len(),
    ensures
        uninstall_steps(with_data)[i] == UninstallStep::RemoveInstall ==> i > 0
            && uninstall_steps(with_data)[i - 1] == UninstallStep::RevalidateInstall,
        uninstall_steps(with_data)[i] == UninstallStep::RemoveData ==> i > 0
            && uninstall_steps(with_data)[i - 1] == UninstallStep::RevalidateData,
{
    let steps = uninstall_steps(with_data);
    if with_data {
        assert(steps.len() == 17);
        assert(steps[8] == UninstallStep::RevalidateInstall);
        assert(steps[9] == UninstallStep::RemoveInstall);
        assert(steps[15] == UninstallStep::RevalidateData);
        assert(steps[16] == UninstallStep::RemoveData);
    } else {
        assert(steps.len() == 10);
        assert(steps[6] == UninstallStep::RevalidateInstall);
        assert(steps[7] == UninstallStep::RemoveInstall);
    }
}

/// Nothing is taken away before everything that goes was validated and counted,
/// and the product's processes have ended.
pub proof fn nothing_goes_before_the_checks(with_data: bool, i: int)
    requires
        0 <= i < uninstall_steps(with_data).len(),
        removes(uninstall_steps(with_data)[i]),
    ensures
        exists|j: int|
            0 <= j < i && uninstall_steps(with_data)[j] == UninstallStep::ValidateInstall,
        exists|j: int|
            0 <= j < i && uninstall_steps(with_data)[j] == UninstallStep::AuditInstall,
        exists|j: int|
            0 <= j < i && uninstall_steps(with_data)[j] == UninstallStep::StopProcesses,
        with_data ==> exists|j: int|
            0 <= j < i && uninstall_steps(with_data)[j] == UninstallStep::ValidateData,
        with_data ==> exists|j: int|
            0 <= j < i && uninstall_steps(with_data)[j] == UninstallStep::AuditData,
{
    let steps = uninstall_steps(with_data);
    assert(steps[0] == UninstallStep::ValidateInstall);
    if with_data {
        assert(steps[1] == UninstallStep::ValidateData);
        assert(steps[2] == UninstallStep::AuditData);
        assert(steps[3] == UninstallStep::AuditInstall);
        assert(steps[4] == UninstallStep::StopProcesses);
        assert(steps[5] == UninstallStep::RevalidateInstall);
        assert(steps[6] == UninstallStep::AuditInstall);
        assert(steps[7] == UninstallStep::ClearReadonlyInstall);
        assert(steps[8] == UninstallStep::RevalidateInstall);
    } else {
        assert(steps[1] == UninstallStep::AuditInstall);
        assert(steps[2] == UninstallStep::StopProcesses);
        assert(steps[3] == UninstallStep::RevalidateInstall);
        assert(steps[4] == UninstallStep::AuditInstall);
        assert(steps[5] == UninstallStep::ClearReadonlyInstall);
        assert(steps[6] == UninstallStep::RevalidateInstall);
    }
}

/// The user's data stays unless they want it gone.
pub proof fn data_stays_unless_asked_for(i: int)
    requires
        0 <= i < uninstall_steps(false).len(),
    ensures
        uninstall_steps(false)[i] != UninstallStep::RemoveData,
        uninstall_steps(false)[i] != UninstallStep::ClearReadonlyData,
{
    let steps = uninstall_steps(false);
    assert(steps.len() == 10);
}

/// The variables of the environment that name protected directories.
pub open spec fn protected_names() -> Seq<Seq<char>> {
    seq!["SystemRoot"@, "ProgramData"@, "ProgramFiles"@, "ProgramFiles(x86)"@]
}

/// `protected_names`, executable.
pub fn protected_variables() -> (r: Vec<String>)
    ensures
        model::views(r@) == protected_names(),
{
    let mut out: Vec<String> = Vec::new();
    out.push("SystemRoot".to_owned());
    out.push("ProgramData".to_owned());
    out.push("ProgramFiles".to_owned());
    out.push("ProgramFiles(x86)".to_owned());
    assert(model::views(out@) =~= protected_names());
    out
}

/// Refuses to go into a directory that leads somewhere else.
pub fn check_traversal(path: &str, linked: bool) -> (r: Result<(), String>)
    ensures
        r is Err <==> linked,
        r matches Err(message) ==> message@
            == "refusing to traverse symbolic link or reparse point '"@ + path@ + "'"@,
{
    if linked {
        Err(text::join3("refusing to traverse symbolic link or reparse point '", path, "'"))
    } else {
        Ok(())
    }
}

/// What is said of a directory that could not be removed, for this reason if one
/// is known.
pub fn removal_failure(path: &str, reason: Option<&str>) -> (r: String)
    ensures
        r@ == "failed to remove '"@ + path@ + "': "@ + (match reason {
            Some(reason) => reason@,
            None => "unknown error"@,
        }),
{
    let begun = text::join3("failed to remove '", path, "': ");
    match reason {
        Some(reason) => text::join2(begun.as_str(), reason),
        None => text::join2(begun.as_str(), "unknown error"),
    }
}

// ---------------------------------------------------------------------------
// The process that removes the product
// ---------------------------------------------------------------------------

/// A message to the user.
#[derive(Debug)]
pub struct Notice {
    pub title: String,
    pub message: String,
    pub error: bool,
}

/// What the process that removes the product does once the one that asked for it
/// has ended.
#[derive(Debug, Clone, Copy, PartialEq, Eq, Structural)]
pub enum WorkerStep {
    /// Removes the product. A failure does not end the process.
    Remove,
    /// Tells the user what came of it.
    Notify,
    /// Has its own executable deleted.
    DeleteSelf,
}

/// How long the process that removes the product waits for the one that asked for
/// it.
pub const WORKER_WAIT_MS: u64 = 60_000;

/// What the process that removes the product does: nothing if the one that asked
/// for it did not end in time.
pub open spec fn worker_steps(timed_out: bool, notify: bool) -> Seq<WorkerStep> {
    if timed_out {
        Seq::empty()
    } else if notify {
        seq![WorkerStep::Remove, WorkerStep::Notify, WorkerStep::DeleteSelf]
    } else {
        seq![WorkerStep::Remove, WorkerStep::DeleteSelf]
    }
}

/// What follows a look at the process that asked for the removal, after
/// `waited_ms`: none if it is looked at again after a fifth of a second.
pub open spec fn worker_plan(running: bool, waited_ms: u64, notify: bool) -> Option<
    Seq<WorkerStep>,
> {
    match process::exit_wait(seq![running], waited_ms, WORKER_WAIT_MS) {
        ExitWait::Again => None,
        ExitWait::TimedOut => Some(worker_steps(true, notify)),
        ExitWait::Ended => Some(worker_steps(false, notify)),
    }
}

/// `worker_plan`, executable. `notify` says that the user is told.
pub fn uninstall_worker(running: bool, waited_ms: u64, notify: bool) -> (r: Option<
    Vec<WorkerStep>,
>)
    ensures
        match (r, worker_plan(running, waited_ms, notify)) {
            (Some(steps), Some(wanted)) => steps@ == wanted,
            (None, None) => true,
            _ => false,
        },
{
    let mut looked: Vec<bool> = Vec::new();
    looked.push(running);
    assert(looked@ =~= seq![running]);
    let mut out: Vec<WorkerStep> = Vec::new();
    match process::wait_for_exit(&looked, waited_ms, WORKER_WAIT_MS) {
        ExitWait::Again => None,
        ExitWait::TimedOut => Some(out),
        ExitWait::Ended => {
            out.push(WorkerStep::Remove);
            if notify {
                out.push(WorkerStep::Notify);
            }
            out.push(WorkerStep::DeleteSelf);
            assert(out@ =~= worker_steps(false, notify));
            Some(out)
        },
    }
}

/// If the process that asked for a removal was not seen to end within a minute,
/// nothing is removed, the user is told nothing, and nothing deletes itself.
pub proof fn late_callers_end_the_removal(running: bool, waited_ms: u64, notify: bool)
    requires
        waited_ms >= WORKER_WAIT_MS,
    ensures
        worker_plan(running, waited_ms, notify) == Some(Seq::<WorkerStep>::empty()),
{
}

/// Once the process that asked for it has ended, the product is removed once, the
/// user is told after that exactly if they are to be, and the executable goes
/// last, whatever came of the removal.
pub proof fn removal_happens_once(waited_ms: u64, notify: bool)
    requires
        waited_ms < WORKER_WAIT_MS,
    ensures
        worker_plan(false, waited_ms, notify) matches Some(steps) && {
            &&& steps.len() >= 2
            &&& steps[0] == WorkerStep::Remove
            &&& steps.last() == WorkerStep::DeleteSelf
            &&& forall|i: int|
                0 < i < steps.len() ==> #[trigger] steps[i] != WorkerStep::Remove
            &&& steps.contains(WorkerStep::Notify) <==> notify
        },
{
    let steps = worker_steps(false, notify);
    if notify {
        assert(steps[1] == WorkerStep::Notify);
    }
}

/// What comes of the process that removes the product. `removed` says what came of
/// the removal; it is none if the process that asked for it did not end in time.
pub fn worker_outcome(wait_pid: u32, removed: Option<Result<(), String>>) -> (r: Result<(), String>)
    ensures
        match removed {
            Some(outcome) => r == outcome,
            None => r matches Err(message) && message@
                == "timed out waiting for maintenance process "@ + text::decimal(wait_pid as nat),
        },
{
    match removed {
        Some(outcome) => outcome,
        None => {
            let number = text::decimal_of(wait_pid as u64);
            Err(text::join2("timed out waiting for maintenance process ", number.as_str()))
        },
    }
}

/// What the process that removed the product tells the user. `failure` says why it
/// could not.
pub fn worker_notice(failure: Option<&str>) -> (r: Notice)
    ensures
        r.error == (failure is Some),
        match failure {
            None => r.title@ == "QAQ-Harness 卸载"@ && r.message@
                == "QAQ-Harness 已从此计算机中移除。"@,
            Some(error) => r.title@ == "QAQ-Harness 卸载失败"@ && r.message@ == error@,
        },
{
    match failure {
        None => Notice {
            title: "QAQ-Harness 卸载".to_owned(),
            message: "QAQ-Harness 已从此计算机中移除。".to_owned(),
            error: false,
        },
        Some(error) => Notice {
            title: "QAQ-Harness 卸载失败".to_owned(),
            message: error.to_owned(),
            error: true,
        },
    }
}

/// The identifier of a removal, from the process that asked for it and the time.
pub fn removal_id(pid: u32, ms: u64) -> (r: String)
    ensures
        r@ == text::decimal(pid as nat) + "-"@ + text::decimal(ms as nat),
{
    text::join3(
        text::decimal_of(pid as u64).as_str(),
        "-",
        text::decimal_of(ms).as_str(),
    )
}

/// Whether a process belongs to the installation in `target`: its executable
/// lies below it.
pub fn process_belongs_to(executable: Option<&str>, target: &str) -> (r: bool)
    ensures
        r == (match executable {
            Some(path) => paths::lies_within(path@, target@, true),
            None => false,
        }),
{
    match executable {
        Some(path) => paths::path_is_within(path, target, true),
        None => false,
    }
}

/// A process of the product that was found.
#[derive(Debug, Clone, Copy, PartialEq, Eq, Structural)]
pub struct FoundProcess {
    pub pid: u32,
    /// Whether it belongs to the installation.
    pub belongs: bool,
    pub running: bool,
}

/// The processes to end: those of the installation, except the updater itself.
pub open spec fn to_end(found: Seq<FoundProcess>, own: u32) -> Seq<u32> {
    found.filter_map(
        |p: FoundProcess|
            if p.pid != own && p.belongs {
                Some(p.pid)
            } else {
                None
            },
    )
}

/// The processes that are left: those of them that still run.
pub open spec fn left_over(found: Seq<FoundProcess>, own: u32) -> Seq<u32> {
    found.filter_map(
        |p: FoundProcess|
            if p.pid != own && p.belongs && p.running {
                Some(p.pid)
            } else {
                None
            },
    )
}

/// `to_end`, executable.
pub fn processes_to_end(found: &Vec<FoundProcess>, own: u32) -> (r: Vec<u32>)
    ensures
        r@ == to_end(found@, own),
{
    let ghost pick = |p: FoundProcess|
        if p.pid != own && p.belongs {
            Some(p.pid)
        } else {
            None
        };
    let mut out: Vec<u32> = Vec::new();
    let mut i: usize = 0;
    assert(out@ =~= found@.take(0).filter_map(pick)) by {
        reveal_with_fuel(Seq::filter_map, 1);
    }
    while i < found.len()
        invariant
            i <= found@.len(),
            pick == (|p: FoundProcess|
                if p.pid != own && p.belongs {
                    Some(p.pid)
                } else {
                    None
                }),
            out@ == found@.take(i as int).filter_map(pick),
        decreases found@.len() - i,
    {
        proof {
            found@.lemma_filter_map_take_succ(pick, i as int);
        }
        if found[i].pid != own && found[i].belongs {
            out.push(found[i].pid);
        }
        i = i + 1;
    }
    assert(found@.take(found@.len() as int) =~= found@);
    out
}

/// `left_over`, executable.
pub fn processes_left(found: &Vec<FoundProcess>, own: u32) -> (r: Vec<u32>)
    ensures
        r@ == left_over(found@, own),
{
    let ghost pick = |p: FoundProcess|
        if p.pid != own && p.belongs && p.running {
            Some(p.pid)
        } else {
            None
        };
    let mut out: Vec<u32> = Vec::new();
    let mut i: usize = 0;
    assert(out@ =~= found@.take(0).filter_map(pick)) by {
        reveal_with_fuel(Seq::filter_map, 1);
    }
    while i < found.len()
        invariant
            i <= found@.len(),
            pick == (|p: FoundProcess|
                if p.pid != own && p.belongs && p.running {
                    Some(p.pid)
                } else {
                    None
                }),
            out@ == found@.take(i as int).filter_map(pick),
        decreases found@.len() - i,
    {
        proof {
            found@.lemma_filter_map_take_succ(pick, i as int);
        }
        if found[i].pid != own && found[i].belongs && found[i].running {
            out.push(found[i].pid);
        }
        i = i + 1;
    }
    assert(found@.take(found@.len() as int) =~= found@);
    out
}

/// What follows a look at the processes that are left.
#[derive(Debug, Clone, Copy, PartialEq, Eq, Structural)]
pub enum StopStep {
    /// All have ended.
    Stopped,
    /// Look again after a quarter of a second.
    Again,
    /// They did not end within ten seconds.
    GiveUp,
}

/// What follows a look at the processes that are left after `waited_ms`.
pub fn stop_running_processes(left: usize, waited_ms: u64) -> (r: StopStep)
    ensures
        r == (if left == 0 {
            StopStep::Stopped
        } else if waited_ms >= 10_000 {
            StopStep::GiveUp
        } else {
            StopStep::Again
        }),
{
    if left == 0 {
        StopStep::Stopped
    } else if waited_ms >= 10_000 {
        StopStep::GiveUp
    } else {
        StopStep::Again
    }
}

/// What follows an attempt to end the process `pid`: a failure counts only if the
/// process still runs. `stderr` is what the attempt wrote.
pub fn check_ended(pid: u32, succeeded: bool, running: bool, stderr: &str) -> (r: Result<
    (),
    String,
>)
    ensures
        r is Err <==> !succeeded && running,
        r matches Err(message) ==> message@ == "failed to terminate QAQ-Harness process "@
            + text::decimal(pid as nat) + ": "@ + text::trimmed(stderr@),
{
    if succeeded || !running {
        return Ok(());
    }
    let number = text::decimal_of(pid as u64);
    let begun = text::join3("failed to terminate QAQ-Harness process ", number.as_str(), ": ");
    Err(text::join2(begun.as_str(), text::trim(stderr).as_str()))
}

/// Numbers, separated by commas.
pub open spec fn listed_numbers(numbers: Seq<u32>) -> Seq<char>
    decreases numbers.len(),
{
    if numbers.len() == 0 {
        Seq::empty()
    } else if numbers.len() == 1 {
        text::decimal(numbers[0] as nat)
    } else {
        listed_numbers(numbers.drop_last()) + ", "@ + text::decimal(numbers.last() as nat)
    }
}

/// What is said of processes that did not end in time.
pub fn still_running(left: &Vec<u32>) -> (r: String)
    ensures
        r@ == "QAQ-Harness processes are still running: ["@ + listed_numbers(left@) + "]"@,
{
    let mut listed = String::new();
    let mut i: usize = 0;
    while i < left.len()
        invariant
            i <= left@.len(),
            listed@ == listed_numbers(left@.take(i as int)),
        decreases left@.len() - i,
    {
        let number = text::decimal_of(left[i] as u64);
        assert(left@.take(i + 1).drop_last() =~= left@.take(i as int));
        assert(left@.take(i + 1).last() == left@[i as int]);
        listed = if i == 0 {
            number
        } else {
            text::join3(listed.as_str(), ", ", number.as_str())
        };
        i = i + 1;
    }
    assert(left@.take(left@.len() as int) =~= left@);
    text::join3("QAQ-Harness processes are still running: [", listed.as_str(), "]")
}

/// A tree may be deleted exactly when neither it nor anything in it leads somewhere
/// else, and it holds no more than a hundred thousand entries and twenty gibibytes.
pub proof fn small_closed_trees_pass(root: Seq<char>, root_linked: bool, entries: Seq<TreeEntry>)
    ensures
        tree_audit(root, root_linked, entries) is Ok <==> {
            &&& !root_linked
            &&& forall|i: int| 0 <= i < entries.len() ==> !(#[trigger] entries[i]).linked
            &&& entries.len() <= 100_000
            &&& total_bytes(entries) <= 20 * 1024 * 1024 * 1024
        },
{
    if tree_audit(root, root_linked, entries) is Ok {
        passed_trees_are_small_and_closed(entries);
    }
    if (forall|i: int| 0 <= i < entries.len() ==> !(#[trigger] entries[i]).linked)
        && entries.len() <= 100_000 && total_bytes(entries) <= 20 * 1024 * 1024 * 1024 {
        small_trees_are_counted(entries);
    }
}

/// A tree that leads nowhere else and is small enough is counted to its end.
proof fn small_trees_are_counted(entries: Seq<TreeEntry>)
    requires
        forall|i: int| 0 <= i < entries.len() ==> !(#[trigger] entries[i]).linked,
        entries.len() <= 100_000,
        total_bytes(entries) <= 20 * 1024 * 1024 * 1024,
    ensures
        audit_of(DeletionAudit { entries: 0, bytes: 0 }, entries) is Ok,
    decreases entries.len(),
{
    if entries.len() > 0 {
        let front = entries.drop_last();
        assert forall|i: int| 0 <= i < front.len() implies !(#[trigger] front[i]).linked by {
            assert(!entries[i].linked);
        }
        small_trees_are_counted(front);
        passed_trees_are_small_and_closed(front);
        assert(entries[entries.len() - 1] == entries.last());
        assert(!entries.last().linked);
    }
}

/// A directory is removed only as a whole installation: its marker verified, the
/// application, the state and the updater there, and no protected directory at it
/// or below it. Each of these alone forbids it.
pub proof fn only_whole_installations_are_removed(
    verified: bool,
    target: Seq<char>,
    protected: Seq<Seq<char>>,
    windows: bool,
    files: InstallFiles,
)
    ensures
        is_removable(verified, target, protected, windows, files) <==> {
            &&& verified
            &&& files.application
            &&& files.state
            &&& files.updater
            &&& forall|i: int|
                0 <= i < protected.len() ==> !paths::one_place(
                    #[trigger] protected[i],
                    target,
                    windows,
                ) && !paths::lies_within(protected[i], target, windows)
        },
{
}

/// A removal always takes the installation, its shortcuts and its registration
/// away, in this order; the user's data goes exactly if it is to, and last.
pub proof fn removal_takes_everything_away(with_data: bool)
    ensures
        ({
            let steps = uninstall_steps(with_data);
            &&& exists|i: int, j: int, k: int|
                0 <= i < j < k < steps.len() && steps[i] == UninstallStep::RemoveInstall && steps[j]
                    == UninstallStep::DeleteShortcuts && steps[k]
                    == UninstallStep::DeleteRegistration
            &&& with_data <==> steps.contains(UninstallStep::RemoveData)
            &&& with_data ==> steps.last() == UninstallStep::RemoveData
            &&& steps.contains(UninstallStep::ClearReadonlyInstall)
            &&& with_data <==> steps.contains(UninstallStep::ClearReadonlyData)
            &&& steps[0] == UninstallStep::ValidateInstall
        }),
{
    let steps = uninstall_steps(with_data);
    if with_data {
        assert(steps.len() == 17);
        assert(steps[7] == UninstallStep::ClearReadonlyInstall);
        assert(steps[9] == UninstallStep::RemoveInstall);
        assert(steps[10] == UninstallStep::DeleteShortcuts);
        assert(steps[11] == UninstallStep::DeleteRegistration);
        assert(steps[14] == UninstallStep::ClearReadonlyData);
        assert(steps[16] == UninstallStep::RemoveData);
    } else {
        assert(steps.len() == 10);
        assert(steps[5] == UninstallStep::ClearReadonlyInstall);
        assert(steps[7] == UninstallStep::RemoveInstall);
        assert(steps[8] == UninstallStep::DeleteShortcuts);
        assert(steps[9] == UninstallStep::DeleteRegistration);
        assert forall|i: int| 0 <= i < steps.len() implies steps[i] != UninstallStep::RemoveData
            && steps[i] != UninstallStep::ClearReadonlyData by {
            data_stays_unless_asked_for(i);
        }
    }
}

/// While the process that asked for the removal runs and a minute has not passed,
/// it is waited for.
pub proof fn removal_waits_for_its_caller(running: bool, waited_ms: u64, notify: bool)
    ensures
        worker_plan(running, waited_ms, notify) is None <==> running && waited_ms < 60_000,
{
    assert(seq![running][0] == running);
}

/// The processes to end are those of the installation, but never the updater
/// itself; those that are left are the ones among them that run.
pub proof fn only_processes_of_the_installation_are_ended(
    found: Seq<FoundProcess>,
    own: u32,
    pid: u32,
)
    ensures
        to_end(found, own).contains(pid) <==> pid != own && exists|i: int|
            0 <= i < found.len() && (#[trigger] found[i]).pid == pid && found[i].belongs,
        left_over(found, own).contains(pid) <==> pid != own && exists|i: int|
            0 <= i < found.len() && (#[trigger] found[i]).pid == pid && found[i].belongs
                && found[i].running,
{
    let ending = |p: FoundProcess|
        if p.pid != own && p.belongs {
            Some(p.pid)
        } else {
            None
        };
    let left = |p: FoundProcess|
        if p.pid != own && p.belongs && p.running {
            Some(p.pid)
        } else {
            None
        };
    model::picked_is_given_by_an_item(found, ending, pid);
    model::picked_is_given_by_an_item(found, left, pid);
    assert forall|i: int| 0 <= i < found.len() implies (ending(#[trigger] found[i]) == Some(pid)
        <==> pid != own && found[i].pid == pid && found[i].belongs) by {}
    assert forall|i: int| 0 <= i < found.len() implies (left(#[trigger] found[i]) == Some(pid)
        <==> pid != own && found[i].pid == pid && found[i].belongs && found[i].running) by {}
}

} // verus!
