//! Putting a new file in the place of an old one.
//!
//! The new file is written beside the old one first. Then the old one becomes
//! the backup, or goes, and the new one takes its place. The steps are stated on
//! a model of the three files, so that what a failure leaves behind can be
//! stated too.

use vstd::prelude::*;

use crate::text;

verus! {

/// One of the files that take part.
#[derive(Debug, Clone, Copy, PartialEq, Eq, Structural)]
pub enum SwapFile {
    /// The file in use.
    Target,
    /// The file that was in use before.
    Backup,
    /// The new file before it is in use.
    Temporary,
}

/// One step.
#[derive(Debug, Clone, Copy, PartialEq, Eq, Structural)]
pub enum SwapStep {
    /// Lets the file be changed.
    ClearReadonly(SwapFile),
    Remove(SwapFile),
    Rename { from: SwapFile, to: SwapFile },
}

/// The contents of the files, as far as they are there.
#[verifier::ext_equal]
pub struct SwapFiles<T> {
    pub target: Option<T>,
    pub backup: Option<T>,
    pub temporary: Option<T>,
}

impl<T> SwapFiles<T> {
    /// What is in a file.
    pub open spec fn at(self, file: SwapFile) -> Option<T> {
        match file {
            SwapFile::Target => self.target,
            SwapFile::Backup => self.backup,
            SwapFile::Temporary => self.temporary,
        }
    }

    /// The files with one of them changed.
    pub open spec fn with(self, file: SwapFile, content: Option<T>) -> SwapFiles<T> {
        match file {
            SwapFile::Target => SwapFiles { target: content, ..self },
            SwapFile::Backup => SwapFiles { backup: content, ..self },
            SwapFile::Temporary => SwapFiles { temporary: content, ..self },
        }
    }

    /// The files after a step that succeeded.
    pub open spec fn after(self, step: SwapStep) -> SwapFiles<T> {
        match step {
            SwapStep::ClearReadonly(_) => self,
            SwapStep::Remove(file) => self.with(file, None),
            SwapStep::Rename { from, to } => self.with(to, self.at(from)).with(from, None),
        }
    }

    /// The files after steps that succeeded.
    pub open spec fn after_all(self, steps: Seq<SwapStep>) -> SwapFiles<T>
        decreases steps.len(),
    {
        if steps.len() == 0 {
            self
        } else {
            self.after_all(steps.drop_last()).after(steps.last())
        }
    }
}

/// The steps that make room for the new file.
pub open spec fn room_steps(
    target_exists: bool,
    backup_exists: bool,
    preserve_previous: bool,
) -> Seq<SwapStep> {
    if !target_exists {
        Seq::empty()
    } else if !preserve_previous {
        seq![
            SwapStep::ClearReadonly(SwapFile::Target),
            SwapStep::Remove(SwapFile::Target),
        ]
    } else if backup_exists {
        seq![
            SwapStep::ClearReadonly(SwapFile::Target),
            SwapStep::ClearReadonly(SwapFile::Backup),
            SwapStep::Remove(SwapFile::Backup),
            SwapStep::Rename { from: SwapFile::Target, to: SwapFile::Backup },
        ]
    } else {
        seq![
            SwapStep::ClearReadonly(SwapFile::Target),
            SwapStep::Rename { from: SwapFile::Target, to: SwapFile::Backup },
        ]
    }
}

/// The step that puts the new file in use.
pub open spec fn final_step() -> SwapStep {
    SwapStep::Rename { from: SwapFile::Temporary, to: SwapFile::Target }
}

/// The steps that follow if the new file could not be put in use: the old one
/// comes back from the backup if it is there and its place is free, and the new
/// one goes.
pub open spec fn recovery_steps(
    target_exists: bool,
    backup_exists: bool,
    preserve_previous: bool,
) -> Seq<SwapStep> {
    if preserve_previous && backup_exists && !target_exists {
        seq![
            SwapStep::Rename { from: SwapFile::Backup, to: SwapFile::Target },
            SwapStep::Remove(SwapFile::Temporary),
        ]
    } else {
        seq![SwapStep::Remove(SwapFile::Temporary)]
    }
}

/// `room_steps` and `final_step`, executable.
pub fn swap_steps(target_exists: bool, backup_exists: bool, preserve_previous: bool) -> (r: Vec<
    SwapStep,
>)
    ensures
        r@ == room_steps(target_exists, backup_exists, preserve_previous).push(final_step()),
{
    let mut out: Vec<SwapStep> = Vec::new();
    if target_exists {
        out.push(SwapStep::ClearReadonly(SwapFile::Target));
        if preserve_previous {
            if backup_exists {
                out.push(SwapStep::ClearReadonly(SwapFile::Backup));
                out.push(SwapStep::Remove(SwapFile::Backup));
            }
            out.push(SwapStep::Rename { from: SwapFile::Target, to: SwapFile::Backup });
        } else {
            out.push(SwapStep::Remove(SwapFile::Target));
        }
    }
    assert(out@ =~= room_steps(target_exists, backup_exists, preserve_previous));
    out.push(SwapStep::Rename { from: SwapFile::Temporary, to: SwapFile::Target });
    out
}

/// `recovery_steps`, executable.
pub fn swap_recovery(target_exists: bool, backup_exists: bool, preserve_previous: bool) -> (r: Vec<
    SwapStep,
>)
    ensures
        r@ == recovery_steps(target_exists, backup_exists, preserve_previous),
{
    let mut out: Vec<SwapStep> = Vec::new();
    if preserve_previous && backup_exists && !target_exists {
        out.push(SwapStep::Rename { from: SwapFile::Backup, to: SwapFile::Target });
    }
    out.push(SwapStep::Remove(SwapFile::Temporary));
    assert(out@ =~= recovery_steps(target_exists, backup_exists, preserve_previous));
    out
}

/// What is said of a step that failed.
pub open spec fn failure_text(
    step: SwapStep,
    target: Seq<char>,
    backup: Seq<char>,
    error: Seq<char>,
) -> Seq<char> {
    (match step {
        SwapStep::Remove(SwapFile::Backup) => "删除旧备份 '"@ + backup,
        SwapStep::Remove(SwapFile::Target) => "替换前删除 '"@ + target,
        SwapStep::Rename { from: SwapFile::Target, to: SwapFile::Backup } => "备份 '"@ + target,
        _ => "启用新文件 '"@ + target,
    }) + "' 失败: "@ + error
}

/// `failure_text`, executable.
pub fn step_failure(step: SwapStep, target: &str, backup: &str, error: &str) -> (r: String)
    ensures
        r@ == failure_text(step, target@, backup@, error@),
{
    let start = match step {
        SwapStep::Remove(SwapFile::Backup) => text::join2("删除旧备份 '", backup),
        SwapStep::Remove(SwapFile::Target) => text::join2("替换前删除 '", target),
        SwapStep::Rename { from: SwapFile::Target, to: SwapFile::Backup } => text::join2(
            "备份 '",
            target,
        ),
        _ => text::join2("启用新文件 '", target),
    };
    text::join3(start.as_str(), "' 失败: ", error)
}

/// The files after room was made.
proof fn room_made<T>(files: SwapFiles<T>, preserve_previous: bool)
    ensures
        files.after_all(room_steps(files.target is Some, files.backup is Some, preserve_previous))
            == (SwapFiles {
            target: None,
            backup: if files.target is Some && preserve_previous {
                files.target
            } else {
                files.backup
            },
            temporary: files.temporary,
        }),
{
    let steps = room_steps(files.target is Some, files.backup is Some, preserve_previous);
    reveal_with_fuel(SwapFiles::after_all, 5);
    if steps.len() == 2 {
        assert(steps.drop_last() =~= seq![steps[0]]);
        assert(steps.drop_last().drop_last() =~= Seq::empty());
    } else if steps.len() == 4 {
        assert(steps.drop_last() =~= seq![steps[0], steps[1], steps[2]]);
        assert(steps.drop_last().drop_last() =~= seq![steps[0], steps[1]]);
        assert(steps.drop_last().drop_last().drop_last() =~= seq![steps[0]]);
        assert(steps.drop_last().drop_last().drop_last().drop_last() =~= Seq::empty());
    }
}

/// If every step succeeds, the new file is in use and nothing is left of it
/// beside it. The old one is the backup if it was to be kept.
pub proof fn swap_puts_the_new_file_in_use<T>(files: SwapFiles<T>, preserve_previous: bool)
    requires
        files.temporary is Some,
    ensures
        files.after_all(
            room_steps(
                files.target is Some,
                files.backup is Some,
                preserve_previous,
            ).push(final_step()),
        ) == (SwapFiles {
            target: files.temporary,
            backup: if files.target is Some && preserve_previous {
                files.target
            } else {
                files.backup
            },
            temporary: None,
        }),
{
    room_made(files, preserve_previous);
    let steps = room_steps(files.target is Some, files.backup is Some, preserve_previous);
    assert(steps.push(final_step()).drop_last() =~= steps);
}

/// If the old file was to be kept and the new one could not be put in use, the
/// old one is in use again, and nothing is left of the new one.
pub proof fn failed_swap_restores_the_old_file<T>(files: SwapFiles<T>)
    requires
        files.temporary is Some,
        files.target is Some,
    ensures
        ({
            let stuck = files.after_all(
                room_steps(files.target is Some, files.backup is Some, true),
            );
            let recovered = stuck.after_all(
                recovery_steps(stuck.target is Some, stuck.backup is Some, true),
            );
            &&& recovered.target == files.target
            &&& recovered.temporary is None
        }),
{
    room_made(files, true);
    let stuck = files.after_all(room_steps(files.target is Some, files.backup is Some, true));
    let steps = recovery_steps(stuck.target is Some, stuck.backup is Some, true);
    reveal_with_fuel(SwapFiles::after_all, 3);
    assert(steps.drop_last() =~= seq![steps[0]]);
    assert(steps.drop_last().drop_last() =~= Seq::empty());
}

} // verus!
