//! The updater's command line.

use vstd::prelude::*;

use crate::model;
use crate::text;
use crate::text::NumberFault;

verus! {

/// The options of the commands that maintain or remove an installation.
#[derive(Debug)]
pub struct MaintenanceOptions {
    pub install_dir: Option<String>,
    /// The process to wait for.
    pub wait_pid: Option<u32>,
    pub delete_user_data: bool,
    /// Whether the user is told how it ended.
    pub notify: bool,
    pub quiet: bool,
}

/// The model of `MaintenanceOptions`.
#[verifier::ext_equal]
pub struct OptionsView {
    pub install_dir: Option<Seq<char>>,
    pub wait_pid: Option<u32>,
    pub delete_user_data: bool,
    pub notify: bool,
    pub quiet: bool,
}

impl View for MaintenanceOptions {
    type V = OptionsView;

    open spec fn view(&self) -> OptionsView {
        OptionsView {
            install_dir: model::opt_view(self.install_dir),
            wait_pid: self.wait_pid,
            delete_user_data: self.delete_user_data,
            notify: self.notify,
            quiet: self.quiet,
        }
    }
}

/// No option given.
pub open spec fn no_options() -> OptionsView {
    OptionsView {
        install_dir: None,
        wait_pid: None,
        delete_user_data: false,
        notify: false,
        quiet: false,
    }
}

impl Default for MaintenanceOptions {
    fn default() -> (r: MaintenanceOptions)
        ensures
            r@ == no_options(),
    {
        MaintenanceOptions {
            install_dir: None,
            wait_pid: None,
            delete_user_data: false,
            notify: false,
            quiet: false,
        }
    }
}

/// What is wrong with a command line.
#[derive(Debug)]
pub enum OptionError {
    /// `--install-dir` without a directory.
    MissingInstallDir,
    /// `--wait-pid` without a number.
    MissingWaitPid,
    /// What follows `--wait-pid` is no process number.
    InvalidWaitPid { fault: NumberFault },
    UnknownOption { option: String },
    /// The command needs `--wait-pid`.
    WaitPidRequired,
    /// No command has this form.
    InvalidArguments,
}

/// The model of an `OptionError`.
#[verifier::ext_equal]
pub enum OptionErrorView {
    MissingInstallDir,
    MissingWaitPid,
    InvalidWaitPid { fault: NumberFault },
    UnknownOption { option: Seq<char> },
    WaitPidRequired,
    InvalidArguments,
}

impl View for OptionError {
    type V = OptionErrorView;

    open spec fn view(&self) -> OptionErrorView {
        match self {
            OptionError::MissingInstallDir => OptionErrorView::MissingInstallDir,
            OptionError::MissingWaitPid => OptionErrorView::MissingWaitPid,
            OptionError::InvalidWaitPid { fault } => OptionErrorView::InvalidWaitPid {
                fault: *fault,
            },
            OptionError::UnknownOption { option } => OptionErrorView::UnknownOption {
                option: option@,
            },
            OptionError::WaitPidRequired => OptionErrorView::WaitPidRequired,
            OptionError::InvalidArguments => OptionErrorView::InvalidArguments,
        }
    }
}

impl OptionError {
    /// What the user is told.
    pub fn message(&self) -> (r: String)
        ensures
            r@ == (match self@ {
                OptionErrorView::MissingInstallDir => "--install-dir requires a value"@,
                OptionErrorView::MissingWaitPid => "--wait-pid requires a value"@,
                OptionErrorView::InvalidWaitPid { fault } => text::number_message(fault),
                OptionErrorView::UnknownOption { option } => "unknown maintenance option: "@
                    + option,
                OptionErrorView::WaitPidRequired => "uninstall-worker requires --wait-pid"@,
                OptionErrorView::InvalidArguments => "invalid arguments"@,
            }),
    {
        match self {
            OptionError::MissingInstallDir => "--install-dir requires a value".to_owned(),
            OptionError::MissingWaitPid => "--wait-pid requires a value".to_owned(),
            OptionError::InvalidWaitPid { fault } => fault.message().to_owned(),
            OptionError::UnknownOption { option } => text::join2(
                "unknown maintenance option: ",
                option.as_str(),
            ),
            OptionError::WaitPidRequired => "uninstall-worker requires --wait-pid".to_owned(),
            OptionError::InvalidArguments => "invalid arguments".to_owned(),
        }
    }
}

/// What is wrong with a text that is no process number.
pub open spec fn wrong_number(value: Seq<char>) -> OptionErrorView {
    OptionErrorView::InvalidWaitPid { fault: text::number_fault(value).unwrap() }
}

/// The options after `args` were read, given those that were read before them.
pub open spec fn options_from(o: OptionsView, args: Seq<Seq<char>>) -> Result<
    OptionsView,
    OptionErrorView,
>
    decreases args.len(),
{
    if args.len() == 0 {
        Ok(o)
    } else if args[0] == "--install-dir"@ {
        if args.len() < 2 {
            Err(OptionErrorView::MissingInstallDir)
        } else {
            options_from(OptionsView { install_dir: Some(args[1]), ..o }, args.skip(2))
        }
    } else if args[0] == "--wait-pid"@ {
        if args.len() < 2 {
            Err(OptionErrorView::MissingWaitPid)
        } else {
            match text::number_in(args[1]) {
                Some(pid) => options_from(
                    OptionsView { wait_pid: Some(pid), ..o },
                    args.skip(2),
                ),
                None => Err(wrong_number(args[1])),
            }
        }
    } else if args[0] == "--delete-user-data"@ {
        options_from(OptionsView { delete_user_data: true, ..o }, args.skip(1))
    } else if args[0] == "--notify"@ || args[0] == "--interactive"@ {
        options_from(OptionsView { notify: true, ..o }, args.skip(1))
    } else if args[0] == "--quiet"@ {
        options_from(OptionsView { quiet: true, ..o }, args.skip(1))
    } else {
        Err(OptionErrorView::UnknownOption { option: args[0] })
    }
}

/// Whether an executable result is what the model says.
pub open spec fn agrees(
    r: Result<MaintenanceOptions, OptionError>,
    wanted: Result<OptionsView, OptionErrorView>,
) -> bool {
    match (r, wanted) {
        (Ok(options), Ok(view)) => options@ == view,
        (Err(error), Err(view)) => error@ == view,
        _ => false,
    }
}

impl MaintenanceOptions {
    /// Reads options.
    pub fn parse(args: &[String]) -> (r: Result<MaintenanceOptions, OptionError>)
        ensures
            agrees(r, options_from(no_options(), model::views(args@))),
    {
        let mut options = MaintenanceOptions::default();
        let total: usize = args.len();
        let mut index: usize = 0;
        let ghost all = model::views(args@);
        assert(all.skip(0) =~= all);
        while index < total
            invariant
                index <= total,
                total == args@.len(),
                all == model::views(args@),
                options_from(no_options(), all) == options_from(
                    options@,
                    all.skip(index as int),
                ),
            decreases total - index,
        {
            let ghost rest = all.skip(index as int);
            assert(rest[0] == args@[index as int]@);
            assert(rest.skip(1) =~= all.skip(index + 1));
            assert(index + 1 < total ==> rest[1] == args@[index + 1]@ && rest.skip(2)
                =~= all.skip(index + 2));
            let option = args[index].as_str();
            if text::same(option, "--install-dir") {
                if index + 1 >= total {
                    return Err(OptionError::MissingInstallDir);
                }
                index = index + 1;
                options.install_dir = Some(args[index].clone());
            } else if text::same(option, "--wait-pid") {
                if index + 1 >= total {
                    return Err(OptionError::MissingWaitPid);
                }
                index = index + 1;
                match text::read_u32(args[index].as_str()) {
                    Ok(pid) => {
                        options.wait_pid = Some(pid);
                    },
                    Err(fault) => {
                        return Err(OptionError::InvalidWaitPid { fault });
                    },
                }
            } else if text::same(option, "--delete-user-data") {
                options.delete_user_data = true;
            } else if text::same(option, "--notify") || text::same(option, "--interactive") {
                options.notify = true;
            } else if text::same(option, "--quiet") {
                options.quiet = true;
            } else {
                return Err(OptionError::UnknownOption { option: args[index].clone() });
            }
            index = index + 1;
        }
        assert(all.skip(total as int).len() == 0);
        Ok(options)
    }

    /// The installation that is meant: the one that was named, else the one that
    /// the updater belongs to.
    pub fn target(&self, own: Result<String, String>) -> (r: Result<String, String>)
        ensures
            match self@.install_dir {
                Some(dir) => r matches Ok(named) && named@ == dir,
                None => r == own,
            },
    {
        match &self.install_dir {
            Some(dir) => Ok(dir.clone()),
            None => own,
        }
    }
}

// ---------------------------------------------------------------------------
// Commands
// ---------------------------------------------------------------------------

/// What the updater is told to do.
#[derive(Debug)]
pub enum UpdaterCommand {
    Maintain { options: MaintenanceOptions },
    Uninstall { options: MaintenanceOptions },
    UninstallWorker { options: MaintenanceOptions, wait_pid: u32 },
    Handoff { operation: String, target: String, pid: String, relaunch: String },
    /// Applies a staged operation, if need be after a process has ended.
    ApplyStaged { operation: String, target: String, after: Option<(u32, String)> },
    RollbackStaged { operation: String, target: String },
    Stage { source: String, target: String },
    Plan { source: String, target: String },
    Inspect { source: String },
}

/// The model of an `UpdaterCommand`.
#[verifier::ext_equal]
pub enum CommandView {
    Maintain { options: OptionsView },
    Uninstall { options: OptionsView },
    UninstallWorker { options: OptionsView, wait_pid: u32 },
    Handoff { operation: Seq<char>, target: Seq<char>, pid: Seq<char>, relaunch: Seq<char> },
    ApplyStaged { operation: Seq<char>, target: Seq<char>, after: Option<(u32, Seq<char>)> },
    RollbackStaged { operation: Seq<char>, target: Seq<char> },
    Stage { source: Seq<char>, target: Seq<char> },
    Plan { source: Seq<char>, target: Seq<char> },
    Inspect { source: Seq<char> },
}

impl View for UpdaterCommand {
    type V = CommandView;

    open spec fn view(&self) -> CommandView {
        match self {
            UpdaterCommand::Maintain { options } => CommandView::Maintain { options: options@ },
            UpdaterCommand::Uninstall { options } => CommandView::Uninstall { options: options@ },
            UpdaterCommand::UninstallWorker { options, wait_pid } => CommandView::UninstallWorker {
                options: options@,
                wait_pid: *wait_pid,
            },
            UpdaterCommand::Handoff { operation, target, pid, relaunch } => CommandView::Handoff {
                operation: operation@,
                target: target@,
                pid: pid@,
                relaunch: relaunch@,
            },
            UpdaterCommand::ApplyStaged { operation, target, after } => CommandView::ApplyStaged {
                operation: operation@,
                target: target@,
                after: match after {
                    Some((pid, relaunch)) => Some((*pid, relaunch@)),
                    None => None,
                },
            },
            UpdaterCommand::RollbackStaged { operation, target } => CommandView::RollbackStaged {
                operation: operation@,
                target: target@,
            },
            UpdaterCommand::Stage { source, target } => CommandView::Stage {
                source: source@,
                target: target@,
            },
            UpdaterCommand::Plan { source, target } => CommandView::Plan {
                source: source@,
                target: target@,
            },
            UpdaterCommand::Inspect { source } => CommandView::Inspect { source: source@ },
        }
    }
}

/// What a command line with options says.
pub open spec fn option_command(args: Seq<Seq<char>>) -> Result<CommandView, OptionErrorView> {
    match options_from(no_options(), args.skip(1)) {
        Err(error) => Err(error),
        Ok(options) => if args[0] == "maintain"@ {
            Ok(CommandView::Maintain { options })
        } else if args[0] == "uninstall"@ {
            Ok(CommandView::Uninstall { options })
        } else {
            match options.wait_pid {
                Some(wait_pid) => Ok(CommandView::UninstallWorker { options, wait_pid }),
                None => Err(OptionErrorView::WaitPidRequired),
            }
        },
    }
}

/// What a command line without options says.
pub open spec fn plain_command(args: Seq<Seq<char>>) -> Result<CommandView, OptionErrorView> {
    if args.len() == 5 && args[0] == "handoff"@ {
        match text::number_in(args[3]) {
            Some(_) => Ok(
                CommandView::Handoff {
                    operation: args[1],
                    target: args[2],
                    pid: args[3],
                    relaunch: args[4],
                },
            ),
            None => Err(wrong_number(args[3])),
        }
    } else if args.len() == 7 && args[0] == "apply-staged"@ && args[3] == "--wait-pid"@ && args[5]
        == "--relaunch"@ {
        match text::number_in(args[4]) {
            Some(pid) => Ok(
                CommandView::ApplyStaged {
                    operation: args[1],
                    target: args[2],
                    after: Some((pid, args[6])),
                },
            ),
            None => Err(wrong_number(args[4])),
        }
    } else if args.len() == 3 && args[0] == "apply-staged"@ {
        Ok(CommandView::ApplyStaged { operation: args[1], target: args[2], after: None })
    } else if args.len() == 3 && args[0] == "rollback-staged"@ {
        Ok(CommandView::RollbackStaged { operation: args[1], target: args[2] })
    } else if args.len() == 3 && args[0] == "stage"@ {
        Ok(CommandView::Stage { source: args[1], target: args[2] })
    } else if args.len() == 3 && args[0] == "plan"@ {
        Ok(CommandView::Plan { source: args[1], target: args[2] })
    } else if args.len() == 2 && args[0] == "inspect"@ {
        Ok(CommandView::Inspect { source: args[1] })
    } else {
        Err(OptionErrorView::InvalidArguments)
    }
}

/// Whether a command takes options.
pub open spec fn takes_options(command: Seq<char>) -> bool {
    command == "maintain"@ || command == "uninstall"@ || command == "uninstall-worker"@
}

/// What a command line says.
pub open spec fn command_of(args: Seq<Seq<char>>) -> Result<CommandView, OptionErrorView> {
    if args.len() > 0 && takes_options(args[0]) {
        option_command(args)
    } else {
        plain_command(args)
    }
}

/// Whether an executable command is what the model says.
pub open spec fn command_agrees(
    r: Result<UpdaterCommand, OptionError>,
    wanted: Result<CommandView, OptionErrorView>,
) -> bool {
    match (r, wanted) {
        (Ok(command), Ok(view)) => command@ == view,
        (Err(error), Err(view)) => error@ == view,
        _ => false,
    }
}

/// Reads a command line whose command takes options.
fn parse_option_command(args: &[String]) -> (r: Result<UpdaterCommand, OptionError>)
    requires
        args@.len() > 0,
        takes_options(args@[0]@),
    ensures
        command_agrees(r, option_command(model::views(args@))),
{
    let total: usize = args.len();
    let ghost all = model::views(args@);
    let rest = vstd::slice::slice_subrange(args, 1, total);
    assert(model::views(rest@) =~= all.skip(1));
    let options = match MaintenanceOptions::parse(rest) {
        Ok(options) => options,
        Err(error) => {
            return Err(error);
        },
    };
    assert(all[0] == args@[0]@);
    let command = args[0].as_str();
    if text::same(command, "maintain") {
        Ok(UpdaterCommand::Maintain { options })
    } else if text::same(command, "uninstall") {
        Ok(UpdaterCommand::Uninstall { options })
    } else {
        match options.wait_pid {
            Some(wait_pid) => Ok(UpdaterCommand::UninstallWorker { options, wait_pid }),
            None => Err(OptionError::WaitPidRequired),
        }
    }
}

/// Reads a command line without options.
fn parse_plain_command(args: &[String]) -> (r: Result<UpdaterCommand, OptionError>)
    ensures
        command_agrees(r, plain_command(model::views(args@))),
{
    let total: usize = args.len();
    let ghost all = model::views(args@);
    assert(forall|i: int| 0 <= i < all.len() ==> #[trigger] all[i] == args@[i]@);
    if total == 5 && text::same(args[0].as_str(), "handoff") {
        return match text::read_u32(args[3].as_str()) {
            Ok(_) => Ok(
                UpdaterCommand::Handoff {
                    operation: args[1].clone(),
                    target: args[2].clone(),
                    pid: args[3].clone(),
                    relaunch: args[4].clone(),
                },
            ),
            Err(fault) => Err(OptionError::InvalidWaitPid { fault }),
        };
    }
    if total == 7 && text::same(args[0].as_str(), "apply-staged") && text::same(
        args[3].as_str(),
        "--wait-pid",
    ) && text::same(args[5].as_str(), "--relaunch") {
        return match text::read_u32(args[4].as_str()) {
            Ok(pid) => Ok(
                UpdaterCommand::ApplyStaged {
                    operation: args[1].clone(),
                    target: args[2].clone(),
                    after: Some((pid, args[6].clone())),
                },
            ),
            Err(fault) => Err(OptionError::InvalidWaitPid { fault }),
        };
    }
    if total == 3 {
        let command = args[0].as_str();
        let first = args[1].clone();
        let target = args[2].clone();
        if text::same(command, "apply-staged") {
            return Ok(UpdaterCommand::ApplyStaged { operation: first, target, after: None });
        }
        if text::same(command, "rollback-staged") {
            return Ok(UpdaterCommand::RollbackStaged { operation: first, target });
        }
        if text::same(command, "stage") {
            return Ok(UpdaterCommand::Stage { source: first, target });
        }
        if text::same(command, "plan") {
            return Ok(UpdaterCommand::Plan { source: first, target });
        }
        return Err(OptionError::InvalidArguments);
    }
    if total == 2 && text::same(args[0].as_str(), "inspect") {
        return Ok(UpdaterCommand::Inspect { source: args[1].clone() });
    }
    Err(OptionError::InvalidArguments)
}

/// Reads the updater's command line, without the name of the program.
pub fn run(args: &[String]) -> (r: Result<UpdaterCommand, OptionError>)
    ensures
        command_agrees(r, command_of(model::views(args@))),
{
    let total: usize = args.len();
    let ghost all = model::views(args@);
    if total > 0 {
        assert(all[0] == args@[0]@);
        let command = args[0].as_str();
        if text::same(command, "maintain") || text::same(command, "uninstall") || text::same(
            command,
            "uninstall-worker",
        ) {
            return parse_option_command(args);
        }
    }
    parse_plain_command(args)
}

// ---------------------------------------------------------------------------
// Command lines that the product itself writes
// ---------------------------------------------------------------------------

/// The arguments of the process that removes an installation.
pub open spec fn worker_arguments_of(
    target: Seq<char>,
    pid: u32,
    delete_user_data: bool,
    notify: bool,
) -> Seq<Seq<char>> {
    seq![
        "uninstall-worker"@,
        "--install-dir"@,
        target,
        "--wait-pid"@,
        text::decimal(pid as nat),
    ] + (if delete_user_data {
        seq!["--delete-user-data"@]
    } else {
        Seq::empty()
    }) + (if notify {
        seq!["--notify"@]
    } else {
        Seq::empty()
    })
}

/// `worker_arguments_of`, executable.
pub fn worker_arguments(target: &str, pid: u32, delete_user_data: bool, notify: bool) -> (r: Vec<
    String,
>)
    ensures
        model::views(r@) == worker_arguments_of(target@, pid, delete_user_data, notify),
{
    let mut out: Vec<String> = Vec::new();
    out.push("uninstall-worker".to_owned());
    out.push("--install-dir".to_owned());
    out.push(target.to_owned());
    out.push("--wait-pid".to_owned());
    out.push(text::decimal_of(pid as u64));
    if delete_user_data {
        out.push("--delete-user-data".to_owned());
    }
    if notify {
        out.push("--notify".to_owned());
    }
    assert(model::views(out@) =~= worker_arguments_of(target@, pid, delete_user_data, notify));
    out
}

/// The arguments of the process that applies a staged update once the program that
/// asked for it has ended.
pub open spec fn apply_arguments_of(
    operation: Seq<char>,
    target: Seq<char>,
    pid: Seq<char>,
    relaunch: Seq<char>,
) -> Seq<Seq<char>> {
    seq!["apply-staged"@, operation, target, "--wait-pid"@, pid, "--relaunch"@, relaunch]
}

/// `apply_arguments_of`, executable.
pub fn apply_arguments(operation: &str, target: &str, pid: &str, relaunch: &str) -> (r: Vec<String>)
    ensures
        model::views(r@) == apply_arguments_of(operation@, target@, pid@, relaunch@),
{
    let mut out: Vec<String> = Vec::new();
    out.push("apply-staged".to_owned());
    out.push(operation.to_owned());
    out.push(target.to_owned());
    out.push("--wait-pid".to_owned());
    out.push(pid.to_owned());
    out.push("--relaunch".to_owned());
    out.push(relaunch.to_owned());
    assert(model::views(out@) =~= apply_arguments_of(operation@, target@, pid@, relaunch@));
    out
}

/// The process that an update is handed to applies the update that was handed
/// over, after the program that was named, and starts the one that was named.
pub proof fn handed_over_updates_are_applied(
    operation: Seq<char>,
    target: Seq<char>,
    pid: Seq<char>,
    relaunch: Seq<char>,
    handed: Seq<Seq<char>>,
)
    requires
        handed == seq!["handoff"@, operation, target, pid, relaunch],
        command_of(handed) is Ok,
    ensures
        command_of(handed) == Ok::<CommandView, OptionErrorView>(
            CommandView::Handoff { operation, target, pid, relaunch },
        ),
        command_of(apply_arguments_of(operation, target, pid, relaunch)) == Ok::<
            CommandView,
            OptionErrorView,
        >(
            CommandView::ApplyStaged {
                operation,
                target,
                after: Some((text::number_in(pid).unwrap(), relaunch)),
            },
        ),
{
    reveal_strlit("handoff");
    reveal_strlit("apply-staged");
    reveal_strlit("maintain");
    reveal_strlit("uninstall");
    reveal_strlit("uninstall-worker");
    assert("handoff"@.len() == 7);
    assert("apply-staged"@.len() == 12);
    assert("maintain"@.len() == 8);
    assert("uninstall"@.len() == 9);
    assert("uninstall-worker"@.len() == 16);
}

/// The words of the literals that the options are told apart by.
proof fn options_differ()
    ensures
        "--install-dir"@ != "--wait-pid"@,
        "--delete-user-data"@ != "--install-dir"@,
        "--delete-user-data"@ != "--wait-pid"@,
        "--notify"@ != "--install-dir"@,
        "--notify"@ != "--wait-pid"@,
        "--notify"@ != "--delete-user-data"@,
        "--interactive"@ != "--install-dir"@,
        "--interactive"@ != "--wait-pid"@,
        "--interactive"@ != "--delete-user-data"@,
        "--quiet"@ != "--install-dir"@,
        "--quiet"@ != "--wait-pid"@,
        "--quiet"@ != "--delete-user-data"@,
        "--quiet"@ != "--notify"@,
        "--quiet"@ != "--interactive"@,
        "uninstall-worker"@ != "maintain"@,
        "uninstall-worker"@ != "uninstall"@,
{
    reveal_strlit("--install-dir");
    reveal_strlit("--wait-pid");
    reveal_strlit("--delete-user-data");
    reveal_strlit("--notify");
    reveal_strlit("--interactive");
    reveal_strlit("--quiet");
    reveal_strlit("uninstall-worker");
    reveal_strlit("maintain");
    reveal_strlit("uninstall");
    assert("--install-dir"@[2] == 'i');
    assert("--wait-pid"@[2] == 'w');
    assert("--delete-user-data"@[2] == 'd');
    assert("--notify"@[2] == 'n');
    assert("--interactive"@[4] == 't');
    assert("--install-dir"@[4] == 's');
    assert("--interactive"@[2] == 'i');
    assert("--quiet"@[2] == 'q');
    assert("uninstall-worker"@.len() == 16);
    assert("maintain"@.len() == 8);
    assert("uninstall"@.len() == 9);
}

/// The notation of a number holds digits only and stands for the number.
proof fn decimal_is_read_back(n: nat)
    ensures
        text::decimal(n).len() > 0,
        text::all_digits(text::decimal(n)),
        text::digits_value(text::decimal(n)) == n,
    decreases n,
{
    let s = text::decimal(n);
    reveal_with_fuel(text::digits_value, 2);
    if n < 10 {
        assert(s.drop_last() =~= Seq::empty());
        assert(s.last() == text::digit(n));
    } else {
        decimal_is_read_back(n / 10);
        assert(s.drop_last() =~= text::decimal(n / 10));
        assert(s.last() == text::digit(n % 10));
        assert forall|i: int| 0 <= i < s.len() implies text::is_digit(#[trigger] s[i]) by {
            if i < s.len() - 1 {
                assert(s[i] == text::decimal(n / 10)[i]);
            }
        }
    }
}

/// The notation of a process number is read back as that number.
pub proof fn process_number_is_read_back(pid: u32)
    ensures
        text::number_in(text::decimal(pid as nat)) == Some(pid),
{
    let s = text::decimal(pid as nat);
    decimal_is_read_back(pid as nat);
    reveal_strlit("+");
    assert(text::behind_prefix(s, "+"@) is None) by {
        assert(text::is_digit(s[0]));
        if text::has_prefix(s, "+"@) {
            assert(s.subrange(0, 1)[0] == "+"@[0]);
        }
    }
}

/// The process that removes an installation is told what its caller was: its
/// command line is read back as that.
pub proof fn worker_is_told_what_was_asked(
    target: Seq<char>,
    pid: u32,
    delete_user_data: bool,
    notify: bool,
)
    ensures
        command_of(worker_arguments_of(target, pid, delete_user_data, notify)) == Ok::<
            CommandView,
            OptionErrorView,
        >(
            CommandView::UninstallWorker {
                options: OptionsView {
                    install_dir: Some(target),
                    wait_pid: Some(pid),
                    delete_user_data,
                    notify,
                    quiet: false,
                },
                wait_pid: pid,
            },
        ),
{
    let args = worker_arguments_of(target, pid, delete_user_data, notify);
    let rest = args.skip(1);
    let none = no_options();
    options_differ();
    process_number_is_read_back(pid);
    let after_dir = OptionsView { install_dir: Some(target), ..none };
    let after_pid = OptionsView { wait_pid: Some(pid), ..after_dir };
    let after_data = OptionsView { delete_user_data, ..after_pid };
    let after_notify = OptionsView { notify, ..after_data };
    let tail = rest.skip(2);
    let flags = tail.skip(2);
    assert(rest[0] == "--install-dir"@ && rest[1] == target);
    assert(options_from(none, rest) == options_from(after_dir, tail));
    assert(tail[0] == "--wait-pid"@ && tail[1] == text::decimal(pid as nat));
    assert(options_from(after_dir, tail) == options_from(after_pid, flags));
    let last = if delete_user_data {
        flags.skip(1)
    } else {
        flags
    };
    if delete_user_data {
        assert(flags[0] == "--delete-user-data"@);
    } else {
        assert(flags.len() == (if notify {
            1nat
        } else {
            0
        }));
    }
    assert(options_from(after_pid, flags) == options_from(after_data, last));
    if notify {
        assert(last.len() == 1 && last[0] == "--notify"@);
        assert(last.skip(1).len() == 0);
        assert(options_from(after_data, last) == options_from(after_notify, last.skip(1)));
    } else {
        assert(last.len() == 0);
    }
}

/// The command lines under which an installation is registered are read back as
/// options for that installation.
pub proof fn registered_commands_are_understood(install_path: Seq<char>)
    ensures
        options_from(no_options(), seq!["--interactive"@, "--install-dir"@, install_path]) == Ok::<
            OptionsView,
            OptionErrorView,
        >(OptionsView { install_dir: Some(install_path), notify: true, ..no_options() }),
        options_from(no_options(), seq!["--quiet"@, "--install-dir"@, install_path]) == Ok::<
            OptionsView,
            OptionErrorView,
        >(OptionsView { install_dir: Some(install_path), quiet: true, ..no_options() }),
{
    options_differ();
    let a = seq!["--interactive"@, "--install-dir"@, install_path];
    let b = seq!["--quiet"@, "--install-dir"@, install_path];
    let rest = seq!["--install-dir"@, install_path];
    assert(a.skip(1) =~= rest);
    assert(b.skip(1) =~= rest);
    assert(rest.skip(2).len() == 0);
    reveal_with_fuel(options_from, 4);
}

/// Options are read one after the other: what stands behind options that could be read
/// is read as if those had been there before.
pub proof fn options_are_read_in_order(
    o: OptionsView,
    first: Seq<Seq<char>>,
    rest: Seq<Seq<char>>,
)
    ensures
        options_from(o, first) matches Ok(known) ==> options_from(o, first + rest) == options_from(
            known,
            rest,
        ),
    decreases first.len(),
{
    let whole = first + rest;
    if first.len() == 0 {
        assert(whole =~= rest);
    } else {
        assert(whole[0] == first[0]);
        assert(whole.skip(1) =~= first.skip(1) + rest);
        options_differ();
        if first.len() >= 2 {
            assert(whole[1] == first[1]);
            assert(whole.skip(2) =~= first.skip(2) + rest);
            options_are_read_in_order(
                OptionsView { install_dir: Some(first[1]), ..o },
                first.skip(2),
                rest,
            );
            if let Some(pid) = text::number_in(first[1]) {
                options_are_read_in_order(
                    OptionsView { wait_pid: Some(pid), ..o },
                    first.skip(2),
                    rest,
                );
            }
        }
        options_are_read_in_order(
            OptionsView { delete_user_data: true, ..o },
            first.skip(1),
            rest,
        );
        options_are_read_in_order(OptionsView { notify: true, ..o }, first.skip(1), rest);
        options_are_read_in_order(OptionsView { quiet: true, ..o }, first.skip(1), rest);
    }
}

/// Each option sets what it is named after and leaves the rest. A directory and a
/// process number have to follow their options.
pub proof fn each_option_sets_its_own(o: OptionsView, value: Seq<char>, pid: u32)
    ensures
        options_from(o, seq!["--install-dir"@, value]) == Ok::<OptionsView, OptionErrorView>(
            OptionsView { install_dir: Some(value), ..o },
        ),
        options_from(o, seq!["--wait-pid"@, text::decimal(pid as nat)]) == Ok::<
            OptionsView,
            OptionErrorView,
        >(OptionsView { wait_pid: Some(pid), ..o }),
        options_from(o, seq!["--delete-user-data"@]) == Ok::<OptionsView, OptionErrorView>(
            OptionsView { delete_user_data: true, ..o },
        ),
        options_from(o, seq!["--notify"@]) == Ok::<OptionsView, OptionErrorView>(
            OptionsView { notify: true, ..o },
        ),
        options_from(o, seq!["--interactive"@]) == Ok::<OptionsView, OptionErrorView>(
            OptionsView { notify: true, ..o },
        ),
        options_from(o, seq!["--quiet"@]) == Ok::<OptionsView, OptionErrorView>(
            OptionsView { quiet: true, ..o },
        ),
        options_from(o, seq!["--install-dir"@]) == Err::<OptionsView, OptionErrorView>(
            OptionErrorView::MissingInstallDir,
        ),
        options_from(o, seq!["--wait-pid"@]) == Err::<OptionsView, OptionErrorView>(
            OptionErrorView::MissingWaitPid,
        ),
{
    options_differ();
    process_number_is_read_back(pid);
    reveal_with_fuel(options_from, 2);
    assert(seq!["--install-dir"@, value].skip(2).len() == 0);
    assert(seq!["--wait-pid"@, text::decimal(pid as nat)].skip(2).len() == 0);
    assert(seq!["--delete-user-data"@].skip(1).len() == 0);
    assert(seq!["--notify"@].skip(1).len() == 0);
    assert(seq!["--interactive"@].skip(1).len() == 0);
    assert(seq!["--quiet"@].skip(1).len() == 0);
}

/// A command names its task, and what follows it is what the task is done with. The
/// process that removes the product has to know whom to wait for.
pub proof fn commands_name_their_task(a: Seq<char>, b: Seq<char>)
    ensures
        command_of(seq!["apply-staged"@, a, b]) == Ok::<CommandView, OptionErrorView>(
            CommandView::ApplyStaged { operation: a, target: b, after: None },
        ),
        command_of(seq!["rollback-staged"@, a, b]) == Ok::<CommandView, OptionErrorView>(
            CommandView::RollbackStaged { operation: a, target: b },
        ),
        command_of(seq!["stage"@, a, b]) == Ok::<CommandView, OptionErrorView>(
            CommandView::Stage { source: a, target: b },
        ),
        command_of(seq!["plan"@, a, b]) == Ok::<CommandView, OptionErrorView>(
            CommandView::Plan { source: a, target: b },
        ),
        command_of(seq!["inspect"@, a]) == Ok::<CommandView, OptionErrorView>(
            CommandView::Inspect { source: a },
        ),
        command_of(Seq::empty()) == Err::<CommandView, OptionErrorView>(
            OptionErrorView::InvalidArguments,
        ),
        command_of(seq!["uninstall-worker"@]) == Err::<CommandView, OptionErrorView>(
            OptionErrorView::WaitPidRequired,
        ),
        command_of(seq!["maintain"@]) == Ok::<CommandView, OptionErrorView>(
            CommandView::Maintain { options: no_options() },
        ),
        command_of(seq!["uninstall"@]) == Ok::<CommandView, OptionErrorView>(
            CommandView::Uninstall { options: no_options() },
        ),
{
    options_differ();
    reveal_strlit("apply-staged");
    reveal_strlit("rollback-staged");
    reveal_strlit("stage");
    reveal_strlit("plan");
    reveal_strlit("inspect");
    reveal_strlit("maintain");
    reveal_strlit("uninstall");
    reveal_strlit("uninstall-worker");
    assert("apply-staged"@.len() == 12);
    assert("rollback-staged"@.len() == 15);
    assert("stage"@.len() == 5);
    assert("plan"@.len() == 4);
    assert("inspect"@.len() == 7);
    assert("maintain"@.len() == 8);
    assert("uninstall"@.len() == 9);
    assert("uninstall-worker"@.len() == 16);
    assert(seq!["uninstall-worker"@].skip(1).len() == 0);
    assert(seq!["maintain"@].skip(1).len() == 0);
    assert(seq!["uninstall"@].skip(1).len() == 0);
}

} // verus!
