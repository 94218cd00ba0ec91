//! Where the shell keeps its log files, and what a line of them looks like.

use vstd::prelude::*;

use crate::text;

verus! {

/// A directory for the log files.
#[derive(Debug)]
pub enum LogRoot {
    /// The directory that the user named; it is not probed.
    Redirected { dir: String },
    /// `log` beside the executable in this directory.
    BesideExe { dir: String },
    /// `QAQ-Harness\log` in this directory of the user's.
    UserArea { dir: String },
    /// `qaqh-winui-log` in the directory for temporary files; it is not probed.
    Temporary,
}

/// The model of a `LogRoot`.
#[verifier::ext_equal]
pub enum LogRootView {
    Redirected { dir: Seq<char> },
    BesideExe { dir: Seq<char> },
    UserArea { dir: Seq<char> },
    Temporary,
}

impl View for LogRoot {
    type V = LogRootView;

    open spec fn view(&self) -> LogRootView {
        match self {
            LogRoot::Redirected { dir } => LogRootView::Redirected { dir: dir@ },
            LogRoot::BesideExe { dir } => LogRootView::BesideExe { dir: dir@ },
            LogRoot::UserArea { dir } => LogRootView::UserArea { dir: dir@ },
            LogRoot::Temporary => LogRootView::Temporary,
        }
    }
}

/// What is known of the places for log files: the values of two environment
/// variables, and the directory of the executable.
#[derive(Debug)]
pub struct LogPlaces {
    pub redirect: Option<String>,
    pub exe_dir: Option<String>,
    pub user_area: Option<String>,
}

/// A value that is there and not blank.
pub open spec fn filled(value: Option<String>) -> bool {
    value matches Some(s) && !text::blank(s@)
}

/// The directory to use: the one that the user named, else the first one that
/// can be written of the one beside the executable and the one in the user's
/// area, else the one for temporary files. `beside_ok` and `user_ok` say whether
/// those two can be written.
pub open spec fn chosen_root(p: LogPlaces, beside_ok: bool, user_ok: bool) -> LogRootView {
    if filled(p.redirect) {
        LogRootView::Redirected { dir: p.redirect.unwrap()@ }
    } else if p.exe_dir is Some && beside_ok {
        LogRootView::BesideExe { dir: p.exe_dir.unwrap()@ }
    } else if filled(p.user_area) && user_ok {
        LogRootView::UserArea { dir: p.user_area.unwrap()@ }
    } else {
        LogRootView::Temporary
    }
}

/// Whether a value is there and not blank.
fn is_filled(value: &Option<String>) -> (r: bool)
    ensures
        r == filled(*value),
{
    match value {
        Some(s) => !text::is_blank(s.as_str()),
        None => false,
    }
}

/// `chosen_root`, executable.
pub fn base_dir(p: &LogPlaces, beside_ok: bool, user_ok: bool) -> (r: LogRoot)
    ensures
        r@ == chosen_root(*p, beside_ok, user_ok),
{
    if is_filled(&p.redirect) {
        if let Some(dir) = &p.redirect {
            return LogRoot::Redirected { dir: dir.clone() };
        }
    }
    if beside_ok {
        if let Some(dir) = &p.exe_dir {
            return LogRoot::BesideExe { dir: dir.clone() };
        }
    }
    if user_ok && is_filled(&p.user_area) {
        if let Some(dir) = &p.user_area {
            return LogRoot::UserArea { dir: dir.clone() };
        }
    }
    LogRoot::Temporary
}

/// A directory that was found not to be writable is never used.
pub proof fn unwritable_roots_are_skipped(p: LogPlaces, beside_ok: bool, user_ok: bool)
    ensures
        !beside_ok ==> !(chosen_root(p, beside_ok, user_ok) is BesideExe),
        !user_ok ==> !(chosen_root(p, beside_ok, user_ok) is UserArea),
{
}

/// A line of a log file.
pub fn log_line(ms: u64, msg: &str) -> (r: String)
    ensures
        r@ == "["@ + text::decimal(ms as nat) + "] "@ + msg@ + "\n"@,
{
    let start = text::join3("[", text::decimal_of(ms).as_str(), "] ");
    text::join3(start.as_str(), msg, "\n")
}

/// The name of the log file of a category.
pub fn log_file_name(category: &str) -> (r: String)
    ensures
        r@ == category@ + ".log"@,
{
    text::join2(category, ".log")
}

/// What is written to the log, and where below the directory of the log files.
#[derive(Debug)]
pub struct LogRecord {
    pub folder: String,
    pub file: String,
    pub line: String,
}

/// What is written to the log of a category: each has a folder of its own name
/// with a file in it, to whose end the line goes.
pub fn write(category: &str, ms: u64, msg: &str) -> (r: LogRecord)
    ensures
        r.folder@ == category@,
        r.file@ == category@ + ".log"@,
        r.line@ == "["@ + text::decimal(ms as nat) + "] "@ + msg@ + "\n"@,
{
    LogRecord {
        folder: category.to_owned(),
        file: log_file_name(category),
        line: log_line(ms, msg),
    }
}

/// A directory that the user named is used, whatever else can be written. Without
/// one, the directory beside the executable comes before the one in the user's
/// area, and that one before the one for temporary files.
pub proof fn named_roots_come_first(p: LogPlaces, beside_ok: bool, user_ok: bool)
    ensures
        ({
            let root = chosen_root(p, beside_ok, user_ok);
            let named = p.redirect matches Some(dir) && !text::blank(dir@);
            let beside = p.exe_dir is Some && beside_ok;
            let user = (p.user_area matches Some(dir) && !text::blank(dir@)) && user_ok;
            &&& p.redirect matches Some(dir) ==> (!text::blank(dir@) ==> root
                == (LogRootView::Redirected { dir: dir@ }))
            &&& p.exe_dir matches Some(dir) ==> (!named && beside_ok ==> root
                == (LogRootView::BesideExe { dir: dir@ }))
            &&& p.user_area matches Some(dir) ==> (!named && !beside && user ==> root
                == (LogRootView::UserArea { dir: dir@ }))
            &&& root is Temporary <==> !named && !beside && !user
        }),
{
}

} // verus!
