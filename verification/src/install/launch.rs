//! How the installer was started.

use vstd::prelude::*;

use crate::model;
use crate::text;

verus! {

/// The name under which the installer hands an update over.
pub const UPDATE_LAUNCHER: &'static str = "QAQ-HarnessUpdate.exe";

/// What the installer is to do.
#[derive(Debug)]
pub enum Launch {
    /// Hands the update that lies beside the executable to the updater of the
    /// usual installation.
    StageBeside,
    /// Installs a patch without a window.
    Patch { source: String, target: String },
    /// Hands an update to the updater of an installation.
    PushUpdate { source: String, target: String },
    /// Installs the embedded archive without a window.
    ApplySelf { target: String },
    /// Shows the wizard.
    Wizard,
}

/// The model of a `Launch`.
#[verifier::ext_equal]
pub enum LaunchView {
    StageBeside,
    Patch { source: Seq<char>, target: Seq<char> },
    PushUpdate { source: Seq<char>, target: Seq<char> },
    ApplySelf { target: Seq<char> },
    Wizard,
}

impl View for Launch {
    type V = LaunchView;

    open spec fn view(&self) -> LaunchView {
        match self {
            Launch::StageBeside => LaunchView::StageBeside,
            Launch::Patch { source, target } => LaunchView::Patch {
                source: source@,
                target: target@,
            },
            Launch::PushUpdate { source, target } => LaunchView::PushUpdate {
                source: source@,
                target: target@,
            },
            Launch::ApplySelf { target } => LaunchView::ApplySelf { target: target@ },
            Launch::Wizard => LaunchView::Wizard,
        }
    }
}

/// Whether an executable of this name hands updates over.
pub open spec fn is_update_launcher(file_name: Option<Seq<char>>) -> bool {
    match file_name {
        Some(name) => text::lowered(name) == text::lowered(UPDATE_LAUNCHER@),
        None => false,
    }
}

/// What the installer is to do. The first argument is the program itself;
/// `catalog_beside` says whether an update lies beside the executable.
pub open spec fn launch_of(
    args: Seq<Seq<char>>,
    file_name: Option<Seq<char>>,
    catalog_beside: bool,
) -> LaunchView {
    if args.len() == 1 && is_update_launcher(file_name) && catalog_beside {
        LaunchView::StageBeside
    } else if args.len() >= 4 && args[1] == "--patch"@ {
        LaunchView::Patch { source: args[2], target: args[3] }
    } else if args.len() >= 4 && args[1] == "--push-update"@ {
        LaunchView::PushUpdate { source: args[2], target: args[3] }
    } else if args.len() >= 3 && args[1] == "--apply-self"@ {
        LaunchView::ApplySelf { target: args[2] }
    } else {
        LaunchView::Wizard
    }
}

/// An argument that names a task and has what the task needs leads to that task,
/// with what was given for it. Anything else shows the wizard, but for a launcher
/// without arguments beside an update.
pub proof fn arguments_name_the_task(
    args: Seq<Seq<char>>,
    file_name: Option<Seq<char>>,
    catalog_beside: bool,
)
    ensures
        ({
            let task = launch_of(args, file_name, catalog_beside);
            let first = if args.len() > 1 {
                args[1]
            } else {
                Seq::empty()
            };
            &&& args.len() >= 4 && first == "--patch"@ ==> task == (LaunchView::Patch {
                source: args[2],
                target: args[3],
            })
            &&& args.len() >= 4 && first == "--push-update"@ ==> task == (LaunchView::PushUpdate {
                source: args[2],
                target: args[3],
            })
            &&& args.len() >= 3 && first == "--apply-self"@ ==> task == (LaunchView::ApplySelf {
                target: args[2],
            })
            &&& task is StageBeside <==> args.len() == 1 && catalog_beside && is_update_launcher(
                file_name,
            )
            &&& first != "--patch"@ && first != "--push-update"@ && first != "--apply-self"@
                && !(task is StageBeside) ==> task is Wizard
            &&& args.len() < 3 && !(task is StageBeside) ==> task is Wizard
            &&& args.len() < 4 && first != "--apply-self"@ && !(task is StageBeside)
                ==> task is Wizard
        }),
{
    reveal_strlit("--patch");
    reveal_strlit("--push-update");
    reveal_strlit("--apply-self");
    assert("--patch"@.len() == 7);
    assert("--push-update"@.len() == 13);
    assert("--apply-self"@.len() == 12);
}

/// `launch_of`, executable.
pub fn launch(args: &[String], file_name: Option<&str>, catalog_beside: bool) -> (r: Launch)
    ensures
        r@ == launch_of(
            model::views(args@),
            match file_name {
                Some(name) => Some(name@),
                None => None,
            },
            catalog_beside,
        ),
{
    let total: usize = args.len();
    let named = match file_name {
        Some(name) => text::same_ignoring_case(name, UPDATE_LAUNCHER),
        None => false,
    };
    if total == 1 && named && catalog_beside {
        return Launch::StageBeside;
    }
    if total >= 4 && text::same(args[1].as_str(), "--patch") {
        return Launch::Patch { source: args[2].clone(), target: args[3].clone() };
    }
    if total >= 4 && text::same(args[1].as_str(), "--push-update") {
        return Launch::PushUpdate { source: args[2].clone(), target: args[3].clone() };
    }
    if total >= 3 && text::same(args[1].as_str(), "--apply-self") {
        return Launch::ApplySelf { target: args[2].clone() };
    }
    Launch::Wizard
}

/// What the user is told after an update was handed over, or was not.
#[derive(Debug)]
pub struct LaunchNotice {
    pub title: String,
    pub message: String,
    pub error: bool,
}

/// What the user is told after an update was handed over, or why it was not.
pub fn staged_notice(failure: Option<&str>) -> (r: LaunchNotice)
    ensures
        r.error == (failure is Some),
        match failure {
            None => r.title@ == "QAQ-Harness 更新"@ && r.message@
                == "更新已安全暂存。QAQ-Harness 正在运行时会显示更新提示；未运行时请启动 QAQ-Harness 完成更新。"@,
            Some(error) => r.title@ == "QAQ-Harness 更新失败"@ && r.message@ == error@
                + "\n\n若尚未安装 QAQ-Harness，请先运行 Full 安装包。"@,
        },
{
    match failure {
        None => LaunchNotice {
            title: "QAQ-Harness 更新".to_owned(),
            message: "更新已安全暂存。QAQ-Harness 正在运行时会显示更新提示；未运行时请启动 QAQ-Harness 完成更新。".to_owned(),
            error: false,
        },
        Some(error) => LaunchNotice {
            title: "QAQ-Harness 更新失败".to_owned(),
            message: text::join2(
                error,
                "\n\n若尚未安装 QAQ-Harness，请先运行 Full 安装包。",
            ),
            error: true,
        },
    }
}

} // verus!
