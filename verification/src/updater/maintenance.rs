//! The maintenance window: staging an update, and removing the product after the
//! user confirmed it.

use vstd::prelude::*;

use crate::json::{Json, JsonView};
use crate::model;
use crate::text;

verus! {

/// The maintenance window's state.
#[derive(Debug)]
pub struct MaintenancePage {
    /// The installation that is maintained.
    pub target: String,
    /// Where the user says an update is.
    pub source: String,
    /// What is known of the installation.
    pub installation: String,
    pub status: String,
    pub confirm_uninstall: bool,
    pub delete_user_data: bool,
}

/// The model of a `MaintenancePage`.
#[verifier::ext_equal]
pub struct PageView {
    pub target: Seq<char>,
    pub source: Seq<char>,
    pub installation: Seq<char>,
    pub status: Seq<char>,
    pub confirm_uninstall: bool,
    pub delete_user_data: bool,
}

impl View for MaintenancePage {
    type V = PageView;

    open spec fn view(&self) -> PageView {
        PageView {
            target: self.target@,
            source: self.source@,
            installation: self.installation@,
            status: self.status@,
            confirm_uninstall: self.confirm_uninstall,
            delete_user_data: self.delete_user_data,
        }
    }
}

/// How many components an installation has.
pub open spec fn component_count(state: JsonView) -> nat {
    match state.field("components"@) {
        Some(JsonView::Object(fields)) => fields.len(),
        _ => 0,
    }
}

/// What is said of an installation, given what its state file holds.
pub open spec fn summary_of(state: Option<JsonView>) -> Seq<char> {
    match state {
        Some(state) => "当前版本："@ + (match state.text_field("releaseId"@) {
            Some(release) => release,
            None => "未知"@,
        }) + "；已安装组件："@ + text::decimal(component_count(state)),
        None => "未能读取 install-state.json。"@,
    }
}

/// `summary_of`, executable.
pub fn installation_summary(state: Option<&Json>) -> (r: String)
    ensures
        r@ == summary_of(
            match state {
                Some(state) => Some(state@),
                None => None,
            },
        ),
{
    match state {
        Some(state) => {
            let release = match state.text_field("releaseId") {
                Some(release) => release,
                None => "未知".to_owned(),
            };
            let count: usize = match state.get("components") {
                Some(Json::Object(fields)) => fields.len(),
                _ => 0,
            };
            let start = text::join3("当前版本：", release.as_str(), "；已安装组件：");
            text::join2(start.as_str(), text::decimal_of(count as u64).as_str())
        },
        None => "未能读取 install-state.json。".to_owned(),
    }
}

/// The window at its start.
pub open spec fn opened(
    target: Seq<char>,
    installation: Seq<char>,
    confirm_uninstall: bool,
) -> PageView {
    PageView {
        target,
        source: Seq::empty(),
        installation,
        status: "维护程序已就绪。"@,
        confirm_uninstall,
        delete_user_data: false,
    }
}

/// What is said after an attempt to stage an update.
pub open spec fn stage_status(failure: Option<Seq<char>>) -> Seq<char> {
    match failure {
        None => "更新已暂存；启动或重启 QAQ-Harness 后完成应用。"@,
        Some(error) => "更新暂存失败："@ + error,
    }
}

/// Whether a status tells of a problem.
pub open spec fn is_problem(status: Seq<char>) -> bool {
    text::has_part(status, "失败"@) || text::has_part(status, "无法"@) || text::has_part(
        status,
        "请先"@,
    )
}

/// A part that stands at a known place stands somewhere.
proof fn part_is_there(s: Seq<char>, part: Seq<char>, at: int)
    requires
        text::occurs_at(s, part, at),
    ensures
        text::has_part(s, part),
{
}

/// Every failure is shown as a problem: that no update was named, that it could
/// not be staged, and that the removal could not be started.
pub proof fn failures_are_shown_as_problems(error: Seq<char>)
    ensures
        is_problem("请先输入 update-source 目录。"@),
        is_problem(stage_status(Some(error))),
        is_problem("无法启动卸载："@ + error),
{
    reveal_strlit("请先输入 update-source 目录。");
    reveal_strlit("请先");
    reveal_strlit("更新暂存失败：");
    reveal_strlit("失败");
    reveal_strlit("无法启动卸载：");
    reveal_strlit("无法");
    let a = "请先输入 update-source 目录。"@;
    assert(a.subrange(0, 2) =~= "请先"@);
    part_is_there(a, "请先"@, 0);
    let b = stage_status(Some(error));
    assert(b.subrange(4, 6) =~= "失败"@);
    part_is_there(b, "失败"@, 4);
    let c = "无法启动卸载："@ + error;
    assert(c.subrange(0, 2) =~= "无法"@);
    part_is_there(c, "无法"@, 0);
}

/// The window opens with nothing to stage, nothing said against it, and no user
/// data marked for removal. It asks about the removal only where that was asked
/// for.
pub proof fn window_opens_harmlessly(
    target: Seq<char>,
    installation: Seq<char>,
    confirm_uninstall: bool,
)
    ensures
        opened(target, installation, confirm_uninstall).target == target,
        opened(target, installation, confirm_uninstall).installation == installation,
        opened(target, installation, confirm_uninstall).source.len() == 0,
        !opened(target, installation, confirm_uninstall).delete_user_data,
        opened(target, installation, confirm_uninstall).confirm_uninstall == confirm_uninstall,
{
}

/// A problem is told by one of three words, standing anywhere in the status, and
/// by nothing else.
pub proof fn problems_are_told_by_their_words(status: Seq<char>)
    ensures
        is_problem(status) <==> (exists|at: int| #[trigger]
            text::occurs_at(status, "失败"@, at)) || (exists|at: int| #[trigger]
            text::occurs_at(status, "无法"@, at)) || (exists|at: int| #[trigger]
            text::occurs_at(status, "请先"@, at)),
{
}

/// What is said of an installation ends with the number of its components.
pub proof fn summaries_count_the_components(
    state: JsonView,
    release: Seq<char>,
    components: Seq<(Seq<char>, JsonView)>,
)
    requires
        state.field("releaseId"@) == Some(JsonView::Text(release)),
        state.field("components"@) == Some(JsonView::Object(components)),
    ensures
        summary_of(Some(state)) == "当前版本："@ + release + "；已安装组件："@ + text::decimal(
            components.len(),
        ),
{
}

impl MaintenancePage {
    /// The window at its start. `confirm_uninstall` says that the user asked for
    /// a removal before.
    pub fn new(target: String, installation: String, confirm_uninstall: bool) -> (r:
        MaintenancePage)
        ensures
            r@ == opened(target@, installation@, confirm_uninstall),
    {
        MaintenancePage {
            target,
            source: String::new(),
            installation,
            status: "维护程序已就绪。".to_owned(),
            confirm_uninstall,
            delete_user_data: false,
        }
    }

    /// The user wants to stage an update: from where, if they said so.
    pub fn stage_clicked(&mut self) -> (r: Option<String>)
        ensures
            r is None <==> text::blank(old(self)@.source),
            r matches Some(source) ==> source@ == text::trimmed(old(self)@.source),
            final(self)@ == (if r is None {
                PageView { status: "请先输入 update-source 目录。"@, ..old(self)@ }
            } else {
                old(self)@
            }),
    {
        if text::is_blank(self.source.as_str()) {
            self.status = "请先输入 update-source 目录。".to_owned();
            return None;
        }
        Some(text::trim(self.source.as_str()))
    }

    /// An attempt to stage an update ended.
    pub fn stage_finished(&mut self, failure: Option<String>)
        ensures
            final(self)@ == (PageView {
                status: stage_status(model::opt_view(failure)),
                ..old(self)@
            }),
    {
        self.status = match failure {
            None => "更新已暂存；启动或重启 QAQ-Harness 后完成应用。".to_owned(),
            Some(error) => text::join2("更新暂存失败：", error.as_str()),
        };
    }

    /// The user wants to remove the product, and is asked to confirm it.
    pub fn uninstall_clicked(&mut self)
        ensures
            final(self)@ == (PageView { confirm_uninstall: true, ..old(self)@ }),
    {
        self.confirm_uninstall = true;
    }

    /// The user does not want to remove the product after all.
    pub fn cancel_clicked(&mut self)
        ensures
            final(self)@ == (PageView { confirm_uninstall: false, ..old(self)@ }),
    {
        self.confirm_uninstall = false;
    }

    /// Whether the removal can be started: only once the user was asked.
    pub fn removal_offered(&self) -> (r: bool)
        ensures
            r == self@.confirm_uninstall,
    {
        self.confirm_uninstall
    }

    /// An attempt to start the removal ended. Says whether the window closes.
    pub fn removal_started(&mut self, failure: Option<String>) -> (r: bool)
        ensures
            r == (failure is None),
            final(self)@ == (match failure {
                None => old(self)@,
                Some(error) => PageView {
                    status: "无法启动卸载："@ + error@,
                    ..old(self)@
                },
            }),
    {
        match failure {
            None => true,
            Some(error) => {
                self.status = text::join2("无法启动卸载：", error.as_str());
                false
            },
        }
    }

    /// What the part of the window that removes the product is headed with.
    pub fn removal_heading(&self) -> (r: &'static str)
        ensures
            r@ == (if self@.confirm_uninstall {
                "确认卸载 QAQ-Harness"@
            } else {
                "卸载 QAQ-Harness"@
            }),
    {
        if self.confirm_uninstall {
            "确认卸载 QAQ-Harness"
        } else {
            "卸载 QAQ-Harness"
        }
    }

    /// Whether the status tells of a problem.
    pub fn status_is_problem(&self) -> (r: bool)
        ensures
            r == is_problem(self@.status),
    {
        let status = self.status.as_str();
        text::contains(status, "失败") || text::contains(status, "无法") || text::contains(
            status,
            "请先",
        )
    }
}

} // verus!
