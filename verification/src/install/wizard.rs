//! The installer's window: its screens, what leads from one to the next, and
//! what each shows.

use vstd::prelude::*;

use crate::install::bundle;
use crate::install::config;
use crate::install::config::{ConfigView, InstallerConfig};
use crate::model;
use crate::process::{ProcInfo, ProcView};
use crate::text;

verus! {

/// A screen of the installer.
#[derive(Debug, Clone, Copy, PartialEq, Eq, Structural)]
pub enum Screen {
    Welcome,
    License,
    Location,
    Components,
    CloseProcesses,
    Progress,
    Finish,
}

/// A document that the user agrees to.
#[derive(Debug, Clone, Copy, PartialEq, Eq, Structural)]
pub enum LegalDocument {
    UserAgreement,
    PrivacyPolicy,
}

/// How many steps the sidebar lists.
pub const LISTED_STEPS: usize = 4;

/// The step that a screen belongs to.
pub open spec fn step_of(screen: Screen) -> int {
    match screen {
        Screen::Welcome => 0,
        Screen::License => 1,
        Screen::Location => 2,
        Screen::Components => 3,
        _ => 4,
    }
}

/// Whether a screen belongs to the installation itself.
pub open spec fn installs(screen: Screen) -> bool {
    step_of(screen) == 4
}

/// The title of a screen.
pub open spec fn title_of(screen: Screen) -> Seq<char> {
    match screen {
        Screen::Welcome => "欢迎"@,
        Screen::License => "协议与隐私"@,
        Screen::Location => "安装位置"@,
        Screen::Components => "安装组件"@,
        Screen::CloseProcesses => "关闭进程"@,
        Screen::Progress => "正在安装"@,
        Screen::Finish => "完成"@,
    }
}

/// What stands under the title of a screen.
pub open spec fn subtitle_of(screen: Screen) -> Seq<char> {
    match screen {
        Screen::Welcome => "本向导将引导您完成 QAQ-Harness 的安装配置。"@,
        Screen::License => "请阅读用户协议和隐私政策后继续。"@,
        Screen::Location => "选择 QAQ-Harness 的安装目录。"@,
        Screen::Components => "选择要安装的组件与快捷方式。"@,
        Screen::CloseProcesses => "检测到 QAQ-Harness 正在运行，请先关闭以继续安装。"@,
        Screen::Progress => "正在将文件复制到您的计算机..."@,
        Screen::Finish => ""@,
    }
}

impl Screen {
    /// The screens that the sidebar lists, in order.
    pub fn all() -> (r: Vec<Screen>)
        ensures
            r@ == seq![Screen::Welcome, Screen::License, Screen::Location, Screen::Components],
    {
        let mut out: Vec<Screen> = Vec::new();
        out.push(Screen::Welcome);
        out.push(Screen::License);
        out.push(Screen::Location);
        out.push(Screen::Components);
        assert(out@ =~= seq![
            Screen::Welcome,
            Screen::License,
            Screen::Location,
            Screen::Components,
        ]);
        out
    }

    /// `title_of`, executable.
    pub fn title(&self) -> (r: &'static str)
        ensures
            r@ == title_of(*self),
    {
        match self {
            Screen::Welcome => "欢迎",
            Screen::License => "协议与隐私",
            Screen::Location => "安装位置",
            Screen::Components => "安装组件",
            Screen::CloseProcesses => "关闭进程",
            Screen::Progress => "正在安装",
            Screen::Finish => "完成",
        }
    }

    /// `subtitle_of`, executable.
    pub fn subtitle(&self) -> (r: &'static str)
        ensures
            r@ == subtitle_of(*self),
    {
        match self {
            Screen::Welcome => "本向导将引导您完成 QAQ-Harness 的安装配置。",
            Screen::License => "请阅读用户协议和隐私政策后继续。",
            Screen::Location => "选择 QAQ-Harness 的安装目录。",
            Screen::Components => "选择要安装的组件与快捷方式。",
            Screen::CloseProcesses => "检测到 QAQ-Harness 正在运行，请先关闭以继续安装。",
            Screen::Progress => "正在将文件复制到您的计算机...",
            Screen::Finish => "",
        }
    }

    /// `step_of`, executable.
    pub fn step_index(&self) -> (r: usize)
        ensures
            r == step_of(*self),
    {
        match self {
            Screen::Welcome => 0,
            Screen::License => 1,
            Screen::Location => 2,
            Screen::Components => 3,
            Screen::CloseProcesses | Screen::Progress | Screen::Finish => 4,
        }
    }
}

/// How the sidebar shows a step.
#[derive(Debug, Clone, Copy, PartialEq, Eq, Structural)]
pub enum StepMark {
    Done,
    Current,
    Pending,
}

/// The installer's state.
#[derive(Debug)]
pub struct Wizard {
    pub screen: Screen,
    pub config: InstallerConfig,
    pub license_agreed: bool,
    pub legal_document: LegalDocument,
    pub install_result: Option<Result<(), String>>,
    pub location_input: String,
    /// The product's processes that were found.
    pub running_procs: Vec<ProcInfo>,
    /// Whether they were asked to end.
    pub close_attempted: bool,
}

/// The model of a `Wizard`.
#[verifier::ext_equal]
pub struct WizardView {
    pub screen: Screen,
    pub config: ConfigView,
    pub license_agreed: bool,
    pub legal_document: LegalDocument,
    pub install_result: Option<Result<(), Seq<char>>>,
    pub location_input: Seq<char>,
    pub running_procs: Seq<ProcView>,
    pub close_attempted: bool,
}

/// The model of a result.
pub open spec fn result_view(result: Result<(), String>) -> Result<(), Seq<char>> {
    match result {
        Ok(()) => Ok(()),
        Err(message) => Err(message@),
    }
}

/// The model of a result that may not be there.
pub open spec fn opt_result_view(result: Option<Result<(), String>>) -> Option<
    Result<(), Seq<char>>,
> {
    match result {
        Some(result) => Some(result_view(result)),
        None => None,
    }
}

impl View for Wizard {
    type V = WizardView;

    open spec fn view(&self) -> WizardView {
        WizardView {
            screen: self.screen,
            config: self.config@,
            license_agreed: self.license_agreed,
            legal_document: self.legal_document,
            install_result: opt_result_view(self.install_result),
            location_input: self.location_input@,
            running_procs: model::views(self.running_procs@),
            close_attempted: self.close_attempted,
        }
    }
}

/// The installer at its start.
pub open spec fn started(default_path: Seq<char>, found: Seq<ProcView>) -> WizardView {
    WizardView {
        screen: Screen::Welcome,
        config: ConfigView {
            target_path: default_path,
            install_desktop_app: true,
            create_start_menu: true,
            create_desktop_shortcut: true,
            ..config::no_config()
        },
        license_agreed: false,
        legal_document: LegalDocument::UserAgreement,
        install_result: None,
        location_input: default_path,
        running_procs: found,
        close_attempted: false,
    }
}

/// Whether the installer can go back.
pub open spec fn back_offered(w: WizardView) -> bool {
    w.screen != Screen::Welcome && w.screen != Screen::CloseProcesses
}

/// Whether the installer can go on: the user agreed, chose a place, and chose
/// something to install.
pub open spec fn next_offered(w: WizardView) -> bool {
    match w.screen {
        Screen::License => w.license_agreed,
        Screen::Location => !text::blank(w.location_input),
        Screen::Components => w.config.install_desktop_app,
        Screen::CloseProcesses => false,
        _ => true,
    }
}

/// The installer with the installation running.
pub open spec fn running(w: WizardView) -> WizardView {
    WizardView { screen: Screen::Progress, ..w }
}

/// The installer after it went on. `found` are the product's processes that run
/// now.
pub open spec fn after_next(w: WizardView, found: Seq<ProcView>) -> WizardView {
    match w.screen {
        Screen::Welcome => WizardView { screen: Screen::License, ..w },
        Screen::License => WizardView { screen: Screen::Location, ..w },
        Screen::Location => WizardView {
            screen: Screen::Components,
            config: ConfigView { target_path: text::trimmed(w.location_input), ..w.config },
            ..w
        },
        Screen::Components => if found.len() > 0 {
            WizardView {
                screen: Screen::CloseProcesses,
                running_procs: found,
                close_attempted: false,
                ..w
            }
        } else {
            running(WizardView { running_procs: found, ..w })
        },
        _ => w,
    }
}

/// Whether going on begins the installation.
pub open spec fn next_installs(w: WizardView, found: Seq<ProcView>) -> bool {
    w.screen == Screen::Components && found.len() == 0
}

/// The installer after it went back.
pub open spec fn after_back(w: WizardView) -> WizardView {
    WizardView {
        screen: match w.screen {
            Screen::License => Screen::Welcome,
            Screen::Location => Screen::License,
            Screen::Components => Screen::Location,
            Screen::CloseProcesses => Screen::Components,
            _ => w.screen,
        },
        ..w
    }
}

/// Whether every process that was found is closed.
pub open spec fn all_closed(procs: Seq<ProcView>) -> bool {
    forall|i: int| 0 <= i < procs.len() ==> (#[trigger] procs[i]).closed
}

/// The buttons of the screen that lists processes.
#[derive(Debug, Clone, Copy, PartialEq, Eq, Structural)]
pub struct CloseButtons {
    /// Go on with the installation.
    pub proceed: bool,
    /// Go on although processes run.
    pub skip: bool,
    /// End the processes.
    pub force: bool,
    /// Look again.
    pub retry: bool,
    /// Ask the processes to end.
    pub auto: bool,
}

/// The buttons that are offered.
pub open spec fn close_buttons_of(w: WizardView) -> CloseButtons {
    CloseButtons {
        proceed: all_closed(w.running_procs),
        skip: w.close_attempted,
        force: w.close_attempted && !all_closed(w.running_procs),
        retry: w.close_attempted,
        auto: !w.close_attempted,
    }
}

/// What the screen that lists processes says.
#[derive(Debug, Clone, Copy, PartialEq, Eq, Structural)]
pub enum CloseNote {
    /// They can be asked to end.
    Offer,
    /// They have ended.
    AllClosed,
    /// Some still run.
    SomeLeft,
}

/// The processes after those that were not closed were ended: each of them is
/// closed unless it is still alive.
pub open spec fn after_force(procs: Seq<ProcView>, alive: Seq<bool>) -> Seq<ProcView> {
    Seq::new(
        procs.len(),
        |i: int|
            if procs[i].closed {
                procs[i]
            } else {
                ProcView { closed: !alive[i], ..procs[i] }
            },
    )
}

/// The processes after they were asked to end. `all_gone` says that all of them
/// did, `alive` which are still there.
pub open spec fn after_auto(procs: Seq<ProcView>, all_gone: bool, alive: Seq<bool>) -> Seq<
    ProcView,
> {
    Seq::new(
        procs.len(),
        |i: int| ProcView { closed: all_gone || !alive[i], ..procs[i] },
    )
}

/// The installer after the installation ended, and what follows it did.
/// `post` says what became of that, where it was done.
pub open spec fn after_install(
    w: WizardView,
    result: Result<(), Seq<char>>,
    post: Result<(), Seq<char>>,
) -> WizardView {
    WizardView {
        install_result: Some(
            if result is Ok {
                post
            } else {
                result
            },
        ),
        screen: Screen::Finish,
        ..w
    }
}

/// What follows an installation.
#[derive(Debug, Clone, Copy, PartialEq, Eq, Structural)]
pub enum PostStep {
    WriteInstallMarker,
    RemoveLegacyUninstaller,
    WriteUninstallRegistry,
    WriteLegalAcceptance,
    CreateDesktopShortcut,
    CreateStartMenuShortcut,
}

/// What follows an installation, in order: nothing unless the whole product was
/// installed.
pub open spec fn post_steps(c: ConfigView) -> Seq<PostStep> {
    if !bundle::is_full(c.bundle_kind) {
        Seq::empty()
    } else {
        seq![
            PostStep::WriteInstallMarker,
            PostStep::RemoveLegacyUninstaller,
            PostStep::WriteUninstallRegistry,
            PostStep::WriteLegalAcceptance,
        ] + (if c.create_desktop_shortcut {
            seq![PostStep::CreateDesktopShortcut]
        } else {
            Seq::empty()
        }) + (if c.create_start_menu {
            seq![PostStep::CreateStartMenuShortcut]
        } else {
            Seq::empty()
        })
    }
}

/// Whether the installation succeeded.
pub open spec fn succeeded(w: WizardView) -> bool {
    w.install_result matches Some(result) && result is Ok
}

/// What the last screen is headed with.
pub open spec fn final_title(w: WizardView) -> Seq<char> {
    if !succeeded(w) {
        "安装失败"@
    } else if w.config.operation == "update"@ {
        "更新完成"@
    } else if w.config.operation == "upgrade"@ {
        "升级完成"@
    } else {
        "安装完成"@
    }
}

/// What the last screen says.
pub open spec fn final_message(w: WizardView) -> Seq<char> {
    match w.install_result {
        Some(Ok(())) => if w.config.operation == "update"@ {
            "QAQ-Harness 组件已成功更新。"@
        } else if w.config.operation == "upgrade"@ {
            "QAQ-Harness 已成功升级。"@
        } else {
            "QAQ-Harness 已成功安装到您的计算机。"@
        },
        Some(Err(message)) => message,
        None => Seq::empty(),
    }
}

/// The ways to start the product that the last screen lists.
pub open spec fn launch_hints_of(c: ConfigView) -> Seq<Seq<char>> {
    (if c.create_start_menu {
        seq!["开始菜单中的 QAQ-Harness"@]
    } else {
        Seq::empty()
    }) + (if c.create_desktop_shortcut {
        seq!["桌面快捷方式"@]
    } else {
        Seq::empty()
    }) + seq![c.target_path + "\\QAQ-Harness.exe"@]
}

// ---------------------------------------------------------------------------
// What holds of the installer
// ---------------------------------------------------------------------------

/// Whether the user agreed before anything behind the documents was reached.
pub open spec fn consented(w: WizardView) -> bool {
    step_of(w.screen) > 1 ==> w.license_agreed
}

/// Nothing behind the documents is reached without the user's agreement: that is
/// so at the start, and stays so as long as only what is offered is done and the
/// agreement changes on its own screen.
pub proof fn consent_comes_first(w: WizardView, found: Seq<ProcView>, default_path: Seq<char>)
    ensures
        consented(started(default_path, found)),
        consented(w) && next_offered(w) ==> consented(after_next(w, found)),
        consented(w) ==> consented(after_back(w)),
        consented(w) && w.screen == Screen::CloseProcesses ==> consented(running(w)),
        w.screen == Screen::License ==> consented(WizardView { license_agreed: false, ..w }),
{
}

/// Going back undoes going on, as far as the screen is concerned.
pub proof fn back_undoes_next(w: WizardView, found: Seq<ProcView>)
    requires
        step_of(w.screen) <= 3,
        !next_installs(w, found),
    ensures
        after_back(after_next(w, found)).screen == w.screen,
{
}

/// What is installed goes where the user said, without the white space around
/// it, and to a place that has a name.
pub proof fn target_is_what_the_user_chose(w: WizardView, found: Seq<ProcView>)
    requires
        w.screen == Screen::Location,
        next_offered(w),
    ensures
        after_next(w, found).config.target_path == text::trimmed(w.location_input),
        after_next(w, found).config.target_path.len() > 0,
{
    text::blank_is_trimmed_away(w.location_input);
}

/// A process that is still alive after it was ended is never listed as closed
/// unless it was before.
pub proof fn survivors_stay_visible(procs: Seq<ProcView>, alive: Seq<bool>, i: int)
    requires
        0 <= i < procs.len(),
        !procs[i].closed,
        alive[i],
    ensures
        !after_force(procs, alive)[i].closed,
        !all_closed(after_force(procs, alive)),
{
    assert(!after_force(procs, alive)[i].closed);
}

/// After the whole product was installed it is marked, registered and the user's
/// consent recorded, and a shortcut is made exactly where the user wants one. No
/// step is taken twice, and the mark comes first. After anything else is installed
/// nothing follows.
pub proof fn shortcuts_are_made_as_chosen(c: ConfigView)
    ensures
        ({
            let steps = post_steps(c);
            if c.bundle_kind == "full"@ {
                &&& steps[0] == PostStep::WriteInstallMarker
                &&& steps.contains(PostStep::WriteInstallMarker)
                &&& steps.contains(PostStep::RemoveLegacyUninstaller)
                &&& steps.contains(PostStep::WriteUninstallRegistry)
                &&& steps.contains(PostStep::WriteLegalAcceptance)
                &&& steps.contains(PostStep::CreateDesktopShortcut) <==> c.create_desktop_shortcut
                &&& steps.contains(PostStep::CreateStartMenuShortcut) <==> c.create_start_menu
                &&& steps.no_duplicates()
            } else {
                steps.len() == 0
            }
        }),
{
    let steps = post_steps(c);
    if c.bundle_kind == "full"@ {
        assert(steps[0] == PostStep::WriteInstallMarker);
        assert(steps[1] == PostStep::RemoveLegacyUninstaller);
        assert(steps[2] == PostStep::WriteUninstallRegistry);
        assert(steps[3] == PostStep::WriteLegalAcceptance);
        if c.create_desktop_shortcut {
            assert(steps[4] == PostStep::CreateDesktopShortcut);
            if c.create_start_menu {
                assert(steps[5] == PostStep::CreateStartMenuShortcut);
            }
        } else if c.create_start_menu {
            assert(steps[4] == PostStep::CreateStartMenuShortcut);
        }
    }
}

/// The last screen names a shortcut exactly where one was made, and always where
/// the program lies.
pub proof fn hints_name_what_was_made(c: ConfigView)
    ensures
        ({
            let hints = launch_hints_of(c);
            let made = (if c.create_start_menu {
                1int
            } else {
                0
            }) + (if c.create_desktop_shortcut {
                1int
            } else {
                0
            });
            &&& hints.len() == made + 1
            &&& hints.last() == c.target_path + "\\QAQ-Harness.exe"@
            &&& c.create_start_menu ==> hints[0] == "开始菜单中的 QAQ-Harness"@
            &&& c.create_desktop_shortcut ==> hints[made - 1] == "桌面快捷方式"@
        }),
{
}

/// Going on leads from each screen to the one behind it, and to the installation
/// only from the choice of components: over the list of processes while some run,
/// else at once. Nothing but the screen changes, except for the place on leaving
/// its screen and the processes that were found.
pub proof fn next_leads_one_screen_on(w: WizardView, found: Seq<ProcView>)
    ensures
        ({
            let n = after_next(w, found);
            &&& w.screen == Screen::Welcome ==> n.screen == Screen::License
            &&& w.screen == Screen::License ==> n.screen == Screen::Location
            &&& w.screen == Screen::Location ==> n.screen == Screen::Components
            &&& w.screen == Screen::Components && found.len() > 0 ==> n.screen
                == Screen::CloseProcesses && n.running_procs == found && !n.close_attempted
            &&& w.screen == Screen::Components && found.len() == 0 ==> n.screen == Screen::Progress
            &&& w.screen == Screen::CloseProcesses || w.screen == Screen::Progress || w.screen
                == Screen::Finish ==> n == w
            &&& next_installs(w, found) <==> w.screen == Screen::Components && n.screen
                == Screen::Progress
            &&& n.license_agreed == w.license_agreed
            &&& n.legal_document == w.legal_document
            &&& n.install_result == w.install_result
            &&& n.location_input == w.location_input
            &&& w.screen != Screen::Location ==> n.config == w.config
            &&& n.config.create_desktop_shortcut == w.config.create_desktop_shortcut
            &&& n.config.create_start_menu == w.config.create_start_menu
            &&& n.config.install_desktop_app == w.config.install_desktop_app
            &&& w.screen != Screen::Components ==> n.running_procs == w.running_procs
        }),
{
}

/// Going on is offered on the documents only after the user agreed, on the place
/// only if one is named, on the components only if something is chosen, and never
/// on the list of processes; everywhere else it is. Going back is offered except
/// on the first screen and on the list of processes.
pub proof fn buttons_follow_the_choices(w: WizardView)
    ensures
        w.screen == Screen::License ==> (next_offered(w) <==> w.license_agreed),
        w.screen == Screen::Location ==> (next_offered(w) <==> text::trimmed(
            w.location_input,
        ).len() > 0),
        w.screen == Screen::Components ==> (next_offered(w) <==> w.config.install_desktop_app),
        w.screen == Screen::CloseProcesses ==> !next_offered(w),
        w.screen == Screen::Welcome || w.screen == Screen::Progress || w.screen == Screen::Finish
            ==> next_offered(w),
        back_offered(w) <==> !(w.screen == Screen::Welcome || w.screen == Screen::CloseProcesses),
        after_back(w) == (WizardView { screen: after_back(w).screen, ..w }),
        w.screen == Screen::Welcome || w.screen == Screen::Progress || w.screen == Screen::Finish
            ==> after_back(w).screen == w.screen,
        w.screen == Screen::CloseProcesses ==> after_back(w).screen == Screen::Components,
        w.screen == Screen::License ==> after_back(w).screen == Screen::Welcome,
        w.screen == Screen::Location ==> after_back(w).screen == Screen::License,
        w.screen == Screen::Components ==> after_back(w).screen == Screen::Location,
{
    text::blank_is_trimmed_away(w.location_input);
}

/// The installation can go on without more ado exactly if every process that was
/// found is closed. Before they were asked to end that is offered, and afterwards
/// to go on all the same, to look again, and to end those that are left.
pub proof fn close_buttons_follow_the_processes(w: WizardView)
    ensures
        ({
            let b = close_buttons_of(w);
            let some_open = exists|i: int|
                0 <= i < w.running_procs.len() && !(#[trigger] w.running_procs[i]).closed;
            &&& b.proceed <==> !some_open
            &&& b.auto <==> !w.close_attempted
            &&& b.skip <==> w.close_attempted
            &&& b.retry <==> w.close_attempted
            &&& b.force <==> w.close_attempted && some_open
        }),
{
}

/// After the processes were ended or asked to end, each is listed as closed
/// exactly if it is gone; which processes are listed stays.
pub proof fn closed_means_gone(procs: Seq<ProcView>, all_gone: bool, alive: Seq<bool>, i: int)
    requires
        0 <= i < procs.len(),
        procs.len() == alive.len(),
    ensures
        after_force(procs, alive).len() == procs.len(),
        after_auto(procs, all_gone, alive).len() == procs.len(),
        after_force(procs, alive)[i].pid == procs[i].pid,
        after_force(procs, alive)[i].name == procs[i].name,
        after_auto(procs, all_gone, alive)[i].pid == procs[i].pid,
        after_auto(procs, all_gone, alive)[i].name == procs[i].name,
        after_force(procs, alive)[i].closed <==> procs[i].closed || !alive[i],
        after_auto(procs, all_gone, alive)[i].closed <==> all_gone || !alive[i],
{
}

/// The installation ends on the last screen with the first thing that went wrong,
/// if anything did; the last screen says it, and otherwise what was done.
pub proof fn last_screen_tells_the_outcome(
    w: WizardView,
    result: Result<(), Seq<char>>,
    post: Result<(), Seq<char>>,
)
    ensures
        ({
            let n = after_install(w, result, post);
            &&& n.screen == Screen::Finish
            &&& n.config == w.config
            &&& result matches Err(message) ==> final_message(n) == message
            &&& result is Ok ==> (post matches Err(message) ==> final_message(n) == message)
            &&& !(result is Ok && post is Ok) ==> final_title(n) == "安装失败"@
            &&& result is Ok && post is Ok ==> {
                &&& w.config.operation == "update"@ ==> final_title(n) == "更新完成"@
                    && final_message(n) == "QAQ-Harness 组件已成功更新。"@
                &&& w.config.operation == "upgrade"@ ==> final_title(n) == "升级完成"@
                    && final_message(n) == "QAQ-Harness 已成功升级。"@
                &&& w.config.operation != "update"@ && w.config.operation != "upgrade"@
                    ==> final_title(n) == "安装完成"@ && final_message(n)
                    == "QAQ-Harness 已成功安装到您的计算机。"@
            }
        }),
{
    reveal_strlit("update");
    reveal_strlit("upgrade");
    assert("update"@.len() == 6);
    assert("upgrade"@.len() == 7);
}

/// A failure after the files were put in place is a failure of the installation.
pub proof fn late_failures_count(
    w: WizardView,
    result: Result<(), Seq<char>>,
    post: Result<(), Seq<char>>,
)
    ensures
        succeeded(after_install(w, result, post)) <==> result is Ok && post is Ok,
{
}

// ---------------------------------------------------------------------------
// The installer
// ---------------------------------------------------------------------------

/// Whether every process of a list is closed.
fn are_all_closed(procs: &Vec<ProcInfo>) -> (r: bool)
    ensures
        r == all_closed(model::views(procs@)),
{
    let ghost all = model::views(procs@);
    let mut i: usize = 0;
    while i < procs.len()
        invariant
            i <= procs@.len(),
            all == model::views(procs@),
            forall|k: int| 0 <= k < i ==> (#[trigger] all[k]).closed,
        decreases procs@.len() - i,
    {
        assert(all[i as int] == procs@[i as int]@);
        if !procs[i].closed {
            return false;
        }
        i = i + 1;
    }
    true
}

impl Wizard {
    /// The installer at its start.
    pub fn new(default_path: String, found: Vec<ProcInfo>) -> (r: Wizard)
        ensures
            r@ == started(default_path@, model::views(found@)),
    {
        let mut config = InstallerConfig::default();
        config.target_path = default_path.clone();
        config.install_desktop_app = true;
        config.create_start_menu = true;
        config.create_desktop_shortcut = true;
        Wizard {
            screen: Screen::Welcome,
            config,
            license_agreed: false,
            legal_document: LegalDocument::UserAgreement,
            install_result: None,
            location_input: default_path,
            running_procs: found,
            close_attempted: false,
        }
    }

    /// Whether the installation itself is on show.
    pub fn is_install_phase(&self) -> (r: bool)
        ensures
            r == installs(self@.screen),
    {
        match self.screen {
            Screen::CloseProcesses | Screen::Progress | Screen::Finish => true,
            _ => false,
        }
    }

    /// How the sidebar shows step `i`.
    pub fn step_mark(&self, i: usize) -> (r: StepMark)
        ensures
            r == (if i < step_of(self@.screen) {
                StepMark::Done
            } else if i == step_of(self@.screen) {
                StepMark::Current
            } else {
                StepMark::Pending
            }),
    {
        let current: usize = self.screen.step_index();
        if i < current {
            StepMark::Done
        } else if i == current {
            StepMark::Current
        } else {
            StepMark::Pending
        }
    }

    /// `back_offered`, executable.
    pub fn can_back(&self) -> (r: bool)
        ensures
            r == back_offered(self@),
    {
        self.screen != Screen::Welcome && self.screen != Screen::CloseProcesses
    }

    /// `next_offered`, executable.
    pub fn can_next(&self) -> (r: bool)
        ensures
            r == next_offered(self@),
    {
        match self.screen {
            Screen::License => self.license_agreed,
            Screen::Location => !text::is_blank(self.location_input.as_str()),
            Screen::Components => self.config.install_desktop_app,
            Screen::CloseProcesses => false,
            _ => true,
        }
    }

    /// What the button to go on is called.
    pub fn next_label(&self) -> (r: &'static str)
        ensures
            r@ == (if self@.screen == Screen::Components {
                "安装"@
            } else {
                "继续"@
            }),
    {
        match self.screen {
            Screen::Components => "安装",
            _ => "继续",
        }
    }

    /// Goes on. Says whether the installation begins.
    pub fn go_next(&mut self, found: Vec<ProcInfo>) -> (r: bool)
        ensures
            r == next_installs(old(self)@, model::views(found@)),
            final(self)@ == after_next(old(self)@, model::views(found@)),
    {
        match self.screen {
            Screen::Welcome => {
                self.screen = Screen::License;
                false
            },
            Screen::License => {
                self.screen = Screen::Location;
                false
            },
            Screen::Location => {
                self.config.target_path = text::trim(self.location_input.as_str());
                self.screen = Screen::Components;
                false
            },
            Screen::Components => {
                let none = found.len() == 0;
                self.running_procs = found;
                if none {
                    self.screen = Screen::Progress;
                    true
                } else {
                    self.screen = Screen::CloseProcesses;
                    self.close_attempted = false;
                    false
                }
            },
            Screen::CloseProcesses | Screen::Progress | Screen::Finish => false,
        }
    }

    /// Goes back.
    pub fn go_back(&mut self)
        ensures
            final(self)@ == after_back(old(self)@),
    {
        match self.screen {
            Screen::License => {
                self.screen = Screen::Welcome;
            },
            Screen::Location => {
                self.screen = Screen::License;
            },
            Screen::Components => {
                self.screen = Screen::Location;
            },
            Screen::CloseProcesses => {
                self.screen = Screen::Components;
            },
            Screen::Welcome | Screen::Progress | Screen::Finish => {},
        }
    }

    /// Begins the installation from the screen that lists processes.
    pub fn start_install(&mut self)
        ensures
            final(self)@ == running(old(self)@),
    {
        self.screen = Screen::Progress;
    }

    /// `close_buttons_of`, executable.
    pub fn close_buttons(&self) -> (r: CloseButtons)
        ensures
            r == close_buttons_of(self@),
    {
        let closed = are_all_closed(&self.running_procs);
        CloseButtons {
            proceed: closed,
            skip: self.close_attempted,
            force: self.close_attempted && !closed,
            retry: self.close_attempted,
            auto: !self.close_attempted,
        }
    }

    /// What the screen that lists processes says.
    pub fn close_note(&self) -> (r: CloseNote)
        ensures
            r == (if !self@.close_attempted {
                CloseNote::Offer
            } else if all_closed(self@.running_procs) {
                CloseNote::AllClosed
            } else {
                CloseNote::SomeLeft
            }),
    {
        if !self.close_attempted {
            CloseNote::Offer
        } else if are_all_closed(&self.running_procs) {
            CloseNote::AllClosed
        } else {
            CloseNote::SomeLeft
        }
    }

    /// Takes over which processes are still alive after those that were not
    /// closed were ended.
    pub fn force_closed(&mut self, alive: &Vec<bool>)
        requires
            alive@.len() == old(self)@.running_procs.len(),
        ensures
            final(self)@ == (WizardView {
                running_procs: after_force(old(self)@.running_procs, alive@),
                ..old(self)@
            }),
    {
        let ghost start = self@;
        let mut out: Vec<ProcInfo> = Vec::new();
        let mut i: usize = 0;
        while i < self.running_procs.len()
            invariant
                i <= self.running_procs@.len(),
                self@ == start,
                alive@.len() == start.running_procs.len(),
                start.running_procs == model::views(self.running_procs@),
                out@.len() == i,
                forall|k: int|
                    0 <= k < i ==> (#[trigger] out@[k])@ == after_force(
                        start.running_procs,
                        alive@,
                    )[k],
            decreases self.running_procs@.len() - i,
        {
            assert(start.running_procs[i as int] == self.running_procs@[i as int]@);
            let p = &self.running_procs[i];
            let closed = if p.closed {
                true
            } else {
                !alive[i]
            };
            out.push(ProcInfo { pid: p.pid, name: p.name.clone(), closed });
            i = i + 1;
        }
        assert(model::views(out@) =~= after_force(start.running_procs, alive@));
        self.running_procs = out;
    }

    /// Takes over which processes are there after they were asked to end.
    pub fn auto_closed(&mut self, all_gone: bool, alive: &Vec<bool>)
        requires
            alive@.len() == old(self)@.running_procs.len(),
        ensures
            final(self)@ == (WizardView {
                running_procs: after_auto(old(self)@.running_procs, all_gone, alive@),
                close_attempted: true,
                ..old(self)@
            }),
    {
        let ghost start = self@;
        let mut out: Vec<ProcInfo> = Vec::new();
        let mut i: usize = 0;
        while i < self.running_procs.len()
            invariant
                i <= self.running_procs@.len(),
                self@ == start,
                alive@.len() == start.running_procs.len(),
                start.running_procs == model::views(self.running_procs@),
                out@.len() == i,
                forall|k: int|
                    0 <= k < i ==> (#[trigger] out@[k])@ == after_auto(
                        start.running_procs,
                        all_gone,
                        alive@,
                    )[k],
            decreases self.running_procs@.len() - i,
        {
            assert(start.running_procs[i as int] == self.running_procs@[i as int]@);
            let p = &self.running_procs[i];
            out.push(
                ProcInfo { pid: p.pid, name: p.name.clone(), closed: all_gone || !alive[i] },
            );
            i = i + 1;
        }
        assert(model::views(out@) =~= after_auto(start.running_procs, all_gone, alive@));
        self.running_procs = out;
        self.close_attempted = true;
    }

    /// Takes over the processes that were found when the user looked again.
    pub fn retry_close(&mut self, found: Vec<ProcInfo>)
        ensures
            final(self)@ == (WizardView {
                running_procs: model::views(found@),
                close_attempted: false,
                ..old(self)@
            }),
    {
        self.running_procs = found;
        self.close_attempted = false;
    }

    /// Takes over how far the installation is, while it is on show.
    pub fn install_progress(&mut self, config: InstallerConfig)
        ensures
            final(self)@ == (if old(self)@.screen == Screen::Progress {
                WizardView { config: config@, ..old(self)@ }
            } else {
                old(self)@
            }),
    {
        if self.screen == Screen::Progress {
            self.config = config;
        }
    }

    /// Takes over how the installation ended, and what follows it.
    pub fn install_done(&mut self, result: Result<(), String>, post: Result<(), String>)
        ensures
            final(self)@ == (if old(self)@.screen == Screen::Progress {
                after_install(old(self)@, result_view(result), result_view(post))
            } else {
                old(self)@
            }),
    {
        if self.screen == Screen::Progress {
            self.install_result = match result {
                Ok(()) => Some(post),
                Err(message) => Some(Err(message)),
            };
            self.screen = Screen::Finish;
        }
    }

    /// `post_steps`, executable.
    pub fn post_install(&self) -> (r: Vec<PostStep>)
        ensures
            r@ == post_steps(self@.config),
    {
        let mut out: Vec<PostStep> = Vec::new();
        if text::same(self.config.bundle_kind.as_str(), "full") {
            out.push(PostStep::WriteInstallMarker);
            out.push(PostStep::RemoveLegacyUninstaller);
            out.push(PostStep::WriteUninstallRegistry);
            out.push(PostStep::WriteLegalAcceptance);
            if self.config.create_desktop_shortcut {
                out.push(PostStep::CreateDesktopShortcut);
            }
            if self.config.create_start_menu {
                out.push(PostStep::CreateStartMenuShortcut);
            }
        }
        assert(out@ =~= post_steps(self@.config));
        out
    }

    /// Whether the installation succeeded.
    pub fn success(&self) -> (r: bool)
        ensures
            r == succeeded(self@),
    {
        match &self.install_result {
            Some(Ok(())) => true,
            _ => false,
        }
    }

    /// `final_title`, executable.
    pub fn finish_title(&self) -> (r: &'static str)
        ensures
            r@ == final_title(self@),
    {
        if !self.success() {
            "安装失败"
        } else if text::same(self.config.operation.as_str(), "update") {
            "更新完成"
        } else if text::same(self.config.operation.as_str(), "upgrade") {
            "升级完成"
        } else {
            "安装完成"
        }
    }

    /// `final_message`, executable.
    pub fn finish_message(&self) -> (r: String)
        ensures
            r@ == final_message(self@),
    {
        match &self.install_result {
            Some(Ok(())) => if text::same(self.config.operation.as_str(), "update") {
                "QAQ-Harness 组件已成功更新。".to_owned()
            } else if text::same(self.config.operation.as_str(), "upgrade") {
                "QAQ-Harness 已成功升级。".to_owned()
            } else {
                "QAQ-Harness 已成功安装到您的计算机。".to_owned()
            },
            Some(Err(message)) => message.clone(),
            None => String::new(),
        }
    }

    /// What the button of the last screen is called, and the exit code it ends
    /// the installer with.
    pub fn finish_button(&self) -> (r: (&'static str, i32))
        ensures
            succeeded(self@) ==> r.0@ == "完成"@ && r.1 == 0,
            !succeeded(self@) ==> r.0@ == "关闭"@ && r.1 == 1,
    {
        if self.success() {
            ("完成", 0)
        } else {
            ("关闭", 1)
        }
    }

    /// `launch_hints_of`, executable.
    pub fn launch_hints(&self) -> (r: Vec<String>)
        ensures
            model::views(r@) == launch_hints_of(self@.config),
    {
        let mut out: Vec<String> = Vec::new();
        if self.config.create_start_menu {
            out.push("开始菜单中的 QAQ-Harness".to_owned());
        }
        if self.config.create_desktop_shortcut {
            out.push("桌面快捷方式".to_owned());
        }
        out.push(text::join2(self.config.target_path.as_str(), "\\QAQ-Harness.exe"));
        assert(model::views(out@) =~= launch_hints_of(self@.config));
        out
    }
}

/// How a process is listed.
pub fn process_line(p: &ProcInfo) -> (r: String)
    ensures
        r@ == "  "@ + p.name@ + "  (PID: "@ + text::decimal(p.pid as nat) + ")  "@ + (if p.closed {
            "已关闭"@
        } else {
            "运行中"@
        }),
{
    let status = if p.closed {
        "已关闭"
    } else {
        "运行中"
    };
    let a = text::join3("  ", p.name.as_str(), "  (PID: ");
    let b = text::join3(a.as_str(), text::decimal_of(p.pid as u64).as_str(), ")  ");
    text::join2(b.as_str(), status)
}

/// How many of the files are in place.
pub fn files_line(config: &InstallerConfig) -> (r: String)
    ensures
        r@ == "文件 "@ + text::decimal(config.completed_files as nat) + " / "@ + text::decimal(
            config.total_files as nat,
        ),
{
    let a = text::join3("文件 ", text::decimal_of(config.completed_files as u64).as_str(), " / ");
    text::join2(a.as_str(), text::decimal_of(config.total_files as u64).as_str())
}

// ---------------------------------------------------------------------------
// The place to install to
// ---------------------------------------------------------------------------

/// Below this many free bytes a place counts as full.
pub const LOW_SPACE: u64 = 200_000_000;

/// Whether there is too little space, and what the free space is labelled with.
pub fn space_label(free: u64) -> (r: (bool, &'static str))
    ensures
        r.0 == (free < LOW_SPACE),
        r.0 ==> r.1@ == "可用空间不足"@,
        !r.0 ==> r.1@ == "磁盘可用空间"@,
{
    if free < LOW_SPACE {
        (true, "可用空间不足")
    } else {
        (false, "磁盘可用空间")
    }
}

/// The drive of a path, if it begins with one.
pub fn drive_of(path: &str) -> (r: Option<String>)
    ensures
        model::opt_view(r) == (if path@.len() >= 2 && path@[1] == ':' && (path@[0] as u32)
            < 0x80 {
            Some(path@.take(2))
        } else {
            None
        }),
{
    let chars = text::chars_of(path);
    if chars.len() >= 2 && chars[1] == ':' && (chars[0] as u32) < 0x80 {
        let drive = text::string_between(chars.as_slice(), 0, 2);
        assert(drive@ =~= path@.take(2));
        Some(drive)
    } else {
        None
    }
}

/// The installer starts on its first screen, with everything chosen and nothing agreed
/// to, begun or failed, and with the usual place filled in.
pub proof fn installer_starts_with_everything_chosen(default_path: Seq<char>, found: Seq<ProcView>)
    ensures
        ({
            let w = started(default_path, found);
            &&& w.screen == Screen::Welcome
            &&& !w.license_agreed
            &&& w.legal_document == LegalDocument::UserAgreement
            &&& w.install_result is None
            &&& w.location_input == default_path
            &&& w.config.target_path == default_path
            &&& w.config.install_desktop_app
            &&& w.config.create_start_menu
            &&& w.config.create_desktop_shortcut
            &&& w.config.completed_files == 0
            &&& w.config.error is None
            &&& w.running_procs == found
            &&& !w.close_attempted
        }),
{
}

/// Going on never leads to an earlier step, going back never to a later one, and the
/// screens of the installation itself are the three behind the choices.
pub proof fn steps_follow_each_other(w: WizardView, found: Seq<ProcView>)
    ensures
        step_of(after_next(w, found).screen) >= step_of(w.screen),
        step_of(w.screen) < LISTED_STEPS ==> step_of(after_next(w, found).screen) == step_of(
            w.screen,
        ) + 1,
        step_of(after_back(w).screen) <= step_of(w.screen),
        installs(w.screen) <==> w.screen == Screen::CloseProcesses || w.screen == Screen::Progress
            || w.screen == Screen::Finish,
        step_of(Screen::Welcome) == 0,
{
}

} // verus!
