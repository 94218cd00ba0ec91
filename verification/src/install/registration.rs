//! What Windows is told of an installation: shortcuts, and how to change or
//! remove it.

use vstd::prelude::*;

use crate::model;
use crate::text;

verus! {

/// The key under which an installation is registered.
pub const UNINSTALL_KEY: &'static str =
    "Software\\Microsoft\\Windows\\CurrentVersion\\Uninstall\\QAQ-Harness";

/// One change of the registry.
#[derive(Debug)]
pub enum RegistryChange {
    SetText { name: String, text: String },
    SetNumber { name: String, number: u32 },
    /// Deletes a value; that it is not there is no failure.
    Delete { name: String },
}

/// The model of a `RegistryChange`.
#[verifier::ext_equal]
pub enum RegistryChangeView {
    SetText { name: Seq<char>, text: Seq<char> },
    SetNumber { name: Seq<char>, number: u32 },
    Delete { name: Seq<char> },
}

impl View for RegistryChange {
    type V = RegistryChangeView;

    open spec fn view(&self) -> RegistryChangeView {
        match self {
            RegistryChange::SetText { name, text } => RegistryChangeView::SetText {
                name: name@,
                text: text@,
            },
            RegistryChange::SetNumber { name, number } => RegistryChangeView::SetNumber {
                name: name@,
                number: *number,
            },
            RegistryChange::Delete { name } => RegistryChangeView::Delete { name: name@ },
        }
    }
}

/// The command line that runs the updater of an installation with these options
/// for that installation.
pub open spec fn updater_command(install_path: Seq<char>, options: Seq<char>) -> Seq<char> {
    "\""@ + install_path + "\\qaqh-updater.exe\" "@ + options + " --install-dir \""@ + install_path
        + "\""@
}

/// A text value.
pub open spec fn text_value(name: Seq<char>, text: Seq<char>) -> RegistryChangeView {
    RegistryChangeView::SetText { name, text }
}

/// What is registered of an installation, in order.
pub open spec fn registration(install_path: Seq<char>, version: Seq<char>) -> Seq<
    RegistryChangeView,
> {
    seq![
        text_value("DisplayName"@, "QAQ-Harness"@),
        text_value("Publisher"@, "QAQ-Harness Team"@),
        text_value("InstallLocation"@, install_path),
        text_value("DisplayVersion"@, version),
        text_value("UninstallString"@, updater_command(install_path, "uninstall --interactive"@)),
        text_value("QuietUninstallString"@, updater_command(install_path, "uninstall --quiet"@)),
        text_value("ModifyPath"@, updater_command(install_path, "maintain --interactive"@)),
        text_value("DisplayIcon"@, install_path + "\\QAQ-Harness.exe"@),
        RegistryChangeView::Delete { name: "NoModify"@ },
        RegistryChangeView::SetNumber { name: "NoRepair"@, number: 1 },
    ]
}

/// `updater_command`, executable.
fn command_line(install_path: &str, options: &str) -> (r: String)
    ensures
        r@ == updater_command(install_path@, options@),
{
    let a = text::join3("\"", install_path, "\\qaqh-updater.exe\" ");
    let b = text::join3(a.as_str(), options, " --install-dir \"");
    text::join3(b.as_str(), install_path, "\"")
}

/// A text value.
fn set_text(name: &str, text: String) -> (r: RegistryChange)
    ensures
        r@ == text_value(name@, text@),
{
    RegistryChange::SetText { name: name.to_owned(), text }
}

/// `registration`, executable.
pub fn write_uninstall_registry(install_path: &str, version: &str) -> (r: Vec<RegistryChange>)
    ensures
        model::views(r@) == registration(install_path@, version@),
{
    let mut out: Vec<RegistryChange> = Vec::new();
    out.push(set_text("DisplayName", "QAQ-Harness".to_owned()));
    out.push(set_text("Publisher", "QAQ-Harness Team".to_owned()));
    out.push(set_text("InstallLocation", install_path.to_owned()));
    out.push(set_text("DisplayVersion", version.to_owned()));
    out.push(
        set_text("UninstallString", command_line(install_path, "uninstall --interactive")),
    );
    out.push(
        set_text("QuietUninstallString", command_line(install_path, "uninstall --quiet")),
    );
    out.push(set_text("ModifyPath", command_line(install_path, "maintain --interactive")));
    out.push(set_text("DisplayIcon", text::join2(install_path, "\\QAQ-Harness.exe")));
    out.push(RegistryChange::Delete { name: "NoModify".to_owned() });
    out.push(RegistryChange::SetNumber { name: "NoRepair".to_owned(), number: 1 });
    assert(model::views(out@) =~= registration(install_path@, version@));
    out
}

/// What a shortcut to the application is described as.
pub const SHORTCUT_DESCRIPTION: &'static str = "QAQ-Harness 桌面应用";

/// The application of an installation.
pub fn application_path(install_path: &str) -> (r: String)
    ensures
        r@ == install_path@ + "\\QAQ-Harness.exe"@,
{
    text::join2(install_path, "\\QAQ-Harness.exe")
}

/// A shortcut to make.
#[derive(Debug)]
pub struct Shortcut {
    pub target: String,
    pub description: String,
    /// The user's directory below which it goes.
    pub base: String,
    /// The directory in `base` to make for it; empty if it goes into `base`
    /// itself.
    pub folder: String,
    pub file_name: String,
}

/// Whether `s` is the shortcut to `target` in this place.
pub open spec fn is_shortcut(
    s: Shortcut,
    target: Seq<char>,
    description: Seq<char>,
    base: Seq<char>,
    folder: Seq<char>,
) -> bool {
    &&& s.target@ == target
    &&& s.description@ == description
    &&& s.base@ == base
    &&& s.folder@ == folder
    &&& s.file_name@ == "QAQ-Harness.lnk"@
}

/// The shortcut on the desktop, if the user has one.
pub fn create_desktop_shortcut(target_exe: &str, description: &str, desktop: Option<String>) -> (r:
    Result<Shortcut, String>)
    ensures
        r is Ok <==> desktop is Some,
        r matches Ok(s) ==> is_shortcut(
            s,
            target_exe@,
            description@,
            desktop.unwrap()@,
            Seq::empty(),
        ),
        r matches Err(message) ==> message@ == "无法获取桌面路径"@,
{
    match desktop {
        Some(base) => Ok(
            Shortcut {
                target: target_exe.to_owned(),
                description: description.to_owned(),
                base,
                folder: String::new(),
                file_name: "QAQ-Harness.lnk".to_owned(),
            },
        ),
        None => Err("无法获取桌面路径".to_owned()),
    }
}

/// The shortcut in the start menu, if the user has a directory for data.
pub fn create_start_menu_shortcut(
    target_exe: &str,
    description: &str,
    data_dir: Option<String>,
) -> (r: Result<Shortcut, String>)
    ensures
        r is Ok <==> data_dir is Some,
        r matches Ok(s) ==> is_shortcut(
            s,
            target_exe@,
            description@,
            data_dir.unwrap()@,
            "Microsoft\\Windows\\Start Menu\\Programs\\QAQ-Harness"@,
        ),
        r matches Err(message) ==> message@ == "无法获取开始菜单路径"@,
{
    match data_dir {
        Some(base) => Ok(
            Shortcut {
                target: target_exe.to_owned(),
                description: description.to_owned(),
                base,
                folder: "Microsoft\\Windows\\Start Menu\\Programs\\QAQ-Harness".to_owned(),
                file_name: "QAQ-Harness.lnk".to_owned(),
            },
        ),
        None => Err("无法获取开始菜单路径".to_owned()),
    }
}

/// What is registered names the place and the version of the installation, and tells
/// how to remove it with and without asking, and how to maintain it.
pub proof fn installation_is_registered(install_path: Seq<char>, version: Seq<char>)
    ensures
        ({
            let all = registration(install_path, version);
            let updater = "\""@ + install_path + "\\qaqh-updater.exe\" "@;
            let here = " --install-dir \""@ + install_path + "\""@;
            let sets = |name: Seq<char>, text: Seq<char>|
                all.contains(RegistryChangeView::SetText { name, text });
            &&& sets("DisplayName"@, "QAQ-Harness"@)
            &&& sets("InstallLocation"@, install_path)
            &&& sets("DisplayVersion"@, version)
            &&& sets("UninstallString"@, updater + "uninstall --interactive"@ + here)
            &&& sets("QuietUninstallString"@, updater + "uninstall --quiet"@ + here)
            &&& sets("ModifyPath"@, updater + "maintain --interactive"@ + here)
            &&& sets("DisplayIcon"@, install_path + "\\QAQ-Harness.exe"@)
            &&& all.contains(RegistryChangeView::Delete { name: "NoModify"@ })
            &&& all.contains(RegistryChangeView::SetNumber { name: "NoRepair"@, number: 1 })
        }),
{
    let all = registration(install_path, version);
    let updater = "\""@ + install_path + "\\qaqh-updater.exe\" "@;
    let here = " --install-dir \""@ + install_path + "\""@;
    assert(updater_command(install_path, "uninstall --interactive"@) =~= updater
        + "uninstall --interactive"@ + here);
    assert(updater_command(install_path, "uninstall --quiet"@) =~= updater
        + "uninstall --quiet"@ + here);
    assert(updater_command(install_path, "maintain --interactive"@) =~= updater
        + "maintain --interactive"@ + here);
    assert(all[0] == text_value("DisplayName"@, "QAQ-Harness"@));
    assert(all[2] == text_value("InstallLocation"@, install_path));
    assert(all[3] == text_value("DisplayVersion"@, version));
    assert(all[4] == text_value(
        "UninstallString"@,
        updater + "uninstall --interactive"@ + here,
    ));
    assert(all[5] == text_value("QuietUninstallString"@, updater + "uninstall --quiet"@ + here));
    assert(all[6] == text_value("ModifyPath"@, updater + "maintain --interactive"@ + here));
    assert(all[7] == text_value("DisplayIcon"@, install_path + "\\QAQ-Harness.exe"@));
    assert(all[8] == (RegistryChangeView::Delete { name: "NoModify"@ }));
    assert(all[9] == (RegistryChangeView::SetNumber { name: "NoRepair"@, number: 1 }));
}

} // verus!
