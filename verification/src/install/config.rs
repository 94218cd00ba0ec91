//! The choices of an installation, and how far it is.

use vstd::prelude::*;

use crate::install::bundle;
use crate::install::bundle::BundleManifest;
use crate::model;
use crate::text;

verus! {

/// A part of a whole.
#[derive(Debug, Clone, Copy, PartialEq, Eq, Structural)]
pub struct Progress {
    pub done: usize,
    pub of: usize,
}

/// What the user chose, and how far the installation is.
#[derive(Debug)]
pub struct InstallerConfig {
    pub target_path: String,
    pub install_desktop_app: bool,
    pub create_start_menu: bool,
    pub create_desktop_shortcut: bool,
    pub progress: Progress,
    pub current_file: String,
    pub total_files: usize,
    pub completed_files: usize,
    pub error: Option<String>,
    pub bundle_kind: String,
    pub bundle_build_id: String,
    /// install, upgrade or update.
    pub operation: String,
}

/// The model of an `InstallerConfig`.
#[verifier::ext_equal]
pub struct ConfigView {
    pub target_path: Seq<char>,
    pub install_desktop_app: bool,
    pub create_start_menu: bool,
    pub create_desktop_shortcut: bool,
    pub progress: Progress,
    pub current_file: Seq<char>,
    pub total_files: usize,
    pub completed_files: usize,
    pub error: Option<Seq<char>>,
    pub bundle_kind: Seq<char>,
    pub bundle_build_id: Seq<char>,
    pub operation: Seq<char>,
}

impl View for InstallerConfig {
    type V = ConfigView;

    open spec fn view(&self) -> ConfigView {
        ConfigView {
            target_path: self.target_path@,
            install_desktop_app: self.install_desktop_app,
            create_start_menu: self.create_start_menu,
            create_desktop_shortcut: self.create_desktop_shortcut,
            progress: self.progress,
            current_file: self.current_file@,
            total_files: self.total_files,
            completed_files: self.completed_files,
            error: crate::model::opt_view(self.error),
            bundle_kind: self.bundle_kind@,
            bundle_build_id: self.bundle_build_id@,
            operation: self.operation@,
        }
    }
}

/// Nothing chosen, nothing begun.
pub open spec fn no_config() -> ConfigView {
    ConfigView {
        target_path: Seq::empty(),
        install_desktop_app: false,
        create_start_menu: false,
        create_desktop_shortcut: false,
        progress: (Progress { done: 0, of: 1 }),
        current_file: Seq::empty(),
        total_files: 0,
        completed_files: 0,
        error: None,
        bundle_kind: Seq::empty(),
        bundle_build_id: Seq::empty(),
        operation: Seq::empty(),
    }
}

impl Default for InstallerConfig {
    fn default() -> (r: InstallerConfig)
        ensures
            r@ == no_config(),
    {
        InstallerConfig {
            target_path: String::new(),
            install_desktop_app: false,
            create_start_menu: false,
            create_desktop_shortcut: false,
            progress: Progress { done: 0, of: 1 },
            current_file: String::new(),
            total_files: 0,
            completed_files: 0,
            error: None,
            bundle_kind: String::new(),
            bundle_build_id: String::new(),
            operation: String::new(),
        }
    }
}

/// What a bundle does to an installation, given whether the application is there.
pub open spec fn operation_of(kind: Seq<char>, has_application: bool) -> Seq<char> {
    if !bundle::is_full(kind) {
        "update"@
    } else if has_application {
        "upgrade"@
    } else {
        "install"@
    }
}

/// The state when the installation of a bundle begins.
pub open spec fn begun(c: ConfigView, manifest: BundleManifest, has_application: bool) -> ConfigView {
    let files = manifest.files@.len();
    ConfigView {
        bundle_kind: manifest.kind@,
        bundle_build_id: manifest.build_id@,
        operation: operation_of(manifest.kind@, has_application),
        total_files: if files == 0 {
            1
        } else {
            files as usize
        },
        completed_files: 0,
        progress: (Progress { done: 0, of: 1 }),
        error: None,
        ..c
    }
}

/// The state after one more file.
pub open spec fn advanced(c: ConfigView, target: Seq<char>) -> ConfigView {
    let completed = (c.completed_files + 1) as usize;
    ConfigView {
        current_file: target,
        completed_files: completed,
        progress: (Progress { done: completed, of: c.total_files }),
        ..c
    }
}

/// The state at the end.
pub open spec fn finished(c: ConfigView) -> ConfigView {
    ConfigView { progress: (Progress { done: 1, of: 1 }), ..c }
}

/// The state after the first files of a bundle.
pub open spec fn after_files(
    c: ConfigView,
    manifest: BundleManifest,
    has_application: bool,
    n: nat,
) -> ConfigView
    decreases n,
{
    if n == 0 {
        begun(c, manifest, has_application)
    } else {
        advanced(
            after_files(c, manifest, has_application, (n - 1) as nat),
            manifest.files@[n - 1].target@,
        )
    }
}

/// The progress never passes the whole, and reaches it with the last file.
pub proof fn progress_stays_within_the_whole(
    c: ConfigView,
    manifest: BundleManifest,
    has_application: bool,
    n: nat,
)
    requires
        n <= manifest.files@.len(),
        manifest.files@.len() <= usize::MAX,
    ensures
        ({
            let state = after_files(c, manifest, has_application, n);
            &&& state.completed_files == n
            &&& state.progress.done <= state.progress.of
            &&& n > 0 ==> (n == manifest.files@.len() <==> state.progress.done
                == state.progress.of)
        }),
    decreases n,
{
    if n > 0 {
        progress_stays_within_the_whole(c, manifest, has_application, (n - 1) as nat);
        total_is_kept(c, manifest, has_application, (n - 1) as nat);
    }
}

/// The number of files stays the same.
proof fn total_is_kept(
    c: ConfigView,
    manifest: BundleManifest,
    has_application: bool,
    n: nat,
)
    ensures
        after_files(c, manifest, has_application, n).total_files == begun(
            c,
            manifest,
            has_application,
        ).total_files,
    decreases n,
{
    if n > 0 {
        total_is_kept(c, manifest, has_application, (n - 1) as nat);
    }
}

impl InstallerConfig {
    /// Begins the installation of a bundle.
    pub fn initialize_progress(&mut self, manifest: &BundleManifest, has_application: bool)
        ensures
            final(self)@ == begun(old(self)@, *manifest, has_application),
    {
        let files: usize = manifest.files.len();
        self.bundle_kind = manifest.kind.clone();
        self.bundle_build_id = manifest.build_id.clone();
        self.operation = if !text::same(manifest.kind.as_str(), "full") {
            "update".to_owned()
        } else if has_application {
            "upgrade".to_owned()
        } else {
            "install".to_owned()
        };
        self.total_files = if files == 0 {
            1
        } else {
            files
        };
        self.completed_files = 0;
        self.progress = Progress { done: 0, of: 1 };
        self.error = None;
    }

    /// Notes that one more file is in its place.
    pub fn advance_progress(&mut self, target: &str)
        requires
            old(self)@.completed_files < usize::MAX,
        ensures
            final(self)@ == advanced(old(self)@, target@),
    {
        let completed: usize = self.completed_files + 1;
        self.current_file = target.to_owned();
        self.completed_files = completed;
        self.progress = Progress { done: completed, of: self.total_files };
    }

    /// Notes that everything is in its place.
    pub fn finish_progress(&mut self)
        ensures
            final(self)@ == finished(old(self)@),
    {
        self.progress = Progress { done: 1, of: 1 };
    }
}

/// Where the product is installed unless the user chooses another place, component
/// by component: below the user's directory for local data, else below the place
/// where it is in the user's profile, else below the current directory.
pub open spec fn default_parts(local: Option<Seq<char>>, profile: Option<Seq<char>>) -> Seq<
    Seq<char>,
> {
    (match (local, profile) {
        (Some(dir), _) => seq![dir],
        (None, Some(dir)) => seq![dir, "AppData\\Local"@],
        (None, None) => seq!["."@],
    }) + seq!["Programs"@, "QAQ-Harness"@]
}

impl InstallerConfig {
    /// `default_parts`, executable.
    pub fn default_path(local: Option<String>, profile: Option<String>) -> (r: Vec<String>)
        ensures
            model::views(r@) == default_parts(model::opt_view(local), model::opt_view(profile)),
    {
        let ghost wanted = default_parts(model::opt_view(local), model::opt_view(profile));
        let mut out: Vec<String> = Vec::new();
        match local {
            Some(dir) => {
                out.push(dir);
            },
            None => match profile {
                Some(dir) => {
                    out.push(dir);
                    out.push("AppData\\Local".to_owned());
                },
                None => {
                    out.push(".".to_owned());
                },
            },
        }
        out.push("Programs".to_owned());
        out.push("QAQ-Harness".to_owned());
        assert(model::views(out@) =~= wanted);
        out
    }
}

/// A bundle with a part of the product updates; one with the whole product installs
/// it, or upgrades it where it is there already.
pub proof fn operations_follow_the_bundle(kind: Seq<char>, has_application: bool)
    ensures
        kind != "full"@ ==> operation_of(kind, has_application) == "update"@,
        operation_of("full"@, true) == "upgrade"@,
        operation_of("full"@, false) == "install"@,
{
}

/// An installation begins with nothing done and no error, and knows its bundle.
/// What the user chose stays. Each file counts once and is the one shown, and the
/// end is the whole.
pub proof fn progress_follows_the_files(
    c: ConfigView,
    manifest: BundleManifest,
    has_application: bool,
    target: Seq<char>,
)
    requires
        c.completed_files < usize::MAX,
        0 < manifest.files@.len() <= usize::MAX,
    ensures
        ({
            let start = begun(c, manifest, has_application);
            let next = advanced(c, target);
            let done = finished(c);
            &&& start.bundle_kind == manifest.kind@
            &&& start.bundle_build_id == manifest.build_id@
            &&& start.total_files == manifest.files@.len()
            &&& start.completed_files == 0
            &&& start.progress.done == 0 && start.progress.of > 0
            &&& start.error is None
            &&& start.target_path == c.target_path
            &&& start.create_start_menu == c.create_start_menu
            &&& start.create_desktop_shortcut == c.create_desktop_shortcut
            &&& start.install_desktop_app == c.install_desktop_app
            &&& next.current_file == target
            &&& next.completed_files == c.completed_files + 1
            &&& next.progress.done == c.completed_files + 1
            &&& next.progress.of == c.total_files
            &&& next.total_files == c.total_files
            &&& next.error == c.error
            &&& done.progress.done == done.progress.of
            &&& done.progress.of > 0
            &&& done.error == c.error
            &&& done.completed_files == c.completed_files
        }),
{
}

/// The product goes below the user's directory for local data where that is known,
/// else into its usual place in the profile.
pub proof fn product_goes_below_the_local_data(
    local: Seq<char>,
    profile: Option<Seq<char>>,
    home: Seq<char>,
)
    ensures
        default_parts(Some(local), profile) == seq![local, "Programs"@, "QAQ-Harness"@],
        default_parts(None, Some(home)) == seq![
            home,
            "AppData\\Local"@,
            "Programs"@,
            "QAQ-Harness"@,
        ],
        default_parts(None, None) == seq!["."@, "Programs"@, "QAQ-Harness"@],
{
    assert(default_parts(Some(local), profile) =~= seq![local, "Programs"@, "QAQ-Harness"@]);
    assert(default_parts(None, Some(home)) =~= seq![
        home,
        "AppData\\Local"@,
        "Programs"@,
        "QAQ-Harness"@,
    ]);
    assert(default_parts(None, None) =~= seq!["."@, "Programs"@, "QAQ-Harness"@]);
}

} // verus!
