//! The title bar.

use vstd::prelude::*;

use crate::model;
use crate::model::Duplicate;

verus! {

/// What the title bar shows.
#[derive(Debug)]
pub struct HeaderState {
    pub view: String,
    pub title: String,
    /// The path of the workspace that is shown.
    pub workspace: String,
    /// Why the last choice of a workspace failed.
    pub workspace_error: Option<String>,
    pub seed: String,
    pub info_open: bool,
    pub stats_open: bool,
    pub compacting: bool,
    pub compact_disabled: bool,
    pub undo_disabled: bool,
    pub pet_enabled: bool,
}

/// The model of a `HeaderState`.
#[verifier::ext_equal]
pub struct HeaderView {
    pub view: Seq<char>,
    pub title: Seq<char>,
    pub workspace: Seq<char>,
    pub workspace_error: Option<Seq<char>>,
    pub seed: Seq<char>,
    pub info_open: bool,
    pub stats_open: bool,
    pub compacting: bool,
    pub compact_disabled: bool,
    pub undo_disabled: bool,
    pub pet_enabled: bool,
}

impl View for HeaderState {
    type V = HeaderView;

    open spec fn view(&self) -> HeaderView {
        HeaderView {
            view: self.view@,
            title: self.title@,
            workspace: self.workspace@,
            workspace_error: model::opt_view(self.workspace_error),
            seed: self.seed@,
            info_open: self.info_open,
            stats_open: self.stats_open,
            compacting: self.compacting,
            compact_disabled: self.compact_disabled,
            undo_disabled: self.undo_disabled,
            pet_enabled: self.pet_enabled,
        }
    }
}

/// The title bar before anything is shown.
pub open spec fn blank_header() -> HeaderView {
    HeaderView {
        view: Seq::empty(),
        title: Seq::empty(),
        workspace: Seq::empty(),
        workspace_error: None,
        seed: Seq::empty(),
        info_open: false,
        stats_open: false,
        compacting: false,
        compact_disabled: false,
        undo_disabled: false,
        pet_enabled: false,
    }
}

impl Default for HeaderState {
    fn default() -> (r: HeaderState)
        ensures
            r@ == blank_header(),
    {
        HeaderState {
            view: String::new(),
            title: String::new(),
            workspace: String::new(),
            workspace_error: None,
            seed: String::new(),
            info_open: false,
            stats_open: false,
            compacting: false,
            compact_disabled: false,
            undo_disabled: false,
            pet_enabled: false,
        }
    }
}

impl Duplicate for HeaderState {
    fn duplicate(&self) -> (r: HeaderState) {
        HeaderState {
            view: self.view.clone(),
            title: self.title.clone(),
            workspace: self.workspace.clone(),
            workspace_error: model::duplicate_opt(&self.workspace_error),
            seed: self.seed.clone(),
            info_open: self.info_open,
            stats_open: self.stats_open,
            compacting: self.compacting,
            compact_disabled: self.compact_disabled,
            undo_disabled: self.undo_disabled,
            pet_enabled: self.pet_enabled,
        }
    }
}

/// A switch of the title bar.
#[derive(Debug, Clone, Copy, PartialEq, Eq, Structural)]
pub enum HeaderFlag {
    /// The info panel.
    Info,
    /// The statistics panel.
    Stats,
}

/// The title bar with one switch thrown.
pub open spec fn flipped(h: HeaderView, flag: HeaderFlag) -> HeaderView {
    match flag {
        HeaderFlag::Info => HeaderView { info_open: !h.info_open, ..h },
        HeaderFlag::Stats => HeaderView { stats_open: !h.stats_open, ..h },
    }
}

/// Throwing a switch twice leaves the title bar as it was.
pub proof fn flipping_twice_restores(h: HeaderView, flag: HeaderFlag)
    ensures
        flipped(flipped(h, flag), flag) == h,
{
}

} // verus!
