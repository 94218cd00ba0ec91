//! A daemon on another machine: how it is reached, and its files.

use vstd::prelude::*;

use crate::json::{Json, JsonView};
use crate::model;
use crate::model::Duplicate;
use crate::text;

verus! {

/// How a daemon on another machine is reached.
#[derive(Debug, PartialEq, Eq)]
pub struct RemoteProfile {
    /// `http://<ip>:<port>`, without a slash at the end.
    pub base_url: String,
    pub token: String,
}

/// The model of a `RemoteProfile`.
#[verifier::ext_equal]
pub struct ProfileView {
    pub base_url: Seq<char>,
    pub token: Seq<char>,
}

impl View for RemoteProfile {
    type V = ProfileView;

    open spec fn view(&self) -> ProfileView {
        ProfileView { base_url: self.base_url@, token: self.token@ }
    }
}

impl Duplicate for RemoteProfile {
    fn duplicate(&self) -> (r: RemoteProfile) {
        RemoteProfile { base_url: self.base_url.clone(), token: self.token.clone() }
    }
}

/// The profile that an address and a token as entered stand for: both trimmed,
/// the address without slashes at its end. There is none where the address is
/// not an http or https address.
pub open spec fn profile_of(base_url: Seq<char>, token: Seq<char>) -> Option<ProfileView> {
    let url = text::without_trailing(text::trimmed(base_url), '/');
    if text::has_prefix(url, "http://"@) || text::has_prefix(url, "https://"@) {
        Some(ProfileView { base_url: url, token: text::trimmed(token) })
    } else {
        None
    }
}

/// `profile_of`, executable.
pub fn remote_profile(base_url: &str, token: &str) -> (r: Option<RemoteProfile>)
    ensures
        model::opt_view(r) == profile_of(base_url@, token@),
{
    let trimmed = text::trim(base_url);
    let url = text::trim_end_char(trimmed.as_str(), '/');
    if text::starts_with(url.as_str(), "http://") || text::starts_with(url.as_str(), "https://") {
        Some(RemoteProfile { base_url: url, token: text::trim(token) })
    } else {
        None
    }
}

/// The profile that a stored one gives at start: none where its address is
/// empty.
pub open spec fn usable(stored: Option<ProfileView>) -> Option<ProfileView> {
    match stored {
        Some(profile) => if profile.base_url.len() > 0 {
            stored
        } else {
            None
        },
        None => None,
    }
}

/// `usable`, executable.
pub fn load_remote_profile(stored: Option<RemoteProfile>) -> (r: Option<RemoteProfile>)
    ensures
        model::opt_view(r) == usable(model::opt_view(stored)),
{
    match stored {
        Some(profile) => if profile.base_url.as_str().is_empty() {
            None
        } else {
            Some(profile)
        },
        None => None,
    }
}

/// One entry of a remote directory.
#[derive(Debug)]
pub struct RemoteFsEntry {
    pub name: String,
    pub path: String,
    pub is_dir: bool,
    pub is_file: bool,
    pub size: u64,
}

/// The model of a `RemoteFsEntry`.
#[verifier::ext_equal]
pub struct FsEntryView {
    pub name: Seq<char>,
    pub path: Seq<char>,
    pub is_dir: bool,
    pub is_file: bool,
    pub size: u64,
}

impl View for RemoteFsEntry {
    type V = FsEntryView;

    open spec fn view(&self) -> FsEntryView {
        FsEntryView {
            name: self.name@,
            path: self.path@,
            is_dir: self.is_dir,
            is_file: self.is_file,
            size: self.size,
        }
    }
}

impl Duplicate for RemoteFsEntry {
    fn duplicate(&self) -> (r: RemoteFsEntry) {
        RemoteFsEntry {
            name: self.name.clone(),
            path: self.path.clone(),
            is_dir: self.is_dir,
            is_file: self.is_file,
            size: self.size,
        }
    }
}

/// One directory entry in its wire form: it has a name and a path.
pub open spec fn fs_entry_in(value: JsonView) -> Option<FsEntryView> {
    match (value.text_field("name"@), value.text_field("path"@)) {
        (Some(name), Some(path)) => Some(
            FsEntryView {
                name,
                path,
                is_dir: value.flag("is_dir"@),
                is_file: value.flag("is_file"@),
                size: value.count("size"@),
            },
        ),
        _ => None,
    }
}

/// `fs_entry_in`, executable.
pub fn parse_remote_fs_entry(value: &Json) -> (r: Option<RemoteFsEntry>)
    ensures
        model::opt_view(r) == fs_entry_in(value@),
{
    match (value.text_field("name"), value.text_field("path")) {
        (Some(name), Some(path)) => Some(
            RemoteFsEntry {
                name,
                path,
                is_dir: value.flag("is_dir"),
                is_file: value.flag("is_file"),
                size: value.count("size"),
            },
        ),
        _ => None,
    }
}

/// The well-formed entries of a directory in its wire form.
pub open spec fn fs_entries_in(value: JsonView) -> Seq<FsEntryView> {
    match value {
        JsonView::List(items) => items.filter_map(|item: JsonView| fs_entry_in(item)),
        _ => Seq::empty(),
    }
}

/// `fs_entries_in`, executable.
pub fn parse_remote_fs_entries(value: &Json) -> (r: Vec<RemoteFsEntry>)
    ensures
        model::views(r@) == fs_entries_in(value@),
{
    let mut out: Vec<RemoteFsEntry> = Vec::new();
    let ghost pick = |item: JsonView| fs_entry_in(item);
    match value {
        Json::List(items) => {
            let ghost all = value@->List_0;
            let mut i: usize = 0;
            assert(model::views(out@) =~= all.take(0).filter_map(pick)) by {
                reveal_with_fuel(Seq::filter_map, 1);
            }
            while i < items.len()
                invariant
                    i <= items@.len(),
                    all.len() == items@.len(),
                    forall|k: int| 0 <= k < all.len() ==> #[trigger] all[k] == items@[k]@,
                    pick == (|item: JsonView| fs_entry_in(item)),
                    model::views(out@) == all.take(i as int).filter_map(pick),
                decreases items@.len() - i,
            {
                proof {
                    all.lemma_filter_map_take_succ(pick, i as int);
                }
                if let Some(entry) = parse_remote_fs_entry(&items[i]) {
                    let ghost before = out@;
                    out.push(entry);
                    assert(model::views(out@) =~= model::views(before).push(entry@));
                }
                i = i + 1;
            }
            assert(all.take(all.len() as int) =~= all);
        },
        _ => {
            assert(model::views(out@) =~= fs_entries_in(value@));
        },
    }
    out
}

/// A remote directory, or what is known of one that is being read.
#[derive(Debug)]
pub struct RemoteFsListing {
    pub path: String,
    pub entries: Vec<RemoteFsEntry>,
    pub loading: bool,
    pub error: Option<String>,
}

/// The model of a `RemoteFsListing`.
#[verifier::ext_equal]
pub struct ListingView {
    pub path: Seq<char>,
    pub entries: Seq<FsEntryView>,
    pub loading: bool,
    pub error: Option<Seq<char>>,
}

impl View for RemoteFsListing {
    type V = ListingView;

    open spec fn view(&self) -> ListingView {
        ListingView {
            path: self.path@,
            entries: model::views(self.entries@),
            loading: self.loading,
            error: model::opt_view(self.error),
        }
    }
}

impl Duplicate for RemoteFsListing {
    fn duplicate(&self) -> (r: RemoteFsListing) {
        RemoteFsListing {
            path: self.path.clone(),
            entries: model::duplicate_all(&self.entries),
            loading: self.loading,
            error: model::duplicate_opt(&self.error),
        }
    }
}

/// The beginning of a remote file.
#[derive(Debug)]
pub struct RemoteFsPreview {
    pub path: String,
    pub content: String,
    pub truncated: bool,
}

/// The model of a `RemoteFsPreview`.
#[verifier::ext_equal]
pub struct PreviewView {
    pub path: Seq<char>,
    pub content: Seq<char>,
    pub truncated: bool,
}

impl View for RemoteFsPreview {
    type V = PreviewView;

    open spec fn view(&self) -> PreviewView {
        PreviewView { path: self.path@, content: self.content@, truncated: self.truncated }
    }
}

impl Duplicate for RemoteFsPreview {
    fn duplicate(&self) -> (r: RemoteFsPreview) {
        RemoteFsPreview {
            path: self.path.clone(),
            content: self.content.clone(),
            truncated: self.truncated,
        }
    }
}

/// The preview of the file `path` in its wire form.
pub open spec fn preview_in(path: Seq<char>, value: JsonView) -> PreviewView {
    PreviewView {
        path,
        content: value.text_or_empty("content"@),
        truncated: value.flag("truncated"@),
    }
}

/// `preview_in`, executable.
pub fn parse_remote_fs_preview(path: String, value: &Json) -> (r: RemoteFsPreview)
    ensures
        r@ == preview_in(path@, value@),
{
    RemoteFsPreview {
        path,
        content: value.text_or_empty("content"),
        truncated: value.flag("truncated"),
    }
}

/// What the shell knows of the remote daemon and its files.
#[derive(Debug)]
pub struct RemoteState {
    pub profile: Option<RemoteProfile>,
    pub listing: RemoteFsListing,
    pub listing_rev: u64,
    pub preview: Option<RemoteFsPreview>,
    pub preview_rev: u64,
}

/// The model of a `RemoteState`.
#[verifier::ext_equal]
pub struct RemoteView {
    pub profile: Option<ProfileView>,
    pub listing: ListingView,
    pub listing_rev: u64,
    pub preview: Option<PreviewView>,
    pub preview_rev: u64,
}

impl View for RemoteState {
    type V = RemoteView;

    open spec fn view(&self) -> RemoteView {
        RemoteView {
            profile: model::opt_view(self.profile),
            listing: self.listing@,
            listing_rev: self.listing_rev,
            preview: model::opt_view(self.preview),
            preview_rev: self.preview_rev,
        }
    }
}

/// No remote daemon.
pub open spec fn no_remote() -> RemoteView {
    RemoteView {
        profile: None,
        listing: ListingView {
            path: Seq::empty(),
            entries: Seq::empty(),
            loading: false,
            error: None,
        },
        listing_rev: 0,
        preview: None,
        preview_rev: 0,
    }
}

/// A listing while the directory `path` is being read.
pub open spec fn reading(path: Seq<char>) -> ListingView {
    ListingView { path, entries: Seq::empty(), loading: true, error: None }
}

/// The listing of the directory `path` in its wire form.
pub open spec fn listed(path: Seq<char>, value: JsonView) -> ListingView {
    ListingView { path, entries: fs_entries_in(value), loading: false, error: None }
}

/// A listing whose reading failed.
pub open spec fn unreadable(listing: ListingView, error: Seq<char>) -> ListingView {
    ListingView { loading: false, error: Some(error), ..listing }
}

/// Only an http or https address makes a profile. White space round the address
/// or the token and slashes behind the address make no difference to it.
pub proof fn profiles_have_clean_addresses(base_url: Seq<char>, token: Seq<char>)
    ensures
        ({
            let url = text::without_trailing(text::trimmed(base_url), '/');
            &&& profile_of(base_url, token) is Some <==> text::has_prefix(url, "http://"@)
                || text::has_prefix(url, "https://"@)
            &&& profile_of(base_url, token) matches Some(profile) ==> {
                &&& profile.base_url == url
                &&& profile.token == text::trimmed(token)
                &&& profile.base_url.len() > 0 && profile.base_url.last() != '/'
            }
        }),
{
    let shown = text::trimmed(base_url);
    text::trailing_is_cut_off(shown, '/');
    reveal_strlit("http://");
    reveal_strlit("https://");
    let url = text::without_trailing(shown, '/');
    if url.len() > 0 {
        assert(url.last() == url[url.len() - 1]);
    }
}

/// A stored profile is used exactly when it has an address, and used as it is.
pub proof fn stored_profile_is_used_as_it_is(stored: ProfileView)
    ensures
        usable(None) is None,
        stored.base_url.len() > 0 ==> usable(Some(stored)) == Some(stored),
        stored.base_url.len() == 0 ==> usable(Some(stored)) is None,
{
}

/// An entry of a directory has a name and a path, which are texts; a flag that is
/// not there is off, and a size that is not there is nothing.
pub proof fn entries_are_read_field_by_field(value: JsonView)
    ensures
        fs_entry_in(value) is Some <==> (value.field("name"@) matches Some(n) && n is Text) && (
        value.field("path"@) matches Some(p) && p is Text),
        fs_entry_in(value) matches Some(entry) ==> {
            &&& value.field("name"@) == Some(JsonView::Text(entry.name))
            &&& value.field("path"@) == Some(JsonView::Text(entry.path))
            &&& entry.is_dir <==> value.field("is_dir"@) == Some(JsonView::Bool(true))
            &&& entry.is_file <==> value.field("is_file"@) == Some(JsonView::Bool(true))
            &&& value.field("size"@) matches Some(JsonView::Number(Some(n))) ==> entry.size == n
            &&& value.field("size"@) is None ==> entry.size == 0
        },
{
}

/// A directory that is being read shows nothing yet; one that was read shows its
/// entries; one that could not be read shows why and what it showed before.
pub proof fn listings_follow_the_reading(
    before: ListingView,
    path: Seq<char>,
    value: JsonView,
    error: Seq<char>,
)
    ensures
        reading(path).path == path && reading(path).loading && reading(path).error is None
            && reading(path).entries.len() == 0,
        listed(path, value).path == path && !listed(path, value).loading && listed(
            path,
            value,
        ).error is None,
        !(value is List) ==> listed(path, value).entries.len() == 0,
        unreadable(before, error).error == Some(error) && !unreadable(before, error).loading,
        unreadable(before, error).path == before.path && unreadable(before, error).entries
            == before.entries,
        preview_in(path, value).path == path,
        preview_in(path, value).truncated <==> value.field("truncated"@) == Some(
            JsonView::Bool(true),
        ),
        value.field("content"@) matches Some(JsonView::Text(content)) ==> preview_in(
            path,
            value,
        ).content == content,
{
}

impl RemoteState {
    /// No remote daemon.
    pub fn new() -> (r: RemoteState)
        ensures
            r@ == no_remote(),
    {
        let r = RemoteState {
            profile: None,
            listing: RemoteFsListing {
                path: String::new(),
                entries: Vec::new(),
                loading: false,
                error: None,
            },
            listing_rev: 0,
            preview: None,
            preview_rev: 0,
        };
        assert(r@.listing.entries =~= no_remote().listing.entries);
        r
    }

    /// Begins to read the directory `path`.
    pub fn begin_fs_list(&mut self, path: String)
        ensures
            final(self)@ == (RemoteView {
                listing: reading(path@),
                listing_rev: model::next_rev(old(self)@.listing_rev),
                ..old(self)@
            }),
    {
        self.listing = RemoteFsListing { path, entries: Vec::new(), loading: true, error: None };
        self.listing_rev = model::bump(self.listing_rev);
        assert(self@.listing.entries =~= Seq::empty());
    }

    /// Takes over what was read of the directory `path`.
    pub fn finish_fs_list(&mut self, path: String, value: &Json)
        ensures
            final(self)@ == (RemoteView {
                listing: listed(path@, value@),
                listing_rev: model::next_rev(old(self)@.listing_rev),
                ..old(self)@
            }),
    {
        self.listing = RemoteFsListing {
            path,
            entries: parse_remote_fs_entries(value),
            loading: false,
            error: None,
        };
        self.listing_rev = model::bump(self.listing_rev);
    }

    /// Notes that the daemon could not be reached.
    pub fn fail_fs_connect(&mut self, error: &str)
        ensures
            final(self)@ == (RemoteView {
                listing: unreadable(old(self)@.listing, "连接失败："@ + error@),
                listing_rev: model::next_rev(old(self)@.listing_rev),
                ..old(self)@
            }),
    {
        self.listing.loading = false;
        self.listing.error = Some(text::join2("连接失败：", error));
        self.listing_rev = model::bump(self.listing_rev);
    }

    /// Notes that the daemon could not read the directory.
    pub fn fail_fs_list(&mut self, error: &str)
        ensures
            final(self)@ == (RemoteView {
                listing: unreadable(old(self)@.listing, "fs.list 失败："@ + error@),
                listing_rev: model::next_rev(old(self)@.listing_rev),
                ..old(self)@
            }),
    {
        self.listing.loading = false;
        self.listing.error = Some(text::join2("fs.list 失败：", error));
        self.listing_rev = model::bump(self.listing_rev);
    }

    /// Takes over what was read of the file `path`.
    pub fn finish_fs_read(&mut self, path: String, value: &Json)
        ensures
            final(self)@ == (RemoteView {
                preview: Some(preview_in(path@, value@)),
                preview_rev: model::next_rev(old(self)@.preview_rev),
                ..old(self)@
            }),
    {
        self.preview = Some(parse_remote_fs_preview(path, value));
        self.preview_rev = model::bump(self.preview_rev);
    }
}

/// Of a directory, every well-formed entry is listed and no other.
pub proof fn well_formed_entries_are_listed(
    path: Seq<char>,
    items: Seq<JsonView>,
    entry: FsEntryView,
)
    ensures
        listed(path, JsonView::List(items)).entries.contains(entry) <==> exists|i: int|
            0 <= i < items.len() && fs_entry_in(#[trigger] items[i]) == Some(entry),
{
    let pick = |item: JsonView| fs_entry_in(item);
    model::picked_is_given_by_an_item(items, pick, entry);
    assert(forall|i: int|
        0 <= i < items.len() ==> pick(#[trigger] items[i]) == fs_entry_in(items[i]));
}

} // verus!
