//! The directory in which the product keeps its data, and the marker in it that
//! says whose it is.

use vstd::prelude::*;
use vstd::utf8::encode_utf8;

use crate::model;
use crate::text;

verus! {

/// The product's name in a marker.
pub const PRODUCT: &'static str = "QAQ-Harness";

/// The product's name in a marker that was written before it was renamed.
pub const FORMER_PRODUCT: &'static str = "DeepX";

/// The start of an FNV-1a hash.
pub const FNV_OFFSET: u64 = 0xcbf2_9ce4_8422_2325;

/// The factor of an FNV-1a hash.
pub const FNV_PRIME: u64 = 0x100_0000_01b3;

/// What the marker file of a data directory says.
#[derive(Debug)]
pub struct DataRootMarker {
    pub format_version: u32,
    pub product: String,
    /// The directory that the marker was written for.
    pub canonical_root: String,
    /// The home directory of the user it was written for.
    pub owner_home: String,
    pub root_id: String,
}

/// The model of a `DataRootMarker`.
#[verifier::ext_equal]
pub struct MarkerView {
    pub format_version: u32,
    pub product: Seq<char>,
    pub canonical_root: Seq<char>,
    pub owner_home: Seq<char>,
    pub root_id: Seq<char>,
}

impl View for DataRootMarker {
    type V = MarkerView;

    open spec fn view(&self) -> MarkerView {
        MarkerView {
            format_version: self.format_version,
            product: self.product@,
            canonical_root: self.canonical_root@,
            owner_home: self.owner_home@,
            root_id: self.root_id@,
        }
    }
}

/// A path without the prefix that lifts the limit on its length.
pub open spec fn without_long_prefix(path: Seq<char>) -> Seq<char> {
    match text::behind_prefix(path, "//?/UNC/"@) {
        Some(rest) => "//"@ + rest,
        None => match text::behind_prefix(path, "//?/"@) {
            Some(rest) => rest,
            None => path,
        },
    }
}

/// The form in which a path stands in a marker: with forward slashes, without
/// the prefix for long paths and without slashes at its end; on Windows in lower
/// case.
pub open spec fn path_text(path: Seq<char>, windows: bool) -> Seq<char> {
    let cut = text::without_trailing(
        without_long_prefix(text::with_char_replaced(path, '\\', '/')),
        '/',
    );
    if windows {
        text::lowered(cut)
    } else {
        cut
    }
}

/// `path_text`, executable.
pub fn normalize_data_path_text(path: &str, windows: bool) -> (r: String)
    ensures
        r@ == path_text(path@, windows),
{
    let slashes = text::replace_char(path, '\\', '/');
    let short = match text::strip_prefix(slashes.as_str(), "//?/UNC/") {
        Some(rest) => text::join2("//", rest.as_str()),
        None => match text::strip_prefix(slashes.as_str(), "//?/") {
            Some(rest) => rest,
            None => slashes,
        },
    };
    let cut = text::trim_end_char(short.as_str(), '/');
    if windows {
        text::to_lower(cut.as_str())
    } else {
        cut
    }
}

/// The FNV-1a hash that follows `hash` when `bytes` are read.
pub open spec fn fnv(hash: u64, bytes: Seq<u8>) -> u64
    decreases bytes.len(),
{
    if bytes.len() == 0 {
        hash
    } else {
        (fnv(hash, bytes.drop_last()) ^ (bytes.last() as u64)).wrapping_mul(FNV_PRIME)
    }
}

/// Reading two pieces is reading one after the other.
proof fn fnv_of_both(hash: u64, front: Seq<u8>, back: Seq<u8>)
    ensures
        fnv(hash, front + back) == fnv(fnv(hash, front), back),
    decreases back.len(),
{
    if back.len() == 0 {
        assert(front + back =~= front);
    } else {
        assert((front + back).drop_last() =~= front + back.drop_last());
        assert((front + back).last() == back.last());
        fnv_of_both(hash, front, back.drop_last());
    }
}

/// `fnv`, executable.
fn fnv_over(hash: u64, bytes: &[u8]) -> (r: u64)
    ensures
        r == fnv(hash, bytes@),
{
    let mut out: u64 = hash;
    let mut i: usize = 0;
    let total: usize = bytes.len();
    assert(bytes@.take(0).len() == 0);
    while i < total
        invariant
            i <= total,
            total == bytes@.len(),
            out == fnv(hash, bytes@.take(i as int)),
        decreases total - i,
    {
        let ghost longer = bytes@.take(i + 1);
        assert(longer.drop_last() =~= bytes@.take(i as int));
        assert(longer.last() == bytes@[i as int]);
        out = (out ^ (bytes[i] as u64)).wrapping_mul(FNV_PRIME);
        i = i + 1;
    }
    assert(bytes@.take(total as int) =~= bytes@);
    out
}

/// The identifier of the data directory `root` of the user whose home is `home`.
pub open spec fn root_id(root: Seq<char>, home: Seq<char>) -> Seq<char> {
    "data-"@ + text::hex(
        fnv(FNV_OFFSET, encode_utf8(root) + seq![0u8] + encode_utf8(home)) as nat,
        16,
    )
}

/// `root_id`, executable.
pub fn data_root_marker_id(canonical_root: &str, owner_home: &str) -> (r: String)
    ensures
        r@ == root_id(canonical_root@, owner_home@),
{
    let root: &[u8] = canonical_root.as_bytes();
    let home: &[u8] = owner_home.as_bytes();
    let first: u64 = fnv_over(FNV_OFFSET, root);
    let second: u64 = (first ^ 0u64).wrapping_mul(FNV_PRIME);
    proof {
        let zero = seq![0u8];
        assert(zero.drop_last() =~= Seq::empty());
        assert(fnv(first, zero.drop_last()) == first);
        assert(second == fnv(first, zero));
        fnv_of_both(FNV_OFFSET, root@, zero);
        fnv_of_both(FNV_OFFSET, root@ + zero, home@);
    }
    let hash: u64 = fnv_over(second, home);
    text::join2("data-", text::hex_of(hash, 16).as_str())
}

/// The directory that an environment variable names, if it names one.
pub fn data_root_override(value: Option<String>) -> (r: Option<String>)
    ensures
        r == (match value {
            Some(dir) => if dir@.len() > 0 {
                value
            } else {
                None
            },
            None => None,
        }),
{
    match value {
        Some(dir) => if dir.as_str().is_empty() {
            None
        } else {
            Some(dir)
        },
        None => None,
    }
}

/// The variable of the environment that names the user's home directory.
pub fn home_variable(windows: bool) -> (r: &'static str)
    ensures
        r@ == (if windows {
            "USERPROFILE"@
        } else {
            "HOME"@
        }),
{
    if windows {
        "USERPROFILE"
    } else {
        "HOME"
    }
}

/// The data directory, component by component: the one that an environment
/// variable names, if it names one, else `.deepx` in the user's home directory.
pub open spec fn data_root_of(value: Option<Seq<char>>, home: Seq<char>) -> Seq<Seq<char>> {
    match value {
        Some(dir) => if dir.len() > 0 {
            seq![dir]
        } else {
            seq![home, ".deepx"@]
        },
        None => seq![home, ".deepx"@],
    }
}

/// `data_root_of`, executable.
pub fn data_root_parts(value: Option<String>, home: String) -> (r: Vec<String>)
    ensures
        model::views(r@) == data_root_of(model::opt_view(value), home@),
{
    let ghost named = model::opt_view(value);
    let ghost house = home@;
    let mut out: Vec<String> = Vec::new();
    match data_root_override(value) {
        Some(dir) => {
            out.push(dir);
        },
        None => {
            out.push(home);
            out.push(".deepx".to_owned());
        },
    }
    assert(model::views(out@) =~= data_root_of(named, house));
    out
}

/// Where the metadata of a session lies below the data directory, component by
/// component.
pub open spec fn session_meta_of(seed: Seq<char>) -> Seq<Seq<char>> {
    seq!["sessions"@, seed, "meta.json"@]
}

/// `session_meta_of`, executable.
pub fn session_meta_parts(seed: &str) -> (r: Vec<String>)
    ensures
        model::views(r@) == session_meta_of(seed@),
{
    let mut out: Vec<String> = Vec::new();
    out.push("sessions".to_owned());
    out.push(seed.to_owned());
    out.push("meta.json".to_owned());
    assert(model::views(out@) =~= session_meta_of(seed@));
    out
}

/// Where the metadata of a session lies, component by component. `value` is what
/// the environment variable says of the data directory.
pub fn context_stats_path(value: Option<String>, home: String, seed: &str) -> (r: Vec<String>)
    ensures
        model::views(r@) == data_root_of(model::opt_view(value), home@) + session_meta_of(seed@),
{
    let ghost root = data_root_of(model::opt_view(value), home@);
    let mut out = data_root_parts(value, home);
    let mut below = session_meta_parts(seed);
    out.append(&mut below);
    assert(model::views(out@) =~= root + session_meta_of(seed@));
    out
}

/// Whether a marker is this user's, for this directory, under the product's
/// former name. The paths are in the form of `path_text`.
pub open spec fn is_legacy(marker: MarkerView, root: Seq<char>, home: Seq<char>) -> bool {
    &&& marker.product == FORMER_PRODUCT@
    &&& marker.canonical_root == root
    &&& marker.owner_home == home
    &&& marker.root_id == root_id(root, home)
}

/// What a marker is rewritten to, if it is.
pub open spec fn migrated(
    marker: MarkerView,
    root: Seq<char>,
    home: Seq<char>,
) -> Option<MarkerView> {
    if is_legacy(marker, root, home) {
        Some(MarkerView { product: PRODUCT@, ..marker })
    } else {
        None
    }
}

/// A marker that was rewritten is not rewritten again, and stays this user's for
/// this directory.
pub proof fn migration_happens_once(marker: MarkerView, root: Seq<char>, home: Seq<char>)
    ensures
        migrated(marker, root, home) matches Some(after) ==> migrated(after, root, home) is None
            && after.root_id == root_id(root, home),
{
    reveal_strlit("QAQ-Harness");
    reveal_strlit("DeepX");
    assert(PRODUCT@.len() != FORMER_PRODUCT@.len());
}

/// A marker of another product, directory or user is left alone.
pub proof fn foreign_markers_are_left_alone(
    marker: MarkerView,
    root: Seq<char>,
    home: Seq<char>,
)
    requires
        marker.product != FORMER_PRODUCT@ || marker.canonical_root != root || marker.owner_home
            != home,
    ensures
        migrated(marker, root, home) is None,
{
}

/// Decides whether the marker of the data directory `data_root` is rewritten, and
/// to what.
pub fn migrate_legacy_data_root_at(
    marker: DataRootMarker,
    data_root: &str,
    home: &str,
    windows: bool,
) -> (r: Option<DataRootMarker>)
    ensures
        match r {
            Some(after) => migrated(
                marker@,
                path_text(data_root@, windows),
                path_text(home@, windows),
            ) == Some(after@),
            None => migrated(
                marker@,
                path_text(data_root@, windows),
                path_text(home@, windows),
            ) is None,
        },
{
    if !text::same(marker.product.as_str(), FORMER_PRODUCT) {
        return None;
    }
    let canonical_root = normalize_data_path_text(data_root, windows);
    let owner_home = normalize_data_path_text(home, windows);
    let id = data_root_marker_id(canonical_root.as_str(), owner_home.as_str());
    if !text::same(marker.canonical_root.as_str(), canonical_root.as_str()) || !text::same(
        marker.owner_home.as_str(),
        owner_home.as_str(),
    ) || !text::same(marker.root_id.as_str(), id.as_str()) {
        return None;
    }
    Some(
        DataRootMarker {
            format_version: marker.format_version,
            product: PRODUCT.to_owned(),
            canonical_root,
            owner_home,
            root_id: marker.root_id,
        },
    )
}

/// The marker of this user and directory under the former name is rewritten: it
/// gets the new name and keeps everything else.
pub proof fn former_markers_are_renamed(marker: MarkerView, root: Seq<char>, home: Seq<char>)
    ensures
        marker.product == "DeepX"@ && marker.canonical_root == root && marker.owner_home == home
            && marker.root_id == root_id(root, home) <==> migrated(marker, root, home) is Some,
        migrated(marker, root, home) matches Some(after) ==> {
            &&& after.product == "QAQ-Harness"@
            &&& after.canonical_root == marker.canonical_root
            &&& after.owner_home == marker.owner_home
            &&& after.root_id == marker.root_id
        },
{
}

/// A directory that was named is the data directory; an empty name counts as none.
pub proof fn named_directory_is_the_data_directory(dir: Seq<char>, home: Seq<char>)
    ensures
        dir.len() > 0 ==> data_root_of(Some(dir), home) == seq![dir],
        dir.len() == 0 ==> data_root_of(Some(dir), home) == data_root_of(None, home),
        data_root_of(None, home).len() == 2,
        data_root_of(None, home)[0] == home,
        data_root_of(None, home)[1] == ".deepx"@,
{
}

/// In a marker either slash stands for a forward one, and slashes at the end of a path
/// make no difference. On Windows neither does the case.
pub proof fn markers_hold_plain_paths(path: Seq<char>, windows: bool)
    ensures
        ({
            let shown = path_text(path, windows);
            &&& shown.len() > 0 ==> shown.last() != '/'
            &&& path_text(text::with_char_replaced(path, '\\', '/'), windows) == shown
            &&& path_text(path, true) == text::lowered(path_text(path, false))
        }),
{
    let plain = text::with_char_replaced(path, '\\', '/');
    assert(text::with_char_replaced(plain, '\\', '/') =~= plain);
    let whole = without_long_prefix(plain);
    text::trailing_is_cut_off(whole, '/');
    let cut = text::without_trailing(whole, '/');
    if cut.len() > 0 {
        text::letters_lose_their_case(cut.last());
        assert(cut.last() == cut[cut.len() - 1]);
        assert(text::lowered(cut).last() == text::lower_char(cut.last()));
    }
}

/// The prefix for long paths is taken off, and that for long paths of the network gives
/// way to two slashes.
pub proof fn long_prefixes_are_taken_off(rest: Seq<char>)
    ensures
        without_long_prefix("//?/UNC/"@ + rest) == "//"@ + rest,
        !text::has_prefix("//?/"@ + rest, "//?/UNC/"@) ==> without_long_prefix("//?/"@ + rest)
            == rest,
        !text::has_prefix(rest, "//?/"@) && !text::has_prefix(rest, "//?/UNC/"@)
            ==> without_long_prefix(rest) == rest,
{
    let a = "//?/UNC/"@;
    let b = "//?/"@;
    assert((a + rest).subrange(0, a.len() as int) =~= a);
    assert((a + rest).subrange(a.len() as int, (a + rest).len() as int) =~= rest);
    assert((b + rest).subrange(0, b.len() as int) =~= b);
    assert((b + rest).subrange(b.len() as int, (b + rest).len() as int) =~= rest);
}

/// The metadata of a session lie in the directory of that session.
pub proof fn metadata_lie_with_their_session(seed: Seq<char>)
    ensures
        session_meta_of(seed) == seq!["sessions"@, seed, "meta.json"@],
{
}

} // verus!
