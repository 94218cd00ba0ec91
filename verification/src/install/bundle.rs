//! Bundles: what they hold, and what is checked before and after a file of one
//! is put in its place.

use vstd::prelude::*;

use crate::digest;
use crate::model;
use crate::text;

verus! {

/// A file of a bundle.
#[derive(Debug)]
pub struct BundleFile {
    /// Where it stands in the bundle.
    pub source: String,
    /// Where it goes in the installation.
    pub target: String,
    pub size: u64,
    /// Its SHA-256 digest in hexadecimal notation.
    pub sha256: String,
}

/// What a bundle says of itself.
#[derive(Debug)]
pub struct BundleManifest {
    /// full, or the name of a part of the product.
    pub kind: String,
    pub build_id: String,
    /// Whether it only works in an installation that is there.
    pub requires_full_install: bool,
    pub files: Vec<BundleFile>,
}

/// Whether a bundle holds the whole product.
pub open spec fn is_full(kind: Seq<char>) -> bool {
    kind == "full"@
}

/// Whether the files that a bundle replaces are kept as backups.
pub fn preserves_previous(manifest: &BundleManifest) -> (r: bool)
    ensures
        r == !is_full(manifest.kind@),
{
    !text::same(manifest.kind.as_str(), "full")
}

/// Refuses a bundle that needs an installation where there is none.
/// `has_application` says whether the application is there.
pub fn validate_bundle(manifest: &BundleManifest, target: &str, has_application: bool) -> (r:
    Result<(), String>)
    ensures
        r is Err <==> manifest.requires_full_install && !has_application,
        r matches Err(message) ==> message@ == manifest.kind@
            + " 是组件更新包，但目标目录不是完整的 QAQ-Harness 安装目录: "@ + target@,
{
    if manifest.requires_full_install && !has_application {
        return Err(
            text::join3(
                manifest.kind.as_str(),
                " 是组件更新包，但目标目录不是完整的 QAQ-Harness 安装目录: ",
                target,
            ),
        );
    }
    Ok(())
}

/// Whether a payload is what was announced: as many bytes, and the same digest,
/// whatever its case.
pub open spec fn payload_matches(
    size: u64,
    sha256: Seq<char>,
    copied: u64,
    actual: Seq<char>,
) -> bool {
    copied == size && text::lowered(actual) == text::lowered(sha256)
}

/// What is said of a file that is not what was announced.
pub open spec fn mismatch_message(
    file: BundleFile,
    copied: u64,
    actual: Seq<char>,
) -> Seq<char> {
    "文件校验失败: "@ + file.target@ + "（大小 "@ + text::decimal(copied as nat) + "/"@
        + text::decimal(file.size as nat) + ", SHA-256 "@ + actual + "/"@ + file.sha256@ + "）"@
}

/// Checks a file against what its bundle says: `copied` is its size, `actual` its
/// digest.
pub fn check_file(file: &BundleFile, copied: u64, actual: &str) -> (r: Result<(), String>)
    ensures
        r is Ok <==> payload_matches(file.size, file.sha256@, copied, actual@),
        r matches Err(message) ==> message@ == mismatch_message(*file, copied, actual@),
{
    if copied == file.size && text::same_ignoring_case(actual, file.sha256.as_str()) {
        return Ok(());
    }
    let a = text::join3("文件校验失败: ", file.target.as_str(), "（大小 ");
    let b = text::join3(a.as_str(), text::decimal_of(copied).as_str(), "/");
    let c = text::join3(b.as_str(), text::decimal_of(file.size).as_str(), ", SHA-256 ");
    let d = text::join3(c.as_str(), actual, "/");
    Err(text::join3(d.as_str(), file.sha256.as_str(), "）"))
}

/// Checks the bytes of a file against what its bundle says.
pub fn install_file_from_reader(bytes: &[u8], file: &BundleFile) -> (r: Result<(), String>)
    ensures
        r is Ok <==> payload_matches(
            file.size,
            file.sha256@,
            bytes@.len() as u64,
            digest::hex_digest(bytes@),
        ),
        r matches Err(message) ==> message@ == mismatch_message(
            *file,
            bytes@.len() as u64,
            digest::hex_digest(bytes@),
        ),
{
    let actual = digest::sha256_hex(bytes);
    let copied: usize = bytes.len();
    check_file(file, copied as u64, actual.as_str())
}

/// Two payloads that pass for one file have the same digest.
pub proof fn accepted_payloads_agree(
    size: u64,
    sha256: Seq<char>,
    first: Seq<char>,
    second: Seq<char>,
)
    requires
        payload_matches(size, sha256, size, first),
        payload_matches(size, sha256, size, second),
    ensures
        text::lowered(first) == text::lowered(second),
{
}

/// The name under which a new file is written before it is put in use.
pub fn temporary_name(file_name: &str, process_id: u32) -> (r: String)
    ensures
        r@ == "."@ + file_name@ + ".deepx-new-"@ + text::decimal(process_id as nat),
{
    let start = text::join3(".", file_name, ".deepx-new-");
    text::join2(start.as_str(), text::decimal_of(process_id as u64).as_str())
}

/// The name under which the file that was in use is kept.
pub fn backup_name(file_name: &str) -> (r: String)
    ensures
        r@ == file_name@ + ".previous"@,
{
    text::join2(file_name, ".previous")
}

/// The identifier of the operation that a bundle is installed by.
pub fn install_operation(manifest: &BundleManifest) -> (r: String)
    ensures
        r@ == "installer-"@ + manifest.build_id@,
{
    text::join2("installer-", manifest.build_id.as_str())
}

/// What is said when a bundle was installed without a window.
pub fn installed_message(manifest: &BundleManifest, target: &str) -> (r: String)
    ensures
        r@ == manifest.kind@ + " bundle "@ + manifest.build_id@ + " installed: "@ + text::decimal(
            manifest.files@.len(),
        ) + " files in "@ + target@,
{
    let files: usize = manifest.files.len();
    let a = text::join3(manifest.kind.as_str(), " bundle ", manifest.build_id.as_str());
    let b = text::join3(a.as_str(), " installed: ", text::decimal_of(files as u64).as_str());
    text::join3(b.as_str(), " files in ", target)
}

// ---------------------------------------------------------------------------
// Where a bundle comes from
// ---------------------------------------------------------------------------

/// Where the files of an installation are taken from.
#[derive(Debug, Clone, Copy, PartialEq, Eq, Structural)]
pub enum InstallSource {
    /// The archive that is appended to the executable.
    Embedded,
    /// The directory beside the executable.
    Payload,
}

/// Where an installation takes its files from: the archive if one was found, else
/// the directory if it is there.
pub fn run_install(archive_found: bool, payload_exists: bool) -> (r: Result<InstallSource, String>)
    ensures
        r is Err <==> !archive_found && !payload_exists,
        r matches Ok(source) ==> source == (if archive_found {
            InstallSource::Embedded
        } else {
            InstallSource::Payload
        }),
        r matches Err(message) ==> message@
            == "未找到安装数据：EXE 内无嵌入包，且 payload/ 目录不存在。"@,
{
    if archive_found {
        Ok(InstallSource::Embedded)
    } else if payload_exists {
        Ok(InstallSource::Payload)
    } else {
        Err("未找到安装数据：EXE 内无嵌入包，且 payload/ 目录不存在。".to_owned())
    }
}

/// What a patch is read from.
#[derive(Debug, Clone, Copy, PartialEq, Eq, Structural)]
pub enum PatchSource {
    Zip,
    Directory,
}

/// Whether an extension is that of an archive.
pub open spec fn is_zip(extension: Option<Seq<char>>) -> bool {
    extension matches Some(e) && text::lowered(e) == text::lowered("zip"@)
}

/// What the patch `source` is read from. `exists`, `extension` and `is_dir` say
/// what is there.
pub fn run_patch(source: &str, exists: bool, extension: Option<&str>, is_dir: bool) -> (r: Result<
    PatchSource,
    String,
>)
    ensures
        ({
            let zip = is_zip(
                match extension {
                    Some(e) => Some(e@),
                    None => None,
                },
            );
            &&& r is Ok <==> exists && (zip || is_dir)
            &&& r matches Ok(kind) ==> kind == (if zip {
                PatchSource::Zip
            } else {
                PatchSource::Directory
            })
            &&& r matches Err(message) ==> message@ == (if !exists {
                "source not found: "@ + source@
            } else {
                "unsupported source (expected .zip or directory): "@ + source@
            })
        }),
{
    if !exists {
        return Err(text::join2("source not found: ", source));
    }
    if let Some(e) = extension {
        if text::same_ignoring_case(e, "zip") {
            return Ok(PatchSource::Zip);
        }
    }
    if is_dir {
        return Ok(PatchSource::Directory);
    }
    Err(text::join2("unsupported source (expected .zip or directory): ", source))
}

/// Refuses an installation whose updater, at `updater`, is not there.
pub fn check_updater(updater: &str, is_file: bool) -> (r: Result<(), String>)
    ensures
        r is Ok <==> is_file,
        r matches Err(message) ==> message@
            == "目标安装缺少 updater，请先进行完整安装或升级: "@ + updater@,
{
    if is_file {
        Ok(())
    } else {
        Err(text::join2("目标安装缺少 updater，请先进行完整安装或升级: ", updater))
    }
}

/// What is said of an updater that failed: what it wrote, or its exit status
/// where it wrote nothing.
pub fn push_update(stderr: &str, status: &str) -> (r: String)
    ensures
        r@ == (if text::trimmed(stderr@).len() == 0 {
            "updater 失败，退出码 "@ + status@
        } else {
            text::trimmed(stderr@)
        }),
{
    let message = text::trim(stderr);
    if message.as_str().is_empty() {
        text::join2("updater 失败，退出码 ", status)
    } else {
        message
    }
}

/// Whether the uninstaller of an earlier version, at `legacy`, is removed. That is
/// refused in a folder that could not be verified, for this reason, and where what
/// stands in its place is no plain file.
pub open spec fn legacy_removal(
    unverified: Option<Seq<char>>,
    legacy: Seq<char>,
    exists: bool,
    plain_file: bool,
) -> Result<bool, Seq<char>> {
    match unverified {
        Some(reason) => Err("refuse legacy uninstaller cleanup: "@ + reason),
        None => if !exists {
            Ok(false)
        } else if !plain_file {
            Err("refuse to remove unexpected legacy uninstaller object: "@ + legacy)
        } else {
            Ok(true)
        },
    }
}

/// Whether the uninstaller of an earlier version, at `legacy`, is removed.
pub fn remove_legacy_uninstaller(
    unverified: Option<String>,
    legacy: &str,
    exists: bool,
    is_link: bool,
    is_file: bool,
) -> (r: Result<bool, String>)
    ensures
        match (r, legacy_removal(model::opt_view(unverified), legacy@, exists, !is_link && is_file)) {
            (Ok(removes), Ok(expected)) => removes == expected,
            (Err(message), Err(expected)) => message@ == expected,
            _ => false,
        },
{
    match unverified {
        Some(reason) => Err(text::join2("refuse legacy uninstaller cleanup: ", reason.as_str())),
        None => if !exists {
            Ok(false)
        } else if is_link || !is_file {
            Err(text::join2("refuse to remove unexpected legacy uninstaller object: ", legacy))
        } else {
            Ok(true)
        },
    }
}

/// In a folder that was verified the old uninstaller is removed exactly where it is
/// a plain file. Where nothing is there nothing is done; anything else that stands
/// in its place is refused.
pub proof fn only_plain_files_are_removed(legacy: Seq<char>, exists: bool, plain_file: bool)
    ensures
        exists && plain_file <==> legacy_removal(None, legacy, exists, plain_file) == Ok::<
            bool,
            Seq<char>,
        >(true),
        !exists <==> legacy_removal(None, legacy, exists, plain_file) == Ok::<bool, Seq<char>>(
            false,
        ),
        exists && !plain_file <==> legacy_removal(None, legacy, exists, plain_file) is Err,
{
}

/// A payload is accepted exactly when it has the announced size and, digit for
/// digit and whatever the case, the announced digest.
pub proof fn payloads_match_in_size_and_digest(
    size: u64,
    sha256: Seq<char>,
    copied: u64,
    actual: Seq<char>,
)
    ensures
        payload_matches(size, sha256, copied, actual) <==> {
            &&& copied == size
            &&& actual.len() == sha256.len()
            &&& forall|i: int|
                0 <= i < actual.len() ==> text::lower_char(#[trigger] actual[i])
                    == text::lower_char(sha256[i])
        },
{
    let a = text::lowered(actual);
    let b = text::lowered(sha256);
    if payload_matches(size, sha256, copied, actual) {
        assert(a.len() == b.len());
        assert forall|i: int| 0 <= i < actual.len() implies text::lower_char(#[trigger] actual[i])
            == text::lower_char(sha256[i]) by {
            assert(a[i] == b[i]);
        }
    }
    if actual.len() == sha256.len() && forall|i: int|
        0 <= i < actual.len() ==> text::lower_char(#[trigger] actual[i]) == text::lower_char(
            sha256[i],
        ) {
        assert(a =~= b);
    }
}

/// An archive is known by its extension, in whatever case.
pub proof fn archives_are_known_by_their_extension(extension: Seq<char>)
    ensures
        !is_zip(None),
        is_zip(Some(extension)) <==> extension.len() == 3 && (extension[0] == 'z' || extension[0]
            == 'Z') && (extension[1] == 'i' || extension[1] == 'I') && (extension[2] == 'p'
            || extension[2] == 'P'),
{
    reveal_strlit("zip");
    let wanted = text::lowered("zip"@);
    let found = text::lowered(extension);
    if extension.len() == 3 {
        text::letters_lose_their_case(extension[0]);
        text::letters_lose_their_case(extension[1]);
        text::letters_lose_their_case(extension[2]);
        assert(found[0] == text::lower_char(extension[0]));
        assert(found[1] == text::lower_char(extension[1]));
        assert(found[2] == text::lower_char(extension[2]));
        assert(wanted[0] == 'z');
        assert(wanted[1] == 'i');
        assert(wanted[2] == 'p');
        if found[0] == 'z' && found[1] == 'i' && found[2] == 'p' {
            assert(found =~= wanted);
        }
    } else {
        assert(found.len() != wanted.len());
    }
}

/// Nothing is removed from a folder that could not be verified.
pub proof fn unverified_folders_are_left_alone(
    reason: Seq<char>,
    legacy: Seq<char>,
    exists: bool,
    plain_file: bool,
)
    ensures
        legacy_removal(Some(reason), legacy, exists, plain_file) is Err,
{
}

} // verus!
