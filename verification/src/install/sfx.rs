//! Finding the archive that is appended to an executable.

use vstd::prelude::*;

verus! {

/// How many bytes the end-of-central-directory record of an archive takes before
/// its comment.
pub const RECORD_BYTES: u64 = 22;

/// How many bytes the comment of an archive takes at most.
pub const MAX_COMMENT_BYTES: u64 = 65535;

/// How much of the end of a file is searched for an archive: as much as a record
/// with the longest comment takes.
pub const SCAN_BYTES: u64 = RECORD_BYTES + MAX_COMMENT_BYTES;

/// Whether an end-of-central-directory record begins at `at`.
pub open spec fn is_record(bytes: Seq<u8>, at: int) -> bool {
    &&& 0 <= at
    &&& at + 4 <= bytes.len()
    &&& bytes[at] == 0x50
    &&& bytes[at + 1] == 0x4b
    &&& bytes[at + 2] == 0x05
    &&& bytes[at + 3] == 0x06
}

/// Whether the last such record begins at `at`.
pub open spec fn is_last_record(bytes: Seq<u8>, at: int) -> bool {
    is_record(bytes, at) && forall|k: int| k > at ==> !#[trigger] is_record(bytes, k)
}

/// Whether the last such record, if there is one, is there as far as it is read.
pub open spec fn record_is_whole(bytes: Seq<u8>) -> bool {
    forall|at: int| #[trigger] is_last_record(bytes, at) ==> at + 20 <= bytes.len()
}

/// How much of a file is searched.
pub open spec fn searched(file_len: u64) -> u64 {
    if file_len < SCAN_BYTES {
        file_len
    } else {
        SCAN_BYTES
    }
}

/// `searched`, executable.
pub fn scan_len(file_len: u64) -> (r: u64)
    ensures
        r == searched(file_len),
{
    if file_len < SCAN_BYTES {
        file_len
    } else {
        SCAN_BYTES
    }
}

/// Where the last record begins in the end of a file.
pub fn find_record(tail: &Vec<u8>) -> (r: Option<usize>)
    ensures
        match r {
            Some(at) => is_last_record(tail@, at as int),
            None => forall|k: int| !#[trigger] is_record(tail@, k),
        },
{
    let total: usize = tail.len();
    if total < 4 {
        return None;
    }
    let mut i: usize = total - 3;
    while i > 0
        invariant
            total == tail@.len(),
            total >= 4,
            i <= total - 3,
            forall|k: int| k >= i ==> !#[trigger] is_record(tail@, k),
        decreases i,
    {
        i = i - 1;
        if tail[i] == 0x50 && tail[i + 1] == 0x4b && tail[i + 2] == 0x05 && tail[i + 3] == 0x06 {
            assert(is_record(tail@, i as int));
            return Some(i);
        }
    }
    None
}

/// The number in the four bytes at `at`, the low byte first.
pub open spec fn number_at(bytes: Seq<u8>, at: int) -> nat {
    (bytes[at] + bytes[at + 1] * 0x100 + bytes[at + 2] * 0x1_0000 + bytes[at + 3]
        * 0x100_0000) as nat
}

/// `number_at`, executable.
fn read_number(bytes: &Vec<u8>, at: usize) -> (r: u64)
    requires
        at + 4 <= bytes@.len(),
    ensures
        r == number_at(bytes@, at as int),
        r <= 0xffff_ffff,
{
    let total: usize = bytes.len();
    assert(at + 4 <= total);
    bytes[at] as u64 + bytes[at + 1] as u64 * 0x100 + bytes[at + 2] as u64 * 0x1_0000 + bytes[at
        + 3] as u64 * 0x100_0000
}

/// Where an archive stands in a file.
#[derive(Debug, Clone, Copy, PartialEq, Eq, Structural)]
pub struct ZipPlace {
    /// Where the archive begins.
    pub start: u64,
    /// Where its central directory begins.
    pub directory: u64,
}

/// Why a file holds no archive at its end.
#[derive(Debug, Clone, Copy, PartialEq, Eq, Structural)]
pub enum ZipError {
    /// There is no record.
    NoRecord,
    /// The record speaks of more bytes than stand before it.
    OutOfRange,
}

impl ZipError {
    /// What the user is told.
    pub fn message(&self) -> (r: &'static str)
        ensures
            r@ == (match *self {
                ZipError::NoRecord => "末尾未找到 ZIP 签名"@,
                ZipError::OutOfRange => "ZIP 偏移计算溢出"@,
            }),
    {
        match self {
            ZipError::NoRecord => "末尾未找到 ZIP 签名",
            ZipError::OutOfRange => "ZIP 偏移计算溢出",
        }
    }
}

/// Where the record that begins at `at` of the end of a file stands in the file.
pub open spec fn record_position(tail: Seq<u8>, file_len: u64, at: int) -> int {
    file_len - tail.len() + at
}

/// What the record that begins at `at` says.
pub open spec fn place_of(tail: Seq<u8>, file_len: u64, at: int) -> Result<ZipPlace, ZipError> {
    let position = record_position(tail, file_len, at);
    let size = number_at(tail, at + 12);
    let offset = number_at(tail, at + 16);
    if size + offset <= position {
        Ok(
            ZipPlace {
                start: (position - size - offset) as u64,
                directory: (position - size) as u64,
            },
        )
    } else {
        Err(ZipError::OutOfRange)
    }
}

/// Finds the archive at the end of a file of `file_len` bytes, of which `tail`
/// is the end.
pub fn find_zip_in_exe(tail: &Vec<u8>, file_len: u64) -> (r: Result<ZipPlace, ZipError>)
    requires
        tail@.len() <= file_len,
        record_is_whole(tail@),
    ensures
        (forall|k: int| !#[trigger] is_record(tail@, k)) ==> r == Err::<ZipPlace, ZipError>(
            ZipError::NoRecord,
        ),
        forall|at: int| #[trigger] is_last_record(tail@, at) ==> r == place_of(tail@, file_len, at),
{
    match find_record(tail) {
        None => {
            assert forall|at: int| !#[trigger] is_last_record(tail@, at) by {
                assert(!is_record(tail@, at));
            }
            Err(ZipError::NoRecord)
        },
        Some(at) => {
            let total: usize = tail.len();
            assert(at + 20 <= total);
            let size: u64 = read_number(tail, at + 12);
            let offset: u64 = read_number(tail, at + 16);
            let position: u64 = file_len - total as u64 + at as u64;
            assert forall|other: int| #[trigger] is_last_record(tail@, other) implies other == at by {
                assert(is_record(tail@, other));
                assert(is_record(tail@, at as int));
            }
            if size > position || offset > position - size {
                return Err(ZipError::OutOfRange);
            }
            Ok(ZipPlace { start: position - size - offset, directory: position - size })
        },
    }
}

/// An archive that was found lies before its record, and its directory within
/// it.
pub proof fn place_is_in_the_file(tail: Seq<u8>, file_len: u64, at: int)
    requires
        tail.len() <= file_len,
        is_last_record(tail, at),
        at + 20 <= tail.len(),
    ensures
        place_of(tail, file_len, at) matches Ok(place) ==> place.start <= place.directory
            <= record_position(tail, file_len, at) < file_len,
{
}

/// The end of a file that is searched.
pub open spec fn searched_tail(file: Seq<u8>) -> Seq<u8> {
    file.skip(file.len() - searched(file.len() as u64))
}

/// The record of an archive at the end of a file is found whatever comment
/// follows it, and stands where it stands in the file.
pub proof fn every_comment_is_searched(file: Seq<u8>, at: int, comment: nat)
    requires
        file.len() <= u64::MAX,
        is_last_record(file, at),
        comment <= MAX_COMMENT_BYTES,
        at + RECORD_BYTES + comment == file.len(),
    ensures
        ({
            let tail = searched_tail(file);
            let found = at - (file.len() - tail.len());
            &&& is_last_record(tail, found)
            &&& record_is_whole(tail)
            &&& record_position(tail, file.len() as u64, found) == at
        }),
{
    let tail = searched_tail(file);
    let skipped = file.len() - tail.len();
    let found = at - skipped;
    assert(forall|k: int| 0 <= k < tail.len() ==> tail[k] == file[k + skipped]);
    assert(is_record(tail, found));
    assert forall|k: int| k > found implies !#[trigger] is_record(tail, k) by {
        assert(!is_record(file, k + skipped));
    }
    assert forall|other: int| #[trigger] is_last_record(tail, other) implies other == found by {
        assert(is_record(tail, other));
    }
}

/// An archive that follows `stub` bytes is found where it begins:
/// its record says how long its directory is and where it begins in the archive,
/// and the directory ends where the record begins.
pub proof fn appended_archive_is_found(file: Seq<u8>, at: int, comment: nat, stub: nat)
    requires
        file.len() <= u64::MAX,
        is_last_record(file, at),
        comment <= MAX_COMMENT_BYTES,
        at + RECORD_BYTES + comment == file.len(),
        stub + number_at(file, at + 16) + number_at(file, at + 12) == at,
    ensures
        ({
            let tail = searched_tail(file);
            let found = at - (file.len() - tail.len());
            place_of(tail, file.len() as u64, found) matches Ok(place) && place.start == stub
                && place.directory == stub + number_at(file, at + 16)
        }),
{
    every_comment_is_searched(file, at, comment);
    let tail = searched_tail(file);
    let skipped = file.len() - tail.len();
    let found = at - skipped;
    assert(forall|k: int| 0 <= k < tail.len() ==> tail[k] == file[k + skipped]);
    assert(number_at(tail, found + 12) == number_at(file, at + 12));
    assert(number_at(tail, found + 16) == number_at(file, at + 16));
}

/// Whether these bytes begin a central directory.
pub fn is_central_directory(bytes: &Vec<u8>) -> (r: bool)
    ensures
        r == (bytes@ == seq![0x50u8, 0x4b, 0x01, 0x02]),
{
    if bytes.len() == 4 && bytes[0] == 0x50 && bytes[1] == 0x4b && bytes[2] == 0x01 && bytes[3]
        == 0x02 {
        assert(bytes@ =~= seq![0x50u8, 0x4b, 0x01, 0x02]);
        true
    } else {
        false
    }
}

/// A position in a file, as a reader is told to go there.
#[derive(Debug, Clone, Copy, PartialEq, Eq, Structural)]
pub enum SeekTarget {
    Start(u64),
    End(i64),
    Current(i64),
}

/// Where a reader goes in a file when it is told to go to `target` of the archive
/// that begins at `offset`. The archive ends where the file does.
pub fn real_target(offset: u64, target: SeekTarget) -> (r: SeekTarget)
    requires
        target matches SeekTarget::Start(p) ==> offset + p <= u64::MAX,
    ensures
        r == (match target {
            SeekTarget::Start(p) => SeekTarget::Start((offset + p) as u64),
            _ => target,
        }),
{
    match target {
        SeekTarget::Start(p) => SeekTarget::Start(offset + p),
        _ => target,
    }
}

/// The position in the archive of a position in the file.
pub open spec fn archive_position(offset: u64, position: u64) -> u64 {
    if position >= offset {
        (position - offset) as u64
    } else {
        0
    }
}

/// `archive_position`, executable.
pub fn position_in_archive(offset: u64, position: u64) -> (r: u64)
    ensures
        r == archive_position(offset, position),
{
    if position >= offset {
        position - offset
    } else {
        0
    }
}

/// A reader that is told to go to a position of the archive reports that
/// position.
pub proof fn reported_position_is_the_one_asked_for(offset: u64, p: u64)
    requires
        offset + p <= u64::MAX,
    ensures
        archive_position(offset, (offset + p) as u64) == p,
{
}

/// A number is written with its low byte first.
pub proof fn numbers_have_their_low_byte_first(n: u32, bytes: Seq<u8>, at: int)
    requires
        0 <= at,
        at + 4 <= bytes.len(),
        bytes[at] == n % 0x100,
        bytes[at + 1] == n / 0x100 % 0x100,
        bytes[at + 2] == n / 0x1_0000 % 0x100,
        bytes[at + 3] == n / 0x100_0000,
    ensures
        number_at(bytes, at) == n,
{
}

/// A record that speaks of more bytes than stand before it gives no place, and any
/// other gives one.
pub proof fn records_speak_of_what_stands_before_them(tail: Seq<u8>, file_len: u64, at: int)
    requires
        tail.len() <= file_len,
        0 <= at,
        at + 20 <= tail.len(),
    ensures
        place_of(tail, file_len, at) is Err <==> number_at(tail, at + 12) + number_at(tail, at + 16)
            > file_len - tail.len() + at,
{
}

/// The whole of a short file is searched, and of a long one as much of its end as a
/// record with the longest comment takes.
pub proof fn ends_of_files_are_searched(file_len: u64)
    ensures
        searched(file_len) <= file_len,
        file_len <= 65_557 ==> searched(file_len) == file_len,
        file_len >= 65_557 ==> searched(file_len) == 65_557,
{
}

} // verus!
