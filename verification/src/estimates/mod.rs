//! The user's estimates: the card of an uploaded file and the rules of
//! accepting one.
use vstd::prelude::*;

pub mod parse;
pub mod photo;
pub mod worker;

use crate::error::ApiError;
use crate::text::{
    ascii_lower_seq, ascii_lowercase, chars_of, decimal_string, first_chars, last_index_of,
    rfind_char, same_chars, slice_chars, str_eq, string_of, take_chars, trim, trimmed,
};

verus! {

/// 10 MiB. An Excel estimate does not weigh that much even with scans.
pub const MAX_FILE_BYTES: usize = 10 * 1024 * 1024;

/// Cap on estimates per account: without it the disk fills with 10 MiB
/// files for free and for ever.
pub const MAX_PER_USER: i64 = 20;

/// The file name is shown in the list; anything longer breaks the layout.
pub const MAX_FILE_NAME_LEN: usize = 200;

/// Extensions we accept: Excel is parsed by the algorithm, a photo by the
/// neural network. PDF is not accepted: there is nothing to parse it with.
pub open spec fn allowed_exts() -> Seq<&'static str> {
    seq!["xlsx", "xls", "jpg", "jpeg", "png", "webp"]
}

/// Extensions of photographs.
pub open spec fn photo_exts() -> Seq<&'static str> {
    seq!["jpg", "jpeg", "png", "webp"]
}

pub open spec fn is_photo_ext(ext: Seq<char>) -> bool {
    exists|k: int| 0 <= k < photo_exts().len() && ext == #[trigger] photo_exts()[k]@
}

fn in_list(ext: &str, list: &[&'static str]) -> (r: Option<usize>)
    ensures
        r matches Some(k) ==> k < list@.len() && ext@ == list@[k as int]@ && forall|j: int|
            0 <= j < k ==> ext@ != #[trigger] list@[j]@,
        r is None ==> forall|j: int| 0 <= j < list@.len() ==> ext@ != #[trigger] list@[j]@,
{
    let mut k: usize = 0;
    while k < list.len()
        invariant
            k <= list@.len(),
            forall|j: int| 0 <= j < k ==> ext@ != #[trigger] list@[j]@,
        decreases list@.len() - k,
    {
        if str_eq(ext, list[k]) {
            return Some(k);
        }
        k += 1;
    }
    None
}

/// Whether this is a photograph. Both the rules of accepting and the way of
/// parsing part on this.
pub fn is_photo(ext: &str) -> (r: bool)
    ensures
        r == is_photo_ext(ext@),
{
    let list: [&'static str; 4] = ["jpg", "jpeg", "png", "webp"];
    assert(list@ =~= photo_exts());
    in_list(ext, &list).is_some()
}

/// The bytes start with `prefix`.
pub open spec fn bytes_start(bytes: Seq<u8>, prefix: Seq<u8>) -> bool {
    prefix.len() <= bytes.len() && bytes.take(prefix.len() as int) == prefix
}

/// Whether the file looks like a picture of the announced kind, by its first
/// bytes. A file that is not a photo passes: Excel fails honestly in parsing.
pub open spec fn photo_bytes_match(ext: Seq<char>, bytes: Seq<u8>) -> bool {
    if ext == "jpg"@ || ext == "jpeg"@ {
        bytes_start(bytes, seq![0xFFu8, 0xD8u8, 0xFFu8])
    } else if ext == "png"@ {
        bytes_start(bytes, seq![0x89u8, 0x50u8, 0x4Eu8, 0x47u8, 0x0Du8, 0x0Au8, 0x1Au8, 0x0Au8])
    } else if ext == "webp"@ {
        bytes_start(bytes, seq![0x52u8, 0x49u8, 0x46u8, 0x46u8]) && bytes.len() >= 12
            && bytes.subrange(8, 12) == seq![0x57u8, 0x45u8, 0x42u8, 0x50u8]
    } else {
        true
    }
}

fn starts_with_bytes(bytes: &[u8], prefix: &[u8]) -> (r: bool)
    ensures
        r == bytes_start(bytes@, prefix@),
{
    if prefix.len() > bytes.len() {
        return false;
    }
    let mut i: usize = 0;
    while i < prefix.len()
        invariant
            prefix@.len() <= bytes@.len(),
            i <= prefix@.len(),
            forall|j: int| 0 <= j < i ==> bytes@[j] == prefix@[j],
        decreases prefix@.len() - i,
    {
        if bytes[i] != prefix[i] {
            assert(bytes@.take(prefix@.len() as int)[i as int] != prefix@[i as int]);
            return false;
        }
        i += 1;
    }
    assert(bytes@.take(prefix@.len() as int) =~= prefix@);
    true
}

/// Whether the file looks like a picture of the announced kind.
pub fn photo_matches_ext(ext: &str, bytes: &[u8]) -> (r: bool)
    ensures
        r == photo_bytes_match(ext@, bytes@),
{
    if str_eq(ext, "jpg") || str_eq(ext, "jpeg") {
        let magic: [u8; 3] = [0xFF, 0xD8, 0xFF];
        assert(magic@ =~= seq![0xFFu8, 0xD8u8, 0xFFu8]);
        starts_with_bytes(bytes, &magic)
    } else if str_eq(ext, "png") {
        let magic: [u8; 8] = [0x89, 0x50, 0x4E, 0x47, 0x0D, 0x0A, 0x1A, 0x0A];
        assert(magic@ =~= seq![0x89u8, 0x50u8, 0x4Eu8, 0x47u8, 0x0Du8, 0x0Au8, 0x1Au8, 0x0Au8]);
        starts_with_bytes(bytes, &magic)
    } else if str_eq(ext, "webp") {
        let riff: [u8; 4] = [0x52, 0x49, 0x46, 0x46];
        assert(riff@ =~= seq![0x52u8, 0x49u8, 0x46u8, 0x46u8]);
        if !starts_with_bytes(bytes, &riff) || bytes.len() < 12 {
            return false;
        }
        let same = bytes[8] == 0x57 && bytes[9] == 0x45 && bytes[10] == 0x42 && bytes[11] == 0x50;
        assert(same == (bytes@.subrange(8, 12) == seq![0x57u8, 0x45u8, 0x42u8, 0x50u8])) by {
            if same {
                assert(bytes@.subrange(8, 12) =~= seq![0x57u8, 0x45u8, 0x42u8, 0x50u8]);
            } else {
                if bytes@.subrange(8, 12) == seq![0x57u8, 0x45u8, 0x42u8, 0x50u8] {
                    assert(bytes@.subrange(8, 12)[0] == bytes@[8]);
                    assert(bytes@.subrange(8, 12)[1] == bytes@[9]);
                    assert(bytes@.subrange(8, 12)[2] == bytes@[10]);
                    assert(bytes@.subrange(8, 12)[3] == bytes@[11]);
                }
            }
        }
        same
    } else {
        true
    }
}

/// The extension of a file name, if it is one we accept: what follows the
/// last dot, with ASCII letters made small, and one of the allowed ones.
pub open spec fn extension_in(name: Seq<char>) -> Option<Seq<char>> {
    match last_index_of(name, '.') {
        None => None,
        Some(i) => {
            let ext = ascii_lower_seq(name.skip(i + 1));
            if exists|k: int| 0 <= k < allowed_exts().len() && ext == #[trigger] allowed_exts()[k]@ {
                Some(ext)
            } else {
                None
            }
        },
    }
}

/// The extension of the file name, if we accept such files. What is given
/// back is a value of the allowed list, not a piece of the user's string:
/// the name of the file on disk is built from it.
pub fn extension_of(file_name: &str) -> (r: Option<&'static str>)
    ensures
        r matches Some(e) ==> extension_in(file_name@) == Some(e@),
        r is None ==> extension_in(file_name@) is None,
{
    let name = chars_of(file_name);
    let dot = match rfind_char(name.as_slice(), '.') {
        Some(i) => i,
        None => return None,
    };
    assert(dot < name.len());
    let tail = slice_chars(name.as_slice(), dot + 1, name.len());
    assert(tail@ =~= name@.skip(dot + 1));
    let lower = ascii_lowercase(tail.as_slice());
    let ext = string_of(lower.as_slice());
    let list: [&'static str; 6] = ["xlsx", "xls", "jpg", "jpeg", "png", "webp"];
    assert(list@ =~= allowed_exts());
    match in_list(ext.as_str(), &list) {
        Some(k) => Some(list[k]),
        None => None,
    }
}

/// The name a file is stored under: the hyphenated text of the estimate's
/// id (its 128 bits as `id`) and the extension from the allowed list, so
/// nothing of the user's file name reaches the path on disk.
pub fn stored_name(id: u128, ext: &str) -> (r: String)
    ensures
        r@ == crate::users::hyphenated_hex(id) + "."@ + ext@,
{
    let t = crate::users::uuid_hyphenated(id);
    let a = crate::text::concat(chars_of(t.as_str()).as_slice(), chars_of(".").as_slice());
    let b = crate::text::concat(a.as_slice(), chars_of(ext).as_slice());
    string_of(b.as_slice())
}

/// The name cut to a sensible length, white space at the ends removed.
pub open spec fn cleaned_name(name: Seq<char>) -> Seq<char> {
    take_chars(trim(name), MAX_FILE_NAME_LEN as int)
}

/// The file name cut to a sensible length, white space at the ends removed.
pub fn clean_file_name(file_name: &str) -> (r: String)
    ensures
        r@ == cleaned_name(file_name@),
{
    let name = chars_of(file_name);
    let t = trimmed(name.as_slice());
    let cut = first_chars(t.as_slice(), MAX_FILE_NAME_LEN);
    string_of(cut.as_slice())
}

/// The account already holds as many estimates as it may.
pub fn limit_reached() -> (r: ApiError)
    ensures
        r.status == crate::error::STATUS_UNPROCESSABLE,
        r.key@ == "error-estimate-limit"@,
        r.field is None,
        r.args@.len() == 1,
        r.args@[0].0@ == "max"@,
        r.args@[0].1@ == crate::text::decimal(MAX_PER_USER as nat),
{
    ApiError::validation("error-estimate-limit").arg("max", decimal_string(MAX_PER_USER as u64))
}

/// The upload carried no file.
pub fn no_file() -> (r: ApiError)
    ensures
        r.status == crate::error::STATUS_UNPROCESSABLE,
        r.key@ == "error-estimate-no-file"@,
        r.args@.len() == 0,
        r.field == Some("file"),
{
    ApiError::validation("error-estimate-no-file").field("file")
}

/// What the name of an uploaded file gives: the name shown in the list and
/// the extension it is stored with, or "wrong format" when the extension is
/// not one we accept.
pub fn accepted_file(raw_name: &str) -> (r: Result<(String, &'static str), ApiError>)
    ensures
        r matches Ok((name, ext)) ==> name@ == cleaned_name(raw_name@) && extension_in(
            cleaned_name(raw_name@),
        ) == Some(ext@),
        extension_in(cleaned_name(raw_name@)) is None ==> (r matches Err(e) && e.status
            == crate::error::STATUS_UNPROCESSABLE && e.key@ == "error-estimate-format"@ && e.field
            == Some("file") && e.args@.len() == 0),
        r is Ok <==> extension_in(cleaned_name(raw_name@)) is Some,
{
    let name = clean_file_name(raw_name);
    match extension_of(name.as_str()) {
        Some(ext) => Ok((name, ext)),
        None => Err(ApiError::validation("error-estimate-format").field("file")),
    }
}

/// A photo is an expensive input, every one costs a call of the network: it
/// is taken only when the network is on (else it would hang in the queue),
/// and from an account with a confirmed address.
pub fn allow_photo(network_on: bool, email_verified: bool) -> (r: Result<(), ApiError>)
    ensures
        !network_on ==> (r matches Err(e) && e.key@ == "error-estimate-photo-off"@ && e.field == Some(
            "file",
        )),
        network_on && !email_verified ==> (r matches Err(e) && e.key@
            == "error-estimate-photo-needs-email"@ && e.field == Some("file")),
        network_on && email_verified ==> r is Ok,
        r matches Err(e) ==> e.status == crate::error::STATUS_UNPROCESSABLE && e.args@.len() == 0,
{
    if !network_on {
        return Err(ApiError::validation("error-estimate-photo-off").field("file"));
    }
    if !email_verified {
        return Err(ApiError::validation("error-estimate-photo-needs-email").field("file"));
    }
    Ok(())
}

/// The content of an upload: not empty; a picture of the announced kind when
/// it is a photo; not larger than `MAX_FILE_BYTES` (with the limit in MiB as
/// `max`). Checked in this order, before anything is written to disk.
pub fn check_content(ext: &str, bytes: &[u8]) -> (r: Result<(), ApiError>)
    ensures
        bytes@.len() == 0 ==> (r matches Err(e) && e.status == crate::error::STATUS_UNPROCESSABLE
            && e.key@ == "error-estimate-empty"@ && e.args@.len() == 0),
        bytes@.len() > 0 && !photo_bytes_match(ext@, bytes@) ==> (r matches Err(e) && e.status
            == crate::error::STATUS_UNPROCESSABLE && e.key@ == "error-estimate-not-a-photo"@
            && e.args@.len() == 0),
        bytes@.len() > 0 && photo_bytes_match(ext@, bytes@) && bytes@.len() > MAX_FILE_BYTES ==> (r matches Err(
            e,
        ) && e.status == crate::error::STATUS_TOO_LARGE && e.key@ == "error-estimate-too-large"@
            && e.args@.len() == 1 && e.args@[0].0@ == "max"@ && e.args@[0].1@ == crate::text::decimal(
            10,
        )),
        r is Ok <==> bytes@.len() > 0 && photo_bytes_match(ext@, bytes@) && bytes@.len()
            <= MAX_FILE_BYTES,
        r matches Err(e) ==> e.field == Some("file"),
{
    if bytes.len() == 0 {
        return Err(ApiError::validation("error-estimate-empty").field("file"));
    }
    if !photo_matches_ext(ext, bytes) {
        return Err(ApiError::validation("error-estimate-not-a-photo").field("file"));
    }
    if bytes.len() > MAX_FILE_BYTES {
        return Err(
            ApiError::too_large("error-estimate-too-large").arg(
                "max",
                decimal_string((MAX_FILE_BYTES / (1024 * 1024)) as u64),
            ).field("file"),
        );
    }
    Ok(())
}

/// The cap of estimates, checked early (before a file is written) and under
/// a lock when the card is created.
pub fn check_count(count: i64) -> (r: Result<(), ApiError>)
    ensures
        count < MAX_PER_USER ==> r is Ok,
        count >= MAX_PER_USER ==> (r matches Err(e) && e.status == crate::error::STATUS_UNPROCESSABLE
            && e.key@ == "error-estimate-limit"@ && e.field is None && e.args@.len() == 1
            && e.args@[0].0@ == "max"@ && e.args@[0].1@ == crate::text::decimal(
            MAX_PER_USER as nat,
        )),
{
    if count >= MAX_PER_USER {
        return Err(limit_reached());
    }
    Ok(())
}

/// An estimate as the user sees it.
pub struct Estimate {
    pub id: uuid::Uuid,
    /// the name of the file as the user named it
    pub file_name: String,
    pub size_bytes: i64,
    /// uploaded, parsing, parsed or failed
    pub status: String,
    /// why it was not parsed, in the language of the request; only for failed
    pub error: Option<String>,
    /// sent as a photo: its lines were read by the network, and the
    /// interface must say so
    pub from_photo: bool,
    /// RFC 3339 in UTC
    pub created_at: String,
}

/// An estimate as stored; the time in nanoseconds since the epoch.
pub struct EstimateRow {
    pub id: uuid::Uuid,
    pub file_name: String,
    pub file_ext: String,
    pub size_bytes: i64,
    pub status: String,
    pub error_key: Option<String>,
    pub created_at: i128,
}

impl EstimateRow {
    /// The card of the estimate, given the text its error key translates to
    /// in the language of the request.
    pub fn into_estimate(self, error_text: Option<String>) -> (r: Estimate)
        ensures
            r.id == self.id,
            r.file_name == self.file_name,
            r.size_bytes == self.size_bytes,
            r.status == self.status,
            r.error == error_text,
            r.from_photo == is_photo_ext(self.file_ext@),
            r.created_at@ == crate::dates::rfc3339_or_empty(self.created_at as int),
    {
        Estimate {
            id: self.id,
            file_name: self.file_name,
            from_photo: is_photo(self.file_ext.as_str()),
            size_bytes: self.size_bytes,
            status: self.status,
            error: error_text,
            created_at: crate::dates::rfc3339(self.created_at),
        }
    }
}

} // verus!
