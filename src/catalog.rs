//! The catalog client's own logic: the API key header, the request
//! endpoints, and the choice of a pack's latest archive.
use vstd::prelude::*;
use vstd::utf8::encode_utf8;
use crate::error::DownloadError;
use crate::records::ModpackVersionFile;
use crate::text::{dec, push_decimal};

verus! {

#[verifier::external_type_specification]
#[verifier::external_body]
pub struct ExHeaderValue(reqwest::header::HeaderValue);

/// A byte that a header value may hold: visible ASCII, horizontal tab, or
/// any byte of 128 and up.
pub open spec fn header_byte_ok(b: u8) -> bool {
    (b >= 32 && b != 127) || b == 9
}

/// Whether every UTF-8 byte of `s` may stand in a header value.
pub open spec fn header_value_ok(s: Seq<char>) -> bool {
    forall|i: int| 0 <= i < encode_utf8(s).len() ==> #[trigger] header_byte_ok(encode_utf8(s)[i])
}

/// The header value holding the UTF-8 bytes of `s`, not marked sensitive.
pub uninterp spec fn header_of(s: Seq<char>) -> reqwest::header::HeaderValue;

/// Relies on reqwest::header::HeaderValue::from_str: it accepts exactly the
/// strings whose bytes are all tab or at least 32 and not 127, and then holds
/// a copy of those bytes.
#[verifier::external_body]
fn header_value_from_str(s: &str) -> (r: Option<reqwest::header::HeaderValue>)
    ensures
        r is Some <==> header_value_ok(s@),
        r matches Some(v) ==> v == header_of(s@),
{
    reqwest::header::HeaderValue::from_str(s).ok()
}

/// The `x-api-key` header value for a key: an empty key, or one that cannot
/// be sent as a header value, is a configuration error.
pub fn api_key_header(key: &str) -> (r: Result<reqwest::header::HeaderValue, DownloadError>)
    ensures
        r is Ok <==> (key@.len() > 0 && header_value_ok(key@)),
        r matches Ok(v) ==> v == header_of(key@),
        r matches Err(e) ==> e == DownloadError::ConfigurationError,
{
    if key.unicode_len() == 0 {
        return Err(DownloadError::ConfigurationError);
    }
    match header_value_from_str(key) {
        Some(v) => Ok(v),
        None => Err(DownloadError::ConfigurationError),
    }
}

/// Base of every catalog request for projects.
pub open spec fn mods_base() -> Seq<char> {
    "https://api.curseforge.com/v1/mods/"@
}

/// URL of a project's record.
pub fn project_endpoint(project_id: u64) -> (r: String)
    ensures
        r@ == mods_base() + dec(project_id as nat),
{
    let mut url = String::from_str("https://api.curseforge.com/v1/mods/");
    push_decimal(&mut url, project_id as u128);
    url
}

/// URL of the record of one file of a project.
pub fn file_endpoint(project_id: u64, file_id: u64) -> (r: String)
    ensures
        r@ == mods_base() + dec(project_id as nat) + "/files/"@ + dec(file_id as nat),
{
    let mut url = project_endpoint(project_id);
    url.append("/files/");
    push_decimal(&mut url, file_id as u128);
    url
}

/// URL of the list of a project's files, newest first.
pub fn files_endpoint(project_id: u64) -> (r: String)
    ensures
        r@ == mods_base() + dec(project_id as nat) + "/files"@,
{
    let mut url = project_endpoint(project_id);
    url.append("/files");
    url
}

/// The archive of a pack's latest version.
#[derive(Debug)]
pub struct PackArchive {
    pub download_url: String,
    pub file_name: String,
}

/// Why no latest archive could be chosen.
#[derive(Debug, Clone, Copy, PartialEq, Eq, Structural)]
pub enum ArchiveLookupError {
    /// The project lists no files.
    NoFiles,
    /// The latest file has no download URL.
    MissingDownloadUrl,
    /// The latest file has no file name.
    MissingFileName,
}

/// The latest archive of a pack, from its files listed newest first: the
/// first file's URL and name.
pub fn latest_pack_archive(files: &Vec<ModpackVersionFile>) -> (r: Result<
    PackArchive,
    ArchiveLookupError,
>)
    ensures
        files@.len() == 0 <==> r == Err::<PackArchive, ArchiveLookupError>(
            ArchiveLookupError::NoFiles,
        ),
        files@.len() > 0 ==> {
            let f = files@[0];
            &&& f.download_url is None <==> r == Err::<PackArchive, ArchiveLookupError>(
                ArchiveLookupError::MissingDownloadUrl,
            )
            &&& (f.download_url is Some && f.file_name is None) <==> r == Err::<
                PackArchive,
                ArchiveLookupError,
            >(ArchiveLookupError::MissingFileName)
            &&& r matches Ok(a) ==> (f.download_url matches Some(u) && a.download_url@ == u@)
                && (f.file_name matches Some(n) && a.file_name@ == n@)
        },
{
    if files.len() == 0 {
        return Err(ArchiveLookupError::NoFiles);
    }
    let latest = &files[0];
    let download_url = match &latest.download_url {
        Some(u) => u.clone(),
        None => {
            return Err(ArchiveLookupError::MissingDownloadUrl);
        },
    };
    let file_name = match &latest.file_name {
        Some(n) => n.clone(),
        None => {
            return Err(ArchiveLookupError::MissingFileName);
        },
    };
    Ok(PackArchive { download_url, file_name })
}

} // verus!
