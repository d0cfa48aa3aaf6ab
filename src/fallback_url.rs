//! Download URL resolution: the catalog's own URL where it gives one, else a
//! URL on the public CDN derived from the file id and the file name.
use vstd::prelude::*;
use vstd::string::StringSliceAdditionalSpecFns;
use vstd::utf8::encode_utf8;
use crate::error::DownloadError;
use crate::text::{chars_of, decimal, dec, hex_byte, push_char};

verus! {

/// Bytes that percent-encoding of a URI component leaves as they are.
pub open spec fn unreserved(b: u8) -> bool {
    ||| 65 <= b <= 90
    ||| 97 <= b <= 122
    ||| 48 <= b <= 57
    ||| b == 45 || b == 95 || b == 46 || b == 33 || b == 126 || b == 42 || b == 39
    ||| b == 40 || b == 41
}

/// Percent-encoding of a URI component: an unreserved byte stays, any other
/// becomes `%` and two lower-case hexadecimal digits.
pub open spec fn percent_encoded(b: Seq<u8>) -> Seq<char>
    decreases b.len(),
{
    if b.len() == 0 {
        Seq::empty()
    } else if unreserved(b.last()) {
        percent_encoded(b.drop_last()).push(b.last() as char)
    } else {
        percent_encoded(b.drop_last()) + seq!['%'] + hex_byte(b.last())
    }
}

/// `s` without its leading `'0'` characters.
pub open spec fn strip_leading_zeros(s: Seq<char>) -> Seq<char>
    decreases s.len(),
{
    if s.len() > 0 && s[0] == '0' {
        strip_leading_zeros(s.subrange(1, s.len() as int))
    } else {
        s
    }
}

/// The CDN bucket of a file id: its first four decimal digits.
pub open spec fn id_prefix(id: nat) -> Seq<char> {
    if dec(id).len() <= 4 {
        dec(id)
    } else {
        dec(id).subrange(0, 4)
    }
}

/// The digits of a file id after the first four, without leading zeros.
pub open spec fn id_remainder(id: nat) -> Seq<char> {
    if dec(id).len() <= 4 {
        Seq::empty()
    } else {
        strip_leading_zeros(dec(id).subrange(4, dec(id).len() as int))
    }
}

/// Whether a file id can be placed in a CDN bucket.
pub open spec fn id_bucketable(id: nat) -> bool {
    id_remainder(id).len() > 0
}

/// `<prefix>/<remainder>` of a file id.
pub open spec fn id_path(id: nat) -> Seq<char> {
    id_prefix(id) + seq!['/'] + id_remainder(id)
}

/// The fallback CDN URL of a file, given its name already percent-encoded.
pub open spec fn cdn_url(id: nat, encoded_name: Seq<char>) -> Seq<char> {
    "https://mediafilez.forgecdn.net/files/"@ + id_path(id) + seq!['/'] + encoded_name
}

/// Relies on uri_encode::encode_uri_component: every UTF-8 byte of `s` outside
/// `A-Z a-z 0-9 - _ . ! ~ * ' ( )` becomes `%` and two lower-case hex digits.
#[verifier::external_body]
fn encode_uri_component(s: &str) -> (r: String)
    ensures
        r@ == percent_encoded(s.spec_bytes()),
{
    uri_encode::encode_uri_component(s)
}

/// Index of the first non-`'0'` character of `cs` at or after `from`.
fn skip_zeros(cs: &Vec<char>, from: usize) -> (r: usize)
    requires
        from <= cs@.len(),
    ensures
        from <= r <= cs@.len(),
        strip_leading_zeros(cs@.subrange(from as int, cs@.len() as int))
            == cs@.subrange(r as int, cs@.len() as int),
{
    let n = cs.len();
    let mut i = from;
    while i < n && cs[i] == '0'
        invariant
            n == cs@.len(),
            from <= i <= n,
            strip_leading_zeros(cs@.subrange(from as int, n as int))
                == strip_leading_zeros(cs@.subrange(i as int, n as int)),
        decreases n - i,
    {
        assert(cs@.subrange(i as int, n as int).subrange(1, n - i) =~= cs@.subrange(i + 1, n as int));
        i = i + 1;
    }
    i
}

/// `<first four digits>/<remaining digits without leading zeros>` of a file
/// id; an id whose remaining digits are all zeros, or that has four digits or
/// fewer, cannot be bucketed.
pub fn modify_id(id: u64) -> (r: Result<String, DownloadError>)
    ensures
        r is Ok <==> id_bucketable(id as nat),
        r matches Ok(s) ==> s@ == id_path(id as nat),
        r matches Err(e) ==> e == DownloadError::InvalidIdentifier,
{
    let digits = decimal(id as u128);
    let cs = chars_of(digits.as_str());
    let n = cs.len();
    if n <= 4 {
        return Err(DownloadError::InvalidIdentifier);
    }
    let start = skip_zeros(&cs, 4);
    if start == n {
        assert(cs@.subrange(n as int, n as int).len() == 0);
        return Err(DownloadError::InvalidIdentifier);
    }
    let mut out = String::new();
    let mut i: usize = 0;
    while i < 4
        invariant
            n == cs@.len(),
            n > 4,
            i <= 4,
            out@ == cs@.subrange(0, i as int),
        decreases 4 - i,
    {
        push_char(&mut out, cs[i]);
        i = i + 1;
    }
    push_char(&mut out, '/');
    let mut j = start;
    while j < n
        invariant
            n == cs@.len(),
            start <= j <= n,
            out@ == cs@.subrange(0, 4) + seq!['/'] + cs@.subrange(start as int, j as int),
        decreases n - j,
    {
        push_char(&mut out, cs[j]);
        j = j + 1;
    }
    assert(out@ =~= id_path(id as nat));
    Ok(out)
}

/// The fallback CDN URL of a file whose name is already percent-encoded.
pub fn cdn_download_url(file_id: u64, encoded_name: &str) -> (r: Result<String, DownloadError>)
    ensures
        r is Ok <==> id_bucketable(file_id as nat),
        r matches Ok(s) ==> s@ == cdn_url(file_id as nat, encoded_name@),
        r matches Err(e) ==> e == DownloadError::InvalidIdentifier,
{
    let path = modify_id(file_id)?;
    let mut url = String::from_str("https://mediafilez.forgecdn.net/files/");
    url.append(path.as_str());
    push_char(&mut url, '/');
    url.append(encoded_name);
    assert(url@ =~= cdn_url(file_id as nat, encoded_name@));
    Ok(url)
}

/// The fallback CDN URL of a file, used when the catalog withholds its own URL.
pub fn get_no_api_download_url(file_id: u64, file_name: &str) -> (r: Result<String, DownloadError>)
    ensures
        r is Ok <==> id_bucketable(file_id as nat),
        r matches Ok(s) ==> s@ == cdn_url(file_id as nat, percent_encoded(encode_utf8(file_name@))),
        r matches Err(e) ==> e == DownloadError::InvalidIdentifier,
{
    let encoded = encode_uri_component(file_name);
    cdn_download_url(file_id, encoded.as_str())
}

/// The URL to fetch a file from: the catalog's own URL unchanged where it
/// gives one, else the fallback CDN URL.
pub fn resolve_download_url(file_id: u64, file_name: &str, direct_url: Option<String>) -> (r: Result<
    String,
    DownloadError,
>)
    ensures
        direct_url matches Some(u) ==> r == Ok::<String, DownloadError>(u),
        direct_url is None ==> (r is Ok <==> id_bucketable(file_id as nat)),
        direct_url is None ==> (r matches Ok(s) ==> s@ == cdn_url(
            file_id as nat,
            percent_encoded(encode_utf8(file_name@)),
        )),
        r matches Err(e) ==> e == DownloadError::InvalidIdentifier,
{
    match direct_url {
        Some(u) => Ok(u),
        None => get_no_api_download_url(file_id, file_name),
    }
}

} // verus!
