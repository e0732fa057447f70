//! Uploading a file: the type it is announced as, where it goes, and how the
//! upload is authorised.

use base64::Engine;
use sha2::Digest;
use vstd::prelude::*;
use vstd::string::StringExecFns;
use vstd::string::StrSliceExecFns;
use crate::config::NostaroConfig;
use crate::text::pieces;
use crate::text::split;
use crate::text::starts_with;

verus! {

/// `text` in lower case, as `str::to_lowercase` gives it.
pub uninterp spec fn lowercased(text: Seq<char>) -> Seq<char>;

/// The SHA-256 digest of `data`, as the `sha2` crate computes it.
pub uninterp spec fn sha256_of(data: Seq<u8>) -> Seq<u8>;

/// `text` in standard base64 with padding, as the `base64` crate encodes it.
pub uninterp spec fn base64_of(text: Seq<char>) -> Seq<char>;

/// Calls `str::to_lowercase`, which gives the text in lower case by the
/// rules of Unicode. The result depends on the text alone.
#[verifier::external_body]
fn lowercase(text: &str) -> (lower: String)
    ensures
        lower@ == lowercased(text@),
{
    text.to_lowercase()
}

/// Calls `sha2::Sha256::digest` on `data` and gives the digest, which is 32
/// bytes long and depends on the data alone.
#[verifier::external_body]
fn sha256(data: &[u8]) -> (digest: Vec<u8>)
    ensures
        digest@ == sha256_of(data@),
        digest@.len() == 32,
{
    sha2::Sha256::digest(data).to_vec()
}

/// Encodes the bytes of `text` with the `STANDARD` engine of `base64`. The
/// result depends on the text alone.
#[verifier::external_body]
fn base64_standard(text: &str) -> (encoded: String)
    ensures
        encoded@ == base64_of(text@),
{
    base64::engine::general_purpose::STANDARD.encode(text.as_bytes())
}

/// The type a file is announced as, by its extension in lower case.
pub open spec fn mime_of(ext: Seq<char>) -> Seq<char> {
    if ext == "jpg"@ || ext == "jpeg"@ {
        "image/jpeg"@
    } else if ext == "png"@ {
        "image/png"@
    } else if ext == "gif"@ {
        "image/gif"@
    } else if ext == "webp"@ {
        "image/webp"@
    } else if ext == "svg"@ {
        "image/svg+xml"@
    } else if ext == "mp4"@ {
        "video/mp4"@
    } else if ext == "webm"@ {
        "video/webm"@
    } else if ext == "mp3"@ {
        "audio/mpeg"@
    } else if ext == "wav"@ {
        "audio/wav"@
    } else if ext == "pdf"@ {
        "application/pdf"@
    } else {
        "application/octet-stream"@
    }
}

fn same_text(text: &String, word: &str) -> (same: bool)
    ensures
        same == (text@ == word@),
{
    *text == word.to_owned()
}

/// The type a file with the extension `ext`, in lower case, is announced as.
pub fn mime_for_extension(ext: &str) -> (mime: String)
    ensures
        mime@ == mime_of(ext@),
{
    let ext = ext.to_owned();
    let mime = if same_text(&ext, "jpg") || same_text(&ext, "jpeg") {
        "image/jpeg"
    } else if same_text(&ext, "png") {
        "image/png"
    } else if same_text(&ext, "gif") {
        "image/gif"
    } else if same_text(&ext, "webp") {
        "image/webp"
    } else if same_text(&ext, "svg") {
        "image/svg+xml"
    } else if same_text(&ext, "mp4") {
        "video/mp4"
    } else if same_text(&ext, "webm") {
        "video/webm"
    } else if same_text(&ext, "mp3") {
        "audio/mpeg"
    } else if same_text(&ext, "wav") {
        "audio/wav"
    } else if same_text(&ext, "pdf") {
        "application/pdf"
    } else {
        "application/octet-stream"
    };
    mime.to_owned()
}

/// The type a file named `filename` is announced as: by what follows the
/// last dot of the name, in lower case; a name without a dot counts as its
/// own extension.
pub fn mime_type_from_ext(filename: &str) -> (mime: String)
    ensures
        mime@ == mime_of(lowercased(pieces(filename@, '.').last())),
{
    let parts = split(filename, '.');
    let last = &parts[parts.len() - 1];
    assert(pieces(filename@, '.').last() == parts@[parts@.len() - 1]@);
    let ext = lowercase(last.as_str());
    mime_for_extension(ext.as_str())
}

/// The sixteen digits of lower-case hexadecimal.
pub open spec fn hex_digits() -> Seq<char> {
    "0123456789abcdef"@
}

/// `bytes` in lower-case hexadecimal, two digits to the byte.
pub open spec fn hex_of(bytes: Seq<u8>) -> Seq<char>
    decreases bytes.len(),
{
    if bytes.len() == 0 {
        Seq::<char>::empty()
    } else {
        hex_of(bytes.drop_last()).push(hex_digits()[(bytes.last() / 16) as int]).push(
            hex_digits()[(bytes.last() % 16) as int],
        )
    }
}

/// Hexadecimal takes two digits to the byte.
pub proof fn hex_is_twice_as_long(bytes: Seq<u8>)
    ensures
        hex_of(bytes).len() == 2 * bytes.len(),
    decreases bytes.len(),
{
    if bytes.len() > 0 {
        hex_is_twice_as_long(bytes.drop_last());
    }
}

/// Writes `bytes` in lower-case hexadecimal.
pub fn to_hex(bytes: &Vec<u8>) -> (hex: String)
    ensures
        hex@ == hex_of(bytes@),
{
    let digits = "0123456789abcdef";
    proof {
        reveal_strlit("0123456789abcdef");
    }
    let mut hex = String::new();
    let mut i: usize = 0;
    assert(bytes@.take(0) =~= Seq::<u8>::empty());
    while i < bytes.len()
        invariant
            i <= bytes@.len(),
            digits@ == hex_digits(),
            digits@.len() == 16,
            hex@ == hex_of(bytes@.take(i as int)),
        decreases bytes@.len() - i,
    {
        let byte = bytes[i];
        let high: usize = (byte / 16) as usize;
        let low: usize = (byte % 16) as usize;
        let pair_start = digits.substring_char(high, high + 1);
        let pair_end = digits.substring_char(low, low + 1);
        assert(bytes@.take(i + 1).drop_last() =~= bytes@.take(i as int));
        assert(pair_start@ =~= seq![hex_digits()[high as int]]);
        assert(pair_end@ =~= seq![hex_digits()[low as int]]);
        let ghost before = hex@;
        hex.append(pair_start);
        hex.append(pair_end);
        assert(hex@ =~= before.push(hex_digits()[high as int]).push(hex_digits()[low as int]));
        i += 1;
    }
    assert(bytes@.take(bytes@.len() as int) =~= bytes@);
    hex
}

/// The name a file's content goes by: its SHA-256 digest in hexadecimal.
pub fn content_hash(data: &[u8]) -> (hash: String)
    ensures
        hash@ == hex_of(sha256_of(data@)),
        hash@.len() == 64,
{
    let digest = sha256(data);
    proof {
        hex_is_twice_as_long(digest@);
    }
    to_hex(&digest)
}

/// How long an upload authorisation stays valid, in seconds.
pub const AUTHORIZATION_SECS: u64 = 300;

/// When an authorisation made at `now` expires; `None` where that moment
/// cannot be counted.
pub fn expiration(now: u64) -> (at: Option<u64>)
    ensures
        at == (if now + AUTHORIZATION_SECS <= u64::MAX {
            Some((now + AUTHORIZATION_SECS) as u64)
        } else {
            None
        }),
{
    now.checked_add(AUTHORIZATION_SECS)
}

/// The value of the authorisation header for the signed event `auth_json`.
pub fn authorization(auth_json: &str) -> (header: String)
    ensures
        header@ == "Nostr "@ + base64_of(auth_json@),
{
    let mut header = "Nostr ".to_owned();
    header.append(base64_standard(auth_json).as_str());
    header
}

/// The server a file goes to: the one asked for, else the configured one.
pub fn upload_server(server: Option<&str>, config: &NostaroConfig) -> (url: String)
    ensures
        url@ == (match server {
            Some(asked) => asked@,
            None => match config.blossom_server {
                Some(configured) => configured@,
                None => crate::config::builtin_blossom_url(),
            },
        }),
{
    match server {
        Some(asked) => asked.to_owned(),
        None => config.blossom_url(),
    }
}

/// Where a file is put on `server`.
pub fn blossom_upload_url(server: &str) -> (url: String)
    ensures
        url@ == server@ + "/upload"@,
{
    let mut url = server.to_owned();
    url.append("/upload");
    url
}

/// The server of the other upload protocol: the one asked for, else the
/// built-in one.
pub fn nip96_server(server: Option<&str>) -> (url: String)
    ensures
        url@ == (match server {
            Some(asked) => asked@,
            None => "https://nostr.build"@,
        }),
{
    match server {
        Some(asked) => asked.to_owned(),
        None => "https://nostr.build".to_owned(),
    }
}

/// Where `server` says how it takes uploads.
pub fn nip96_well_known_url(server: &str) -> (url: String)
    ensures
        url@ == server@ + "/.well-known/nostr/nip96.json"@,
{
    let mut url = server.to_owned();
    url.append("/.well-known/nostr/nip96.json");
    url
}

/// Where a file is posted, given the location `api_url` that `server`
/// names: the location itself where it begins with `http`, else the location
/// below the server.
pub fn nip96_upload_url(server: &str, api_url: &str) -> (url: String)
    ensures
        url@ == (if "http"@.is_prefix_of(api_url@) {
            api_url@
        } else {
            server@ + api_url@
        }),
{
    if starts_with(api_url, "http") {
        api_url.to_owned()
    } else {
        let mut url = server.to_owned();
        url.append(api_url);
        url
    }
}

} // verus!
