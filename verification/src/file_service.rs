//! Document image handling: picking a base64 data URL apart, decoding its
//! payload, and building the relative path the stored file is recorded
//! under.  Writing the bytes to disk is the caller's side of the boundary.

use vstd::prelude::*;
use vstd::string::StrSliceExecFns;
use vstd::string::StringExecFns;
use crate::crypto::sha256_of;
use crate::generic_service::{digest_chars, padded_name, GenericService};

verus! {

/// What the external base64 decoder yields for a character sequence:
/// the decoded bytes, or nothing when the input is not valid base64.
/// Which bytes they are is a function of the input alone and is not stated
/// here.
pub uninterp spec fn base64_decoding(s: Seq<char>) -> Option<Seq<u8>>;

/// Relies on the base64 crate's standard-alphabet Engine::decode: the
/// result depends on the input alone, and decoding fails exactly on inputs
/// that are not valid base64.
#[verifier::external_body]
fn base64_decode(s: &str) -> (r: Result<Vec<u8>, ()>)
    ensures
        r matches Ok(v) ==> base64_decoding(s@) == Some(v@),
        r is Err ==> base64_decoding(s@) is None,
{
    base64::Engine::decode(&base64::engine::general_purpose::STANDARD, s).map_err(|_e| ())
}

/// The position of the first occurrence of `c`.
pub open spec fn index_of_char(s: Seq<char>, c: char) -> Option<int>
    decreases s.len(),
{
    if s.len() == 0 {
        None
    } else if s[0] == c {
        Some(0)
    } else {
        match index_of_char(s.drop_first(), c) {
            Some(i) => Some(i + 1),
            None => None,
        }
    }
}

/// What `index_of_char` finds is the first occurrence; when it finds
/// nothing, the character does not occur.
pub proof fn lemma_index_of_char(s: Seq<char>, c: char)
    ensures
        match index_of_char(s, c) {
            Some(i) => 0 <= i < s.len() && s[i] == c && forall|j: int| 0 <= j < i
                ==> s[j] != c,
            None => forall|j: int| 0 <= j < s.len() ==> s[j] != c,
        },
    decreases s.len(),
{
    if s.len() > 0 && s[0] != c {
        lemma_index_of_char(s.drop_first(), c);
        assert forall|j: int| 1 <= j < s.len() implies s[j] == s.drop_first()[j - 1] by {}
    }
}

/// A first occurrence of `c` at `k` is what `index_of_char` finds.
proof fn lemma_index_of_char_at(s: Seq<char>, c: char, k: int)
    requires
        0 <= k < s.len(),
        s[k] == c,
        forall|j: int| 0 <= j < k ==> s[j] != c,
    ensures
        index_of_char(s, c) == Some(k),
    decreases s.len(),
{
    if k > 0 {
        lemma_index_of_char_at(s.drop_first(), c, k - 1);
    }
}

/// Find the first occurrence of `c` in `s`.
fn find_char(s: &str, c: char) -> (r: Option<usize>)
    ensures
        r matches Some(i) ==> index_of_char(s@, c) == Some(i as int) && i < s@.len(),
        r is None ==> index_of_char(s@, c) is None,
{
    let n = s.unicode_len();
    let mut k: usize = 0;
    while k < n
        invariant
            n as int == s@.len(),
            k <= n,
            forall|j: int| 0 <= j < k ==> s@[j] != c,
        decreases n - k,
    {
        if s.get_char(k) == c {
            proof {
                lemma_index_of_char_at(s@, c, k as int);
            }
            return Some(k);
        }
        k = k + 1;
    }
    proof {
        lemma_index_of_char(s@, c);
    }
    None
}

/// How a base64 image data URL decomposes: the text before the first comma
/// must read `data:image/<format>;...`, and the format and the payload
/// after the comma are the parts.
pub open spec fn data_url_parts(s: Seq<char>) -> Option<(Seq<char>, Seq<char>)> {
    match index_of_char(s, ',') {
        None => None,
        Some(comma) => {
            let meta = s.subrange(0, comma);
            let payload = s.subrange(comma + 1, s.len() as int);
            if meta.len() >= 11 && meta.subrange(0, 11) == "data:image/"@ {
                let stripped = meta.subrange(11, meta.len() as int);
                match index_of_char(stripped, ';') {
                    None => None,
                    Some(semi) => Some((stripped.subrange(0, semi), payload)),
                }
            } else {
                None
            }
        },
    }
}

/// Document image handling.
pub struct FileService;

impl FileService {
    /// Pick a base64 image data URL apart into its image format and its
    /// base64 payload.  An input without a comma is rejected as invalid
    /// input; one whose head is not `data:image/<format>;` is rejected as
    /// an invalid format.
    pub fn parse_data_url(s: &str) -> (r: Result<(String, String), String>)
        ensures
            match data_url_parts(s@) {
                Some(parts) => (r matches Ok(p) && p.0@ == parts.0 && p.1@ == parts.1),
                None => (r matches Err(e) && (
                    if index_of_char(s@, ',') is None {
                        e@ == "Invalid base64 input"@
                    } else {
                        e@ == "Invalid base64 format"@
                    }
                )),
            },
    {
        let n = s.unicode_len();
        let comma = match find_char(s, ',') {
            None => {
                return Err("Invalid base64 input".to_owned());
            },
            Some(comma) => comma,
        };
        let meta = s.substring_char(0, comma);
        let payload = s.substring_char(comma + 1, n);
        let meta_len = meta.unicode_len();
        if meta_len < 11 {
            return Err("Invalid base64 format".to_owned());
        }
        let prefix = "data:image/";
        proof {
            reveal_strlit("data:image/");
        }
        let mut k: usize = 0;
        while k < 11
            invariant
                meta@.len() >= 11,
                index_of_char(s@, ',') is Some,
                meta@ == s@.subrange(0, index_of_char(s@, ',')->0),
                k <= 11,
                prefix@ == "data:image/"@,
                prefix@.len() == 11,
                forall|j: int| 0 <= j < k ==> meta@[j] == prefix@[j],
            decreases 11 - k,
        {
            if meta.get_char(k) != prefix.get_char(k) {
                proof {
                    assert(meta@.subrange(0, 11) != "data:image/"@);
                }
                return Err("Invalid base64 format".to_owned());
            }
            k = k + 1;
        }
        proof {
            assert(meta@.subrange(0, 11) =~= "data:image/"@);
        }
        let stripped = meta.substring_char(11, meta_len);
        let semi = match find_char(stripped, ';') {
            None => {
                return Err("Invalid base64 format".to_owned());
            },
            Some(semi) => semi,
        };
        let ext = stripped.substring_char(0, semi);
        Ok((ext.to_owned(), payload.to_owned()))
    }

    /// Decode a base64 image data URL into its image format and its bytes.
    /// The format and payload come from [`FileService::parse_data_url`];
    /// a payload the base64 decoder refuses is reported as a decode error.
    pub fn decode_base64_image(s: &str) -> (r: Result<(String, Vec<u8>), String>)
        ensures
            match data_url_parts(s@) {
                Some(parts) => match base64_decoding(parts.1) {
                    Some(bytes) => (r matches Ok(p) && p.0@ == parts.0 && p.1@ == bytes),
                    None => (r matches Err(e) && e@ == "Base64 decode error"@),
                },
                None => r is Err,
            },
    {
        let (ext, payload) = match Self::parse_data_url(s) {
            Ok(p) => p,
            Err(e) => {
                return Err(e);
            },
        };
        match base64_decode(payload.as_str()) {
            Ok(bytes) => Ok((ext, bytes)),
            Err(_) => Err("Base64 decode error".to_owned()),
        }
    }

    /// The relative path a stored image is recorded under: a folder named
    /// by the identifier derived from the email and file name plus the
    /// date, then the file name, the time and the image format.
    pub fn build_relative_path(
        email: &str,
        file_name: &str,
        date_str: &str,
        time_str: &str,
        ext: &str,
    ) -> (r: String)
        ensures
            r@ == digest_chars(sha256_of(email@ + padded_name(file_name@)), 30) + date_str@
                + "/"@ + file_name@ + "-"@ + time_str@ + "."@ + ext@,
    {
        let mut out = GenericService::random_string_by_suffix(30, email, file_name);
        out.append(date_str);
        out.append("/");
        out.append(file_name);
        out.append("-");
        out.append(time_str);
        out.append(".");
        out.append(ext);
        out
    }
}

} // verus!
