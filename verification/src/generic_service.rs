//! Shared helpers: random identifier strings drawn through the external
//! random-number crate, and deterministic identifier strings derived from a
//! SHA-256 digest.

use vstd::prelude::*;
use rand::Rng;
use crate::crypto::{push_char, sha256_of, sha256_str};

verus! {

/// How many characters the identifier alphabet holds: the upper-case
/// letters and the decimal digits.
pub const CHARSET_LEN: u8 = 36;

/// Whether `c` belongs to the identifier alphabet.
pub open spec fn is_charset_char(c: char) -> bool {
    ('A' <= c && c <= 'Z') || ('0' <= c && c <= '9')
}

/// The identifier alphabet, indexed 0 to 35: letters first, then digits.
pub open spec fn charset_char_spec(n: u8) -> char {
    if n < 26 {
        ((65 + n) as u8) as char
    } else {
        ((22 + n) as u8) as char
    }
}

/// Relies on rand::rng and rand::Rng::random_range: an index drawn below
/// `bound`.  Nothing is assumed about which one.
#[verifier::external_body]
fn random_below(bound: usize) -> (r: usize)
    requires
        bound > 0,
    ensures
        r < bound,
{
    rand::rng().random_range(0..bound)
}

/// The alphabet entry at index `n`.
fn charset_char(n: u8) -> (c: char)
    requires
        n < CHARSET_LEN,
    ensures
        c == charset_char_spec(n),
        is_charset_char(c),
{
    if n < 26 {
        (65 + n) as char
    } else {
        (22 + n) as char
    }
}

/// The character at position `j` of the identifier derived from a digest:
/// even positions use the byte's remainder, odd positions the halved
/// byte's remainder, both taken into the alphabet.
pub open spec fn digest_char(bytes: Seq<u8>, j: int) -> char {
    let b = bytes[j / 2];
    if j % 2 == 0 {
        charset_char_spec(b % CHARSET_LEN)
    } else {
        charset_char_spec((b / 2) % CHARSET_LEN)
    }
}

/// The first `n` characters of the identifier derived from a digest.
pub open spec fn digest_chars(bytes: Seq<u8>, n: int) -> Seq<char> {
    Seq::new(n as nat, |j: int| digest_char(bytes, j))
}

/// The name padded on the right with zero digits up to ten characters.
pub open spec fn padded_name(name: Seq<char>) -> Seq<char> {
    if name.len() >= 10 {
        name
    } else {
        name + Seq::new((10 - name.len()) as nat, |i: int| '0')
    }
}

/// The shared helper facade.
pub struct GenericService;

impl GenericService {
    /// Wrap the company row read from the persistence layer in the
    /// envelope: a row found is a success carrying it, no row is a
    /// negative envelope naming the miss.
    pub fn get_company(
        row: Option<crate::model::Company>,
    ) -> (r: crate::envelope::ActionResult<crate::model::Company, String>)
        ensures
            row is Some ==> r.is_success() && r.data == row
                && r.message@ == "Company name"@,
            row is None ==> r.is_business_rejection() && r.data is None
                && r.message@ == "No company found"@,
    {
        match row {
            Some(company) => crate::envelope::ActionResult {
                result: true,
                message: "Company name".to_owned(),
                data: Some(company),
                error: None,
            },
            None => crate::envelope::ActionResult {
                result: false,
                message: "No company found".to_owned(),
                data: None,
                error: None,
            },
        }
    }

    /// A random identifier of `length` characters over the upper-case
    /// letters and digits.  Which characters come out is left open: two
    /// calls may differ.
    pub fn random_string(length: usize) -> (r: String)
        ensures
            r@.len() == length as int,
            forall|i: int| 0 <= i < r@.len() ==> is_charset_char(#[trigger] r@[i]),
    {
        let mut out = String::new();
        let mut i: usize = 0;
        while i < length
            invariant
                i <= length,
                out@.len() == i as int,
                forall|j: int| 0 <= j < out@.len() ==> is_charset_char(#[trigger] out@[j]),
            decreases length - i,
        {
            let idx = random_below(CHARSET_LEN as usize);
            push_char(&mut out, charset_char(idx as u8));
            i = i + 1;
        }
        out
    }

    /// A deterministic identifier of up to `length` characters, derived
    /// from the SHA-256 digest of the suffix followed by the name padded to
    /// ten characters.  The digest yields 64 characters; a longer request
    /// is cut there.
    pub fn random_string_by_suffix(length: usize, suffix: &str, name: &str) -> (r: String)
        ensures
            ({
                let n: int = if length as int <= 64 { length as int } else { 64 };
                r@ == digest_chars(sha256_of(suffix@ + padded_name(name@)), n)
            }),
            forall|i: int| 0 <= i < r@.len() ==> is_charset_char(#[trigger] r@[i]),
    {
        let mut padded: String = name.to_owned();
        let name_len = name.unicode_len();
        let mut k: usize = name_len;
        while k < 10
            invariant
                name_len == name@.len(),
                name_len <= k,
                k <= 10 || k == name_len,
                padded@ == name@ + Seq::new((k - name_len) as nat, |i: int| '0'),
            decreases 10 - k,
        {
            push_char(&mut padded, '0');
            proof {
                assert((name@ + Seq::new((k - name_len) as nat, |i: int| '0')).push('0')
                    =~= name@ + Seq::new((k + 1 - name_len) as nat, |i: int| '0'));
            }
            k = k + 1;
        }
        proof {
            if name@.len() >= 10 {
                assert(padded@ =~= name@);
            } else {
                assert(k == 10);
                assert(padded@ =~= name@ + Seq::new((10 - name@.len()) as nat, |i: int| '0'));
            }
            assert(padded@ =~= padded_name(name@));
        }
        let mut input: String = suffix.to_owned();
        input.append(padded.as_str());
        let digest = sha256_str(input.as_str());
        let ghost dg = sha256_of(suffix@ + padded_name(name@));
        let n: usize = if length <= 64 {
            length
        } else {
            64
        };
        let mut out = String::new();
        let mut j: usize = 0;
        while j < n
            invariant
                n <= 64,
                digest@ == dg,
                digest@.len() == 32,
                j <= n,
                out@ == digest_chars(dg, j as int),
                forall|t: int| 0 <= t < out@.len() ==> is_charset_char(#[trigger] out@[t]),
            decreases n - j,
        {
            let b = digest[j / 2];
            let c = if j % 2 == 0 {
                charset_char(b % CHARSET_LEN)
            } else {
                charset_char((b / 2) % CHARSET_LEN)
            };
            push_char(&mut out, c);
            proof {
                assert(digest_chars(dg, j as int).push(digest_char(dg, j as int))
                    =~= digest_chars(dg, j + 1));
            }
            j = j + 1;
        }
        out
    }
}

} // verus!
