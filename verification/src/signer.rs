//! The external signer protocol's decision logic.
//!
//! The signer is reached over a simple digest-in/signature-out protocol: it
//! is told an algorithm and a key role, reads a hex-encoded digest, and
//! answers with a signature. The raw cryptography and the I/O live with the
//! caller; this module owns what can be decided from plain values — which
//! algorithm and key a request names, and what bytes a digest line denotes.

use vstd::prelude::*;
use vstd::string::StrSliceExecFns;

use crate::digest::{decode_hex_digest, hex_decode_spec, valid_hex};
use crate::error::ManifestError;

verus! {

/// The signature algorithms the signer protocol knows.
#[derive(Clone, Copy, Debug, PartialEq, Eq, Structural)]
pub enum SignatureAlgorithm {
    Ecc,
    Lms,
}

/// The key roles the signer protocol knows: the firmware key or the
/// manifest key.
#[derive(Clone, Copy, Debug, PartialEq, Eq, Structural)]
pub enum KeyRole {
    Fw,
    Man,
}

/// Compares two strings character for character.
pub fn str_eq(a: &str, b: &str) -> (r: bool)
    ensures
        r == (a@ == b@),
{
    let alen = a.unicode_len();
    let blen = b.unicode_len();
    if alen != blen {
        return false;
    }
    let mut i: usize = 0;
    while i < alen
        invariant
            0 <= i <= alen,
            alen == a@.len() && alen == b@.len(),
            forall|k: int| 0 <= k < i ==> a@[k] == b@[k],
        decreases alen - i,
    {
        if a.get_char(i) != b.get_char(i) {
            return false;
        }
        i = i + 1;
    }
    proof {
        assert(a@ =~= b@);
    }
    true
}

/// Reads the algorithm a request names; anything but the two known names
/// fails the invocation.
pub fn parse_algorithm(s: &str) -> (r: Option<SignatureAlgorithm>)
    ensures
        s@ == "ecc"@ ==> r == Some(SignatureAlgorithm::Ecc),
        s@ == "lms"@ ==> r == Some(SignatureAlgorithm::Lms),
        s@ != "ecc"@ && s@ != "lms"@ ==> r is None,
{
    proof {
        reveal_strlit("ecc");
        reveal_strlit("lms");
        assert("ecc"@[0] == 'e' && "lms"@[0] == 'l');
        assert("ecc"@ != "lms"@);
    }
    if str_eq(s, "ecc") {
        Some(SignatureAlgorithm::Ecc)
    } else if str_eq(s, "lms") {
        Some(SignatureAlgorithm::Lms)
    } else {
        None
    }
}

/// Reads the key role a request names.
pub fn parse_key_role(s: &str) -> (r: Option<KeyRole>)
    ensures
        s@ == "fw"@ ==> r == Some(KeyRole::Fw),
        s@ == "man"@ ==> r == Some(KeyRole::Man),
        s@ != "fw"@ && s@ != "man"@ ==> r is None,
{
    proof {
        reveal_strlit("fw");
        reveal_strlit("man");
        assert("fw"@.len() == 2 && "man"@.len() == 3);
        assert("fw"@ != "man"@);
    }
    if str_eq(s, "fw") {
        Some(KeyRole::Fw)
    } else if str_eq(s, "man") {
        Some(KeyRole::Man)
    } else {
        None
    }
}

/// The private-key file each algorithm and role signs with.
pub fn key_path_for(algo: SignatureAlgorithm, role: KeyRole) -> (r: &'static str)
    ensures
        r@ == match algo {
            SignatureAlgorithm::Ecc => match role {
                KeyRole::Fw => "key/ast2700a1-default/own-fw-ecc-prvk.pem"@,
                KeyRole::Man => "key/ast2700a1-default/own-man-ecc-prvk.pem"@,
            },
            SignatureAlgorithm::Lms => match role {
                KeyRole::Fw => "key/ast2700a1-default/own-fw-lms-prvk.pem"@,
                KeyRole::Man => "key/ast2700a1-default/own-man-lms-prvk.pem"@,
            },
        },
{
    match algo {
        SignatureAlgorithm::Ecc => match role {
            KeyRole::Fw => "key/ast2700a1-default/own-fw-ecc-prvk.pem",
            KeyRole::Man => "key/ast2700a1-default/own-man-ecc-prvk.pem",
        },
        SignatureAlgorithm::Lms => match role {
            KeyRole::Fw => "key/ast2700a1-default/own-fw-lms-prvk.pem",
            KeyRole::Man => "key/ast2700a1-default/own-man-lms-prvk.pem",
        },
    }
}

/// The line-protocol whitespace stripped from digest lines.
pub open spec fn is_space(c: char) -> bool {
    c == ' ' || c == '\t' || c == '\r' || c == '\n'
}

/// `s` with its leading whitespace stripped.
pub open spec fn trim_front_spec(s: Seq<char>) -> Seq<char>
    decreases s.len(),
{
    if s.len() > 0 && is_space(s[0]) {
        trim_front_spec(s.subrange(1, s.len() as int))
    } else {
        s
    }
}

/// `s` with its trailing whitespace stripped.
pub open spec fn trim_back_spec(s: Seq<char>) -> Seq<char>
    decreases s.len(),
{
    if s.len() > 0 && is_space(s.last()) {
        trim_back_spec(s.drop_last())
    } else {
        s
    }
}

/// `s` with whitespace stripped from both ends.
pub open spec fn trim_spec(s: Seq<char>) -> Seq<char> {
    trim_back_spec(trim_front_spec(s))
}

/// Strips line-protocol whitespace from both ends of `s`.
pub fn trim_line(s: &str) -> (r: String)
    ensures
        r@ == trim_spec(s@),
{
    let len = s.unicode_len();
    let mut start: usize = 0;
    proof {
        assert(s@.skip(0) =~= s@);
    }
    loop
        invariant
            0 <= start <= len,
            len == s@.len(),
            trim_front_spec(s@) == trim_front_spec(s@.skip(start as int)),
        ensures
            0 <= start <= len,
            len == s@.len(),
            trim_front_spec(s@) == s@.skip(start as int),
        decreases len - start,
    {
        if start >= len {
            proof {
                assert(s@.skip(start as int) =~= Seq::<char>::empty());
            }
            break;
        }
        let c = s.get_char(start);
        if !(c == ' ' || c == '\t' || c == '\r' || c == '\n') {
            break;
        }
        proof {
            assert(s@.skip(start as int).subrange(1, s@.skip(start as int).len() as int) =~= s@.skip(
                start as int + 1,
            ));
        }
        start = start + 1;
    }
    let mut end: usize = len;
    proof {
        assert(s@.subrange(start as int, end as int) =~= s@.skip(start as int));
    }
    loop
        invariant
            start <= end <= len,
            len == s@.len(),
            trim_back_spec(s@.skip(start as int)) == trim_back_spec(
                s@.subrange(start as int, end as int),
            ),
        ensures
            start <= end <= len,
            len == s@.len(),
            trim_back_spec(s@.skip(start as int)) == s@.subrange(start as int, end as int),
        decreases end,
    {
        if end <= start {
            proof {
                assert(s@.subrange(start as int, end as int) =~= Seq::<char>::empty());
            }
            break;
        }
        let c = s.get_char(end - 1);
        if !(c == ' ' || c == '\t' || c == '\r' || c == '\n') {
            break;
        }
        proof {
            assert(s@.subrange(start as int, end as int).drop_last() =~= s@.subrange(
                start as int,
                end as int - 1,
            ));
        }
        end = end - 1;
    }
    let r = s.substring_char(start, end).to_owned();
    proof {
        assert(r@ == trim_spec(s@));
    }
    r
}

/// Reads the digest bytes off the protocol's hex line: whitespace stripped,
/// then hex-decoded.
pub fn parse_digest_line(line: &str) -> (r: Result<Vec<u8>, ManifestError>)
    ensures
        r is Ok <==> valid_hex(trim_spec(line@)),
        r matches Ok(v) ==> v@ == hex_decode_spec(trim_spec(line@)),
        r matches Err(e) ==> e == ManifestError::ConfigError,
{
    let trimmed = trim_line(line);
    decode_hex_digest(trimmed.as_str())
}

} // verus!
