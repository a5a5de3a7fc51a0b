//! Binary fingerprinting of the captured process.
//!
//! Which build of the target is running decides which catalog entry
//! applies, so each capture attempt computes a content hash of the file
//! backing the module that holds the settings struct: the uppercase hex
//! SHA-256 digest of the file's full byte content.  The digest is purely
//! a lookup key, not a security guarantee.  Finding the process and
//! reading the file are the surrounding application's concern; the path
//! of the module file is derived here from the executable's own path.

use sha2::Digest;
use vstd::prelude::*;
use vstd::string::{StrSliceExecFns, StringExecFns};

verus! {

/// The SHA-256 digest of a byte sequence.  The digest is a function of
/// the input bytes alone; its definition is not restated here, and the
/// trusted wrapper below is the only place that applies it.
pub uninterp spec fn sha256_of(b: Seq<u8>) -> Seq<u8>;

/// Relies on `sha2::Sha256::digest` (through `digest::Digest`): the
/// SHA-256 digest of the input, 32 bytes, depending on the input bytes
/// alone.
#[verifier::external_body]
fn sha256_digest(bytes: &[u8]) -> (r: Vec<u8>)
    ensures
        r@ == sha256_of(bytes@),
        r@.len() == 32,
{
    sha2::Sha256::digest(bytes).to_vec()
}

/// The uppercase hex digit for one value below sixteen.
pub open spec fn hex_upper_digit(n: u8) -> char
    recommends
        n < 16,
{
    seq!['0', '1', '2', '3', '4', '5', '6', '7', '8', '9', 'A', 'B', 'C', 'D', 'E', 'F'][n as int]
}

/// The uppercase hex encoding of a byte sequence: two digits per byte,
/// high nibble first.
pub open spec fn hex_upper_of(b: Seq<u8>) -> Seq<char>
    decreases b.len(),
{
    if b.len() == 0 {
        Seq::<char>::empty()
    } else {
        seq![hex_upper_digit(b[0] / 16), hex_upper_digit(b[0] % 16)] + hex_upper_of(b.drop_first())
    }
}

/// The hex encoding is two characters per input byte.
pub proof fn lemma_hex_upper_len(b: Seq<u8>)
    ensures
        hex_upper_of(b).len() == 2 * b.len(),
    decreases b.len(),
{
    if b.len() > 0 {
        lemma_hex_upper_len(b.drop_first());
    }
}

/// Relies on `hex::encode_upper`: two uppercase hex digits per input
/// byte, high nibble first.
#[verifier::external_body]
fn hex_encode_upper(bytes: &[u8]) -> (r: String)
    ensures
        r@ == hex_upper_of(bytes@),
{
    hex::encode_upper(bytes)
}

/// The fingerprint of one build of the target binary: the uppercase hex
/// SHA-256 digest of the full byte content of its module file, 64
/// characters.  Deterministic for identical bytes.
pub fn dll_hash(bytes: &[u8]) -> (r: String)
    ensures
        r@ == hex_upper_of(sha256_of(bytes@)),
        r@.len() == 64,
{
    let digest = sha256_digest(bytes);
    let r = hex_encode_upper(digest.as_slice());
    proof {
        lemma_hex_upper_len(sha256_of(bytes@));
    }
    r
}

/// Whether a character separates path components.
pub open spec fn is_path_sep(c: char) -> bool {
    c == '\\' || c == '/'
}

/// The length of the directory prefix of a path: everything up to and
/// including the last path separator, or zero when the path has none.
pub open spec fn dir_prefix_len(s: Seq<char>) -> int
    decreases s.len(),
{
    if s.len() == 0 {
        0
    } else if is_path_sep(s[s.len() - 1]) {
        s.len() as int
    } else {
        dir_prefix_len(s.drop_last())
    }
}

/// The length of the directory prefix of a path, scanned from the end.
fn dir_prefix_end(s: &str) -> (k: usize)
    ensures
        k == dir_prefix_len(s@),
        k <= s@.len(),
{
    let n = s.unicode_len();
    let mut k = n;
    proof {
        assert(s@.subrange(0, n as int) =~= s@);
    }
    while k > 0
        invariant
            k <= n,
            n == s@.len(),
            dir_prefix_len(s@) == dir_prefix_len(s@.subrange(0, k as int)),
        decreases k,
    {
        let c = s.get_char(k - 1);
        if c == '\\' || c == '/' {
            proof {
                let sub = s@.subrange(0, k as int);
                assert(sub.len() == k);
                assert(sub[k as int - 1] == s@[k as int - 1]);
                assert(dir_prefix_len(sub) == k);
            }
            return k;
        }
        proof {
            assert(s@.subrange(0, k as int).drop_last() =~= s@.subrange(0, k as int - 1));
        }
        k = k - 1;
    }
    proof {
        assert(s@.subrange(0, 0) =~= Seq::<char>::empty());
    }
    0
}

/// The path of the module file to fingerprint: the known sibling
/// filename next to the process's executable, in the executable's own
/// directory.
pub fn game_assembly_dll_path(exe_path: &str) -> (r: String)
    ensures
        r@ == exe_path@.subrange(0, dir_prefix_len(exe_path@)) + "GameAssembly.dll"@,
{
    let k = dir_prefix_end(exe_path);
    let prefix = exe_path.substring_char(0, k);
    let out = String::from_str(prefix);
    out.concat("GameAssembly.dll")
}

} // verus!
