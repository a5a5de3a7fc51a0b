//! The offset catalog: a mapping from binary fingerprint to the
//! version-specific base offset of the settings struct.
//!
//! The catalog is published remotely as a loosely-typed JSON-superset
//! document whose top-level keys are uppercase hex fingerprints and whose
//! values are objects carrying the unsigned base-offset field.  The
//! transport (one HTTP GET) is the surrounding application's concern;
//! this module turns the fetched text into plain entries and answers
//! lookups.  What the document text denotes is carried through the
//! trusted parsing wrappers by two content names, [`catalog_doc_of`] on
//! the text and [`catalog_view`] on the parsed value, so that
//! [`AUCaptureOffsets::parse`] can promise exactly which catalog a given
//! text yields.  A catalog is immutable once built: it is fetched once
//! per run and never refreshed automatically.

use vstd::prelude::*;
use vstd::string::StringSliceAdditionalSpecFns;

use crate::errors::AUCaptureOffsetsError;
use crate::strutil::str_eq;

verus! {

#[verifier::external_type_specification]
#[verifier::external_body]
pub struct ExValue(serde_json::Value);

#[verifier::external_type_specification]
#[verifier::external_body]
pub struct ExJson5Error(json5::Error);

/// The member map of a catalog document value: `Some(m)` exactly when
/// the value is an object, and then `m` maps each member key to
/// [`member_offset_of`] of that member.
pub uninterp spec fn catalog_view(v: serde_json::Value) -> Option<Map<Seq<char>, Option<u64>>>;

/// The unsigned integer that the member of `v` at `key` represents:
/// `Some(n)` exactly when `v` is an object with a member at `key` whose
/// value is a number representable as an unsigned 64-bit integer.
pub uninterp spec fn u64_member_of(v: serde_json::Value, key: Seq<char>) -> Option<u64>;

/// The base offset a catalog member carries: the unsigned integer under
/// its `GameOptionsOffset` key, if it has one.
pub open spec fn member_offset_of(v: serde_json::Value) -> Option<u64> {
    u64_member_of(v, "GameOptionsOffset"@)
}

/// The catalog content that parsing a document text yields: `Some`
/// exactly when the text parses as a document of the tolerant JSON
/// superset whose top level is an object — as `json5::from_str` into a
/// dynamically typed value decides it — and then the member map that
/// [`catalog_view`] gives of the parsed value.  A function of the text
/// alone.
pub uninterp spec fn catalog_doc_of(text: Seq<char>) -> Option<Map<Seq<char>, Option<u64>>>;

/// Whether a document's member map records key `fp` at all.
pub open spec fn doc_contains(d: Option<Map<Seq<char>, Option<u64>>>, fp: Seq<char>) -> bool {
    match d {
        None => false,
        Some(m) => m.contains_key(fp),
    }
}

/// The offset a document's member map records under key `fp`, if the
/// key is present and its member carries one.
pub open spec fn doc_member_offset(
    d: Option<Map<Seq<char>, Option<u64>>>,
    fp: Seq<char>,
) -> Option<u64> {
    match d {
        None => None,
        Some(m) => if m.contains_key(fp) {
            m[fp]
        } else {
            None
        },
    }
}

/// The base offset a document yields for fingerprint `fp`: the member's
/// offset truncated to 32 bits, or `None` when the document has no such
/// member or the member carries no offset.
pub open spec fn doc_lookup(d: Option<Map<Seq<char>, Option<u64>>>, fp: Seq<char>) -> Option<
    u32,
> {
    match doc_member_offset(d, fp) {
        Some(n) => Some(n as u32),
        None => None,
    }
}

/// Bound on the opening brackets of an accepted catalog document.  The
/// parser behind [`AUCaptureOffsets::parse`] recurses once per nesting
/// level, and every nesting level opens a bracket, so this bounds the
/// recursion depth on remote — hence adversarial — input far below any
/// thread's stack.
pub const MAX_DOCUMENT_BRACKETS: usize = 1000;

/// How many opening brackets (`[` or `{`) a byte sequence holds.
pub open spec fn open_bracket_count(b: Seq<u8>) -> int
    decreases b.len(),
{
    if b.len() == 0 {
        0
    } else {
        open_bracket_count(b.drop_last()) + if b.last() == 0x5B || b.last() == 0x7B {
            1int
        } else {
            0int
        }
    }
}

/// A prefix never holds more opening brackets than the whole.
proof fn lemma_open_bracket_count_prefix(b: Seq<u8>, k: int)
    requires
        0 <= k <= b.len(),
    ensures
        open_bracket_count(b.take(k)) <= open_bracket_count(b),
    decreases b.len() - k,
{
    if k == b.len() {
        assert(b.take(k) =~= b);
    } else {
        assert(b.take(k + 1).drop_last() =~= b.take(k));
        assert(open_bracket_count(b.take(k)) <= open_bracket_count(b.take(k + 1)));
        lemma_open_bracket_count_prefix(b, k + 1);
    }
}

/// Relies on `json5::from_str::<serde_json::Value>`: parses a document
/// of the tolerant JSON superset into a dynamically typed value, whose
/// member map is then exactly the document's ([`catalog_view`] equals
/// [`catalog_doc_of`] of the text), or reports why the text is not such
/// a document (and then the text denotes no catalog document).  The
/// parser recurses once per nesting level without a limit of its own,
/// so the caller bounds the input's opening brackets — an upper bound on
/// nesting — before the call.
#[verifier::external_body]
fn json5_parse(text: &str) -> (r: Result<serde_json::Value, json5::Error>)
    requires
        open_bracket_count(text.spec_bytes()) <= MAX_DOCUMENT_BRACKETS,
    ensures
        r matches Ok(v) ==> catalog_view(v) == catalog_doc_of(text@),
        r is Err ==> catalog_doc_of(text@) is None,
{
    json5::from_str(text)
}

/// Relies on `serde_json::Value::as_object` and `serde_json::Map::keys`:
/// `Some` exactly when the value is an object, and then every member key
/// exactly once, each converted to an owned string.
#[verifier::external_body]
fn value_object_keys(v: &serde_json::Value) -> (r: Option<Vec<String>>)
    ensures
        match r {
            Some(keys) => catalog_view(*v) matches Some(m) && {
                &&& forall|j: int| 0 <= j < keys@.len() ==> m.contains_key(#[trigger] keys@[j]@)
                &&& forall|fp: Seq<char>|
                    m.contains_key(fp) ==> exists|j: int|
                        0 <= j < keys@.len() && #[trigger] keys@[j]@ == fp
                &&& forall|j1: int, j2: int|
                    0 <= j1 < j2 < keys@.len() ==> keys@[j1]@ != keys@[j2]@
            },
            None => catalog_view(*v) is None,
        },
{
    v.as_object().map(|m| m.keys().cloned().collect())
}

/// Relies on `serde_json::Value::get`: the member of an object under the
/// given key.  For a key the member map records, the member is there and
/// carries exactly the offset the map records for it.
#[verifier::external_body]
fn value_get<'a>(v: &'a serde_json::Value, key: &str) -> (r: Option<&'a serde_json::Value>)
    ensures
        r matches Some(member) ==> (catalog_view(*v) matches Some(m) ==> (m.contains_key(key@)
            ==> member_offset_of(*member) == m[key@])),
        r is None ==> !(catalog_view(*v) matches Some(m) && m.contains_key(key@)),
{
    v.get(key)
}

/// Relies on `serde_json::Value::get` and `serde_json::Value::as_u64`:
/// the unsigned 64-bit integer that the member of `v` at `key`
/// represents, converted to a plain value.
#[verifier::external_body]
fn value_u64_member(v: &serde_json::Value, key: &str) -> (r: Option<u64>)
    ensures
        r == u64_member_of(*v, key@),
{
    v.get(key).and_then(|member| member.as_u64())
}

/// One catalog entry: the uppercase hex fingerprint of one supported
/// binary version and the base offset of the settings root pointer in
/// that version.
#[derive(Clone, Debug, PartialEq, Eq)]
pub struct CatalogEntry {
    /// Uppercase hex digest identifying one build of the target binary.
    pub fingerprint: String,
    /// Offset of the settings root pointer from the module base in that
    /// build.
    pub game_options_offset: u32,
}

/// The loaded offset catalog: an immutable mapping from fingerprint to
/// base offset.
#[derive(Clone, Debug, PartialEq, Eq)]
pub struct AUCaptureOffsets {
    /// The entries, one per document member that carries an offset,
    /// keyed by fingerprint; their order carries no meaning.
    pub entries: Vec<CatalogEntry>,
}

/// The base offset the catalog associates with fingerprint `fp`: the
/// offset of the first entry whose fingerprint is `fp`, or `None` when no
/// entry matches.
pub open spec fn spec_lookup(entries: Seq<CatalogEntry>, fp: Seq<char>) -> Option<u32>
    decreases entries.len(),
{
    if entries.len() == 0 {
        None
    } else if entries[0].fingerprint@ == fp {
        Some(entries[0].game_options_offset)
    } else {
        spec_lookup(entries.drop_first(), fp)
    }
}

/// Appending an entry changes no lookup that already resolved, resolves
/// the new entry's fingerprint where nothing did, and resolves nothing
/// else.
proof fn lemma_spec_lookup_push(entries: Seq<CatalogEntry>, e: CatalogEntry, fp: Seq<char>)
    ensures
        spec_lookup(entries.push(e), fp) == if spec_lookup(entries, fp) is Some {
            spec_lookup(entries, fp)
        } else if e.fingerprint@ == fp {
            Some(e.game_options_offset)
        } else {
            None::<u32>
        },
    decreases entries.len(),
{
    if entries.len() == 0 {
        assert(entries.push(e).len() == 1);
        assert(entries.push(e)[0] == e);
        assert(entries.push(e).drop_first() =~= Seq::<CatalogEntry>::empty());
        assert(spec_lookup(Seq::<CatalogEntry>::empty(), fp) is None);
        assert(spec_lookup(entries, fp) is None);
        if e.fingerprint@ == fp {
            assert(spec_lookup(entries.push(e), fp) == Some(e.game_options_offset));
        } else {
            assert(spec_lookup(entries.push(e), fp) == spec_lookup(
                entries.push(e).drop_first(),
                fp,
            ));
        }
    } else {
        assert(entries.push(e).len() == entries.len() + 1);
        assert(entries.push(e)[0] == entries[0]);
        assert(entries.push(e).drop_first() =~= entries.drop_first().push(e));
        lemma_spec_lookup_push(entries.drop_first(), e, fp);
        if entries[0].fingerprint@ == fp {
            assert(spec_lookup(entries.push(e), fp) == Some(entries[0].game_options_offset));
            assert(spec_lookup(entries, fp) == Some(entries[0].game_options_offset));
        } else {
            assert(spec_lookup(entries.push(e), fp) == spec_lookup(
                entries.drop_first().push(e),
                fp,
            ));
            assert(spec_lookup(entries, fp) == spec_lookup(entries.drop_first(), fp));
        }
    }
}

impl AUCaptureOffsets {
    /// A catalog with no entries: no fingerprint resolves.
    pub fn empty() -> (r: Self)
        ensures
            r.entries@ =~= Seq::<CatalogEntry>::empty(),
    {
        AUCaptureOffsets { entries: Vec::new() }
    }

    /// Parses a fetched catalog document.  Succeeds exactly when the
    /// text stays within the nesting bound and parses as a document of
    /// the tolerant JSON superset whose top level is an object, and then
    /// every lookup on the catalog answers exactly what the document
    /// records: the member's unsigned `GameOptionsOffset` truncated to
    /// 32 bits, for precisely the fingerprints whose member carries one.
    /// Any other text is a parse failure; transport failures are
    /// reported by the caller as [`AUCaptureOffsetsError::FetchFailed`]
    /// and never arise here.
    pub fn parse(text: &str) -> (r: Result<Self, AUCaptureOffsetsError>)
        ensures
            r is Ok <==> (open_bracket_count(text.spec_bytes()) <= MAX_DOCUMENT_BRACKETS
                && catalog_doc_of(text@) is Some),
            r matches Ok(c) ==> forall|fp: Seq<char>|
                #[trigger] spec_lookup(c.entries@, fp) == doc_lookup(catalog_doc_of(text@), fp),
            r matches Err(e) ==> e == AUCaptureOffsetsError::ParseFailed,
    {
        let bytes = text.as_bytes();
        let total = bytes.len();
        let mut opens: usize = 0;
        let mut bi: usize = 0;
        proof {
            assert(bytes@.take(0) =~= Seq::<u8>::empty());
        }
        while bi < total
            invariant
                total == bytes@.len(),
                bi <= total,
                opens <= bi,
                opens == open_bracket_count(bytes@.take(bi as int)),
                opens <= MAX_DOCUMENT_BRACKETS,
                bytes@ == text.spec_bytes(),
            decreases total - bi,
        {
            let b = bytes[bi];
            proof {
                assert(bytes@.take(bi as int + 1).drop_last() =~= bytes@.take(bi as int));
                assert(bytes@.take(bi as int + 1).last() == bytes@[bi as int]);
            }
            if b == 0x5B || b == 0x7B {
                opens = opens + 1;
                if opens > MAX_DOCUMENT_BRACKETS {
                    proof {
                        lemma_open_bracket_count_prefix(bytes@, bi as int + 1);
                    }
                    return Err(AUCaptureOffsetsError::ParseFailed);
                }
            }
            bi = bi + 1;
        }
        proof {
            assert(bytes@.take(total as int) =~= bytes@);
        }
        let doc = match json5_parse(text) {
            Ok(v) => v,
            Err(_) => {
                return Err(AUCaptureOffsetsError::ParseFailed);
            },
        };
        let keys = match value_object_keys(&doc) {
            Some(k) => k,
            None => {
                return Err(AUCaptureOffsetsError::ParseFailed);
            },
        };
        let mut entries: Vec<CatalogEntry> = Vec::new();
        let n = keys.len();
        let mut i: usize = 0;
        while i < n
            invariant
                n == keys@.len(),
                i <= n,
                catalog_view(doc) is Some,
                catalog_view(doc) == catalog_doc_of(text@),
                forall|j: int| 0 <= j < n ==> doc_contains(catalog_view(doc), #[trigger] keys@[j]@),
                forall|fp: Seq<char>|
                    doc_contains(catalog_view(doc), fp) ==> exists|j: int|
                        0 <= j < n && #[trigger] keys@[j]@ == fp,
                forall|j1: int, j2: int| 0 <= j1 < j2 < n ==> keys@[j1]@ != keys@[j2]@,
                forall|fp: Seq<char>|
                    #[trigger] spec_lookup(entries@, fp) == if exists|j: int|
                        0 <= j < i && #[trigger] keys@[j]@ == fp {
                        doc_lookup(catalog_view(doc), fp)
                    } else {
                        None::<u32>
                    },
            decreases n - i,
        {
            let key = &keys[i];
            let ghost fp_i = keys@[i as int]@;
            let member = match value_get(&doc, key.as_str()) {
                Some(member) => member,
                None => {
                    proof {
                        assert(doc_contains(catalog_view(doc), fp_i));
                        assert(false);
                    }
                    return Err(AUCaptureOffsetsError::ParseFailed);
                },
            };
            proof {
                assert(member_offset_of(*member) == doc_member_offset(catalog_view(doc), fp_i));
            }
            let offset64 = value_u64_member(member, "GameOptionsOffset");
            let ghost pre = entries@;
            if let Some(raw) = offset64 {
                entries.push(
                    CatalogEntry {
                        fingerprint: key.clone(),
                        game_options_offset: #[verifier::truncate] (raw as u32),
                    },
                );
            }
            proof {
                assert forall|fp: Seq<char>| #[trigger] spec_lookup(entries@, fp) == (if exists|j:
                    int|
                    0 <= j < i + 1 && #[trigger] keys@[j]@ == fp {
                    doc_lookup(catalog_view(doc), fp)
                } else {
                    None::<u32>
                }) by {
                    if offset64 is Some {
                        let e = CatalogEntry {
                            fingerprint: keys@[i as int],
                            game_options_offset: (offset64->Some_0) as u32,
                        };
                        assert(entries@ =~= pre.push(e));
                        lemma_spec_lookup_push(pre, e, fp);
                    }
                    if fp == fp_i {
                        assert(forall|j: int| 0 <= j < i ==> keys@[j]@ != fp_i);
                    }
                }
            }
            i = i + 1;
        }
        let result = AUCaptureOffsets { entries };
        proof {
            assert forall|fp: Seq<char>| #[trigger] spec_lookup(result.entries@, fp) == doc_lookup(
                catalog_doc_of(text@),
                fp,
            ) by {
                if doc_contains(catalog_view(doc), fp) {
                    assert(exists|j: int| 0 <= j < n && #[trigger] keys@[j]@ == fp);
                }
            }
        }
        Ok(result)
    }

    /// The base offset recorded for the given fingerprint, or `None`
    /// when the catalog has no entry for it.
    pub fn game_options_offset(&self, sha256: &str) -> (r: Option<u32>)
        ensures
            r == spec_lookup(self.entries@, sha256@),
    {
        let n = self.entries.len();
        let mut i: usize = 0;
        proof {
            assert(self.entries@.skip(0) =~= self.entries@);
        }
        while i < n
            invariant
                n == self.entries@.len(),
                i <= n,
                spec_lookup(self.entries@, sha256@) == spec_lookup(
                    self.entries@.skip(i as int),
                    sha256@,
                ),
            decreases n - i,
        {
            let entry = &self.entries[i];
            if str_eq(entry.fingerprint.as_str(), sha256) {
                proof {
                    assert(self.entries@.skip(i as int)[0] == self.entries@[i as int]);
                }
                return Some(entry.game_options_offset);
            }
            proof {
                assert(self.entries@.skip(i as int).drop_first() =~= self.entries@.skip(
                    i as int + 1,
                ));
                assert(self.entries@.skip(i as int)[0] == self.entries@[i as int]);
            }
            i = i + 1;
        }
        proof {
            assert(self.entries@.skip(n as int) =~= Seq::<CatalogEntry>::empty());
        }
        None
    }
}

} // verus!
