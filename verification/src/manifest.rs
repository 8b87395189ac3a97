//! The build-request manifest: a mapping from relative source-file path to
//! file content, decoded from the request body and screened before any
//! filesystem interaction. A key is accepted only when it is non-empty,
//! carries the toolchain's source suffix, contains no parent-directory
//! traversal and is not absolute; every content value must be text.

use vstd::prelude::*;
use crate::bytescan::{contains_seq, ends_with, contains_bytes, has_suffix};

verus! {

/// The parent-directory traversal marker `..`, as bytes.
pub open spec fn dot_dot() -> Seq<u8> {
    seq![46u8, 46u8]
}

/// The source-file suffix `.rs` that the toolchain expects, as bytes.
pub open spec fn source_suffix() -> Seq<u8> {
    seq![46u8, 114u8, 115u8]
}

/// The path separator `/`; a key beginning with it is an absolute path.
pub const SLASH_BYTE: u8 = 47;

/// One decoded content value: text, or some other JSON value.
pub enum JsonContent {
    Text(Vec<u8>),
    NonText,
}

/// A decoded request body: the entries of a top-level object, or a marker
/// that the top level was some other JSON value.
pub enum Payload {
    Object(Vec<(Vec<u8>, JsonContent)>),
    NonObject,
}

/// Why a decoded payload was refused before staging.
#[derive(Clone, Copy, Debug, PartialEq, Eq, Structural)]
pub enum Rejection {
    /// The top-level value is not an object.
    MalformedPayload,
    /// Some key is empty, lacks the source suffix, traverses upward, or is
    /// absolute.
    RejectedFilename,
    /// Some content value is not a string.
    InvalidContentType,
}

/// An accepted manifest: the validated path/content pairs, ready to stage.
pub struct Manifest {
    pub files: Vec<(Vec<u8>, Vec<u8>)>,
}

/// A key that is safe to materialize beneath the workspace root.
pub open spec fn valid_key(k: Seq<u8>) -> bool {
    &&& k.len() > 0
    &&& ends_with(k, source_suffix())
    &&& !contains_seq(k, dot_dot())
    &&& k[0] != SLASH_BYTE
}

pub open spec fn all_keys_valid(s: Seq<(Vec<u8>, JsonContent)>) -> bool {
    forall|i: int| 0 <= i < s.len() ==> valid_key(#[trigger] s[i].0@)
}

pub open spec fn all_text(s: Seq<(Vec<u8>, JsonContent)>) -> bool {
    forall|i: int| 0 <= i < s.len() ==> #[trigger] s[i].1 is Text
}

pub open spec fn text_of(c: JsonContent) -> Seq<u8> {
    match c {
        JsonContent::Text(v) => v@,
        JsonContent::NonText => Seq::empty(),
    }
}

/// The manifest's files carry over the payload entries pairwise: same keys,
/// same contents, same order.
pub open spec fn staged_files_match(
    files: Seq<(Vec<u8>, Vec<u8>)>,
    entries: Seq<(Vec<u8>, JsonContent)>,
) -> bool {
    &&& files.len() == entries.len()
    &&& forall|i: int| 0 <= i < entries.len()
        ==> (#[trigger] files[i]).0@ == entries[i].0@ && files[i].1@ == text_of(entries[i].1)
}

/// The screening verdict on a decoded payload, in the order the checks run:
/// the shape of the top level first, then every key, then every value.
pub open spec fn rejection_of(p: Payload) -> Option<Rejection> {
    match p {
        Payload::NonObject => Some(Rejection::MalformedPayload),
        Payload::Object(es) => if !all_keys_valid(es@) {
            Some(Rejection::RejectedFilename)
        } else if !all_text(es@) {
            Some(Rejection::InvalidContentType)
        } else {
            None
        },
    }
}

fn dot_dot_bytes() -> (v: Vec<u8>)
    ensures
        v@ == dot_dot(),
{
    let mut v: Vec<u8> = Vec::new();
    v.push(46);
    v.push(46);
    proof {
        assert(v@ =~= dot_dot());
    }
    v
}

fn source_suffix_bytes() -> (v: Vec<u8>)
    ensures
        v@ == source_suffix(),
{
    let mut v: Vec<u8> = Vec::new();
    v.push(46);
    v.push(114);
    v.push(115);
    proof {
        assert(v@ =~= source_suffix());
    }
    v
}

/// Decides whether one key may be staged.
pub fn key_ok(k: &Vec<u8>) -> (b: bool)
    ensures
        b == valid_key(k@),
{
    if k.len() == 0 {
        return false;
    }
    if k[0] == SLASH_BYTE {
        return false;
    }
    let suffix = source_suffix_bytes();
    if !has_suffix(k, &suffix) {
        return false;
    }
    let dots = dot_dot_bytes();
    if contains_bytes(k, &dots) {
        return false;
    }
    true
}

/// Screens a decoded payload and, when every entry is acceptable, hands back
/// the manifest to stage. Pure: runs before any directory is created.
pub fn validate(p: Payload) -> (r: Result<Manifest, Rejection>)
    ensures
        rejection_of(p) matches Some(rej) ==> r matches Err(e) && e == rej,
        rejection_of(p) is None ==> (p matches Payload::Object(es)
            && r matches Ok(m) && staged_files_match(m.files@, es@)),
{
    match p {
        Payload::NonObject => Err(Rejection::MalformedPayload),
        Payload::Object(mut es) => {
            let mut i: usize = 0;
            while i < es.len()
                invariant
                    p == Payload::Object(es),
                    i <= es.len(),
                    forall|j: int| 0 <= j < i ==> valid_key(#[trigger] es@[j].0@),
                decreases es.len() - i,
            {
                if !key_ok(&es[i].0) {
                    proof {
                        assert(!valid_key(es@[i as int].0@));
                        assert(!all_keys_valid(es@));
                    }
                    return Err(Rejection::RejectedFilename);
                }
                i = i + 1;
            }
            let mut i: usize = 0;
            while i < es.len()
                invariant
                    p == Payload::Object(es),
                    i <= es.len(),
                    all_keys_valid(es@),
                    forall|j: int| 0 <= j < i ==> #[trigger] es@[j].1 is Text,
                decreases es.len() - i,
            {
                let is_text = match &es[i].1 {
                    JsonContent::Text(_) => true,
                    JsonContent::NonText => false,
                };
                if !is_text {
                    proof {
                        assert(!(es@[i as int].1 is Text));
                        assert(!all_text(es@));
                    }
                    return Err(Rejection::InvalidContentType);
                }
                i = i + 1;
            }
            let ghost orig = es@;
            let mut files: Vec<(Vec<u8>, Vec<u8>)> = Vec::new();
            while es.len() > 0
                invariant
                    p matches Payload::Object(v) && v@ == orig,
                    all_keys_valid(orig),
                    all_text(orig),
                    files@.len() + es@.len() == orig.len(),
                    es@ == orig.subrange(files@.len() as int, orig.len() as int),
                    forall|j: int| 0 <= j < files@.len()
                        ==> (#[trigger] files@[j]).0@ == orig[j].0@
                            && files@[j].1@ == text_of(orig[j].1),
                decreases es.len(),
            {
                let ghost done = files@.len() as int;
                let ghost pre = es@;
                let (k, c) = es.remove(0);
                proof {
                    assert(pre[0] == orig[done]);
                    assert(c == orig[done].1);
                    assert(es@ =~= orig.subrange(done + 1, orig.len() as int));
                }
                match c {
                    JsonContent::Text(body) => {
                        files.push((k, body));
                    },
                    JsonContent::NonText => {
                        proof {
                            assert(orig[done].1 is Text);
                        }
                        return Err(Rejection::InvalidContentType);
                    },
                }
            }
            proof {
                assert(staged_files_match(files@, orig));
            }
            Ok(Manifest { files })
        },
    }
}

/// What the JSON decoder yields on given body bytes: the entries of a
/// top-level object, some other top-level value, or a decode failure. The
/// decoder is deterministic, so this is a function of the bytes alone;
/// nothing further is assumed of it, and every caller states what it does
/// for each possible value.
pub uninterp spec fn decoded_of(body: Seq<u8>) -> Option<Payload>;

/// Relies on `serde_json::from_slice`: decodes JSON text into a value tree,
/// deterministically in the input bytes, refusing malformed input. The
/// wrapper reports the top level as an object's entries (each content value
/// marked text or non-text), as some other JSON value, or as a parse
/// failure, and that report is the named `decoded_of` of the bytes.
#[verifier::external_body]
pub(crate) fn decode_json(body: &Vec<u8>) -> (r: Option<Payload>)
    ensures
        r == decoded_of(body@),
{
    match serde_json::from_slice::<serde_json::Value>(body.as_slice()) {
        Ok(serde_json::Value::Object(entries)) => Some(Payload::Object(
            entries
                .into_iter()
                .map(|(k, v)| (k.into_bytes(), match v {
                    serde_json::Value::String(s) => JsonContent::Text(s.into_bytes()),
                    _ => JsonContent::NonText,
                }))
                .collect(),
        )),
        Ok(_) => Some(Payload::NonObject),
        Err(_) => None,
    }
}

/// A key holding a traversal marker or starting absolute is refused, and
/// refusal of a key decides the whole payload: the verdict is
/// `RejectedFilename`.
pub proof fn lemma_traversal_or_absolute_rejected(p: Payload, i: int)
    requires
        p matches Payload::Object(es) && 0 <= i < es@.len()
            && (contains_seq(es@[i].0@, dot_dot())
                || (es@[i].0@.len() > 0 && es@[i].0@[0] == SLASH_BYTE)),
    ensures
        rejection_of(p) == Some(Rejection::RejectedFilename),
{
    if let Payload::Object(es) = p {
        assert(!valid_key(es@[i].0@));
        assert(!all_keys_valid(es@));
    }
}

/// A key lacking the source suffix is refused, and the verdict is
/// `RejectedFilename`.
pub proof fn lemma_missing_suffix_rejected(p: Payload, i: int)
    requires
        p matches Payload::Object(es) && 0 <= i < es@.len()
            && !ends_with(es@[i].0@, source_suffix()),
    ensures
        rejection_of(p) == Some(Rejection::RejectedFilename),
{
    if let Payload::Object(es) = p {
        assert(!valid_key(es@[i].0@));
        assert(!all_keys_valid(es@));
    }
}

} // verus!
