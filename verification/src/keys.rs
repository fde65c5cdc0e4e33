//! The key namespace: the deterministic, collision-free mapping from a
//! category and a job identifier to the key string under which the matching
//! artifact lives in the shared store.

use vstd::prelude::*;

use crate::request_id::{spec_hex, u32_hex, lemma_hex_injective, RequestId};

verus! {

/// The categories of stored artifacts, each with its own category token
/// and its own externally configured expiration.
#[derive(Copy, Clone, Debug, PartialEq, Eq, Structural)]
pub enum KeyCategory {
    Input,
    Image,
    ProcessedImage,
    Result,
}

/// The token that names a category inside a key.
pub open spec fn spec_category_token(c: KeyCategory) -> Seq<char> {
    match c {
        KeyCategory::Input => "input"@,
        KeyCategory::Image => "image"@,
        KeyCategory::ProcessedImage => "processed_image"@,
        KeyCategory::Result => "result"@,
    }
}

/// The namespace prefix shared by every key, separator included.
pub open spec fn spec_namespace_prefix() -> Seq<char> {
    "fsdata_v1:"@
}

/// The key under which the artifact of one category for one identifier is
/// stored: prefix, category token, separator, hexadecimal identifier.
pub open spec fn spec_key(c: KeyCategory, id: u32) -> Seq<char> {
    spec_namespace_prefix() + spec_category_token(c) + ":"@ + spec_hex(id)
}

/// The four category tokens, spelled out.
proof fn lemma_category_tokens()
    ensures
        spec_category_token(KeyCategory::Input) =~= seq!['i', 'n', 'p', 'u', 't'],
        spec_category_token(KeyCategory::Image) =~= seq!['i', 'm', 'a', 'g', 'e'],
        spec_category_token(KeyCategory::ProcessedImage) =~= seq![
            'p',
            'r',
            'o',
            'c',
            'e',
            's',
            's',
            'e',
            'd',
            '_',
            'i',
            'm',
            'a',
            'g',
            'e',
        ],
        spec_category_token(KeyCategory::Result) =~= seq!['r', 'e', 's', 'u', 'l', 't'],
{
    reveal_strlit("input");
    reveal_strlit("image");
    reveal_strlit("processed_image");
    reveal_strlit("result");
}

/// Distinct categories carry distinct tokens.
pub proof fn lemma_category_tokens_distinct(c1: KeyCategory, c2: KeyCategory)
    requires
        c1 != c2,
    ensures
        spec_category_token(c1) != spec_category_token(c2),
{
    lemma_category_tokens();
}

/// The key namespace mapping is injective: two keys coincide only for the
/// same category and the same identifier.
pub proof fn lemma_key_injective(c1: KeyCategory, id1: u32, c2: KeyCategory, id2: u32)
    requires
        spec_key(c1, id1) == spec_key(c2, id2),
    ensures
        c1 == c2,
        id1 == id2,
{
    reveal_strlit("fsdata_v1:");
    reveal_strlit(":");
    lemma_category_tokens();
    let k1 = spec_key(c1, id1);
    let k2 = spec_key(c2, id2);
    let t1 = spec_category_token(c1);
    let t2 = spec_category_token(c2);
    assert(k1.len() == 10 + t1.len() + 1 + 8);
    assert(k2.len() == 10 + t2.len() + 1 + 8);
    assert(t1.len() == t2.len());
    assert(t1 =~= k1.subrange(10, 10 + t1.len() as int));
    assert(t2 =~= k2.subrange(10, 10 + t2.len() as int));
    if (c1 != c2) {
        lemma_category_tokens_distinct(c1, c2);
    }
    assert(c1 == c2);
    let n = k1.len() as int;
    assert(spec_hex(id1) =~= k1.subrange(n - 8, n));
    assert(spec_hex(id2) =~= k2.subrange(n - 8, n));
    lemma_hex_injective(id1, id2);
}

/// Build the key for one category and one identifier.
pub fn category_key(c: KeyCategory, request_id: RequestId) -> (s: String)
    ensures
        s@ == spec_key(c, request_id@),
{
    let mut s = String::from_str("fsdata_v1:");
    match c {
        KeyCategory::Input => s.append("input"),
        KeyCategory::Image => s.append("image"),
        KeyCategory::ProcessedImage => s.append("processed_image"),
        KeyCategory::Result => s.append("result"),
    }
    s.append(":");
    let hex = request_id.hex_string();
    s.append(hex.as_str());
    proof {
        assert(s@ =~= spec_key(c, request_id@));
    }
    s
}

/// The key of the final conversion result for one identifier.
pub fn result_key(request_id: RequestId) -> (s: String)
    ensures
        s@ == spec_key(KeyCategory::Result, request_id@),
{
    category_key(KeyCategory::Result, request_id)
}

/// The key of the raw upload for one identifier.
pub fn input_key(request_id: RequestId) -> (s: String)
    ensures
        s@ == spec_key(KeyCategory::Input, request_id@),
{
    category_key(KeyCategory::Input, request_id)
}

/// The key of the uploaded image for one identifier.
pub fn image_key(request_id: RequestId) -> (s: String)
    ensures
        s@ == spec_key(KeyCategory::Image, request_id@),
{
    category_key(KeyCategory::Image, request_id)
}

/// The key of the pre-processed image for one identifier.
pub fn processed_image_key(request_id: RequestId) -> (s: String)
    ensures
        s@ == spec_key(KeyCategory::ProcessedImage, request_id@),
{
    category_key(KeyCategory::ProcessedImage, request_id)
}

} // verus!
