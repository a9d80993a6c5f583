use vstd::prelude::*;

use crate::primitives::{be_value, Uint256};

verus! {

/// The Keccak-256 digest of `data`, as `alloy::primitives::keccak256`
/// computes it.
pub uninterp spec fn keccak256_digest(data: Seq<u8>) -> Seq<u8>;

/// Calls `alloy::primitives::keccak256`. Claimed of it: the 32 bytes it returns
/// are `keccak256_digest` of the input.
#[verifier::external_body]
fn keccak256(data: &[u8]) -> (res: [u8; 32])
    ensures
        res@ == keccak256_digest(data@),
{
    alloy::primitives::keccak256(data).0
}

/// The four-byte selector of a Solidity function with the given canonical
/// signature: the first four bytes of the Keccak-256 digest of its UTF-8 bytes.
pub open spec fn selector_of(signature: Seq<char>) -> Seq<u8> {
    keccak256_digest(vstd::utf8::encode_utf8(signature)).take(4)
}

/// Computes the four-byte selector of the function with canonical signature
/// `signature`, such as `"propagateRoot()"`.
pub fn function_selector(signature: &str) -> (res: Vec<u8>)
    ensures
        res@ == selector_of(signature@),
        res@.len() == 4,
{
    let digest = keccak256(signature.as_bytes());
    let mut res: Vec<u8> = Vec::new();
    res.push(digest[0]);
    res.push(digest[1]);
    res.push(digest[2]);
    res.push(digest[3]);
    assert(res@ =~= digest@.take(4));
    res
}

/// The topic of an event with canonical signature `signature`: the Keccak-256
/// digest of its UTF-8 bytes.
pub open spec fn event_topic_of(signature: Seq<char>) -> Seq<u8> {
    keccak256_digest(vstd::utf8::encode_utf8(signature))
}

/// Computes the topic that identifies an event with canonical signature
/// `signature` in logs.
pub fn event_topic(signature: &str) -> (res: Vec<u8>)
    ensures
        res@ == event_topic_of(signature@),
        res@.len() == 32,
{
    let digest = keccak256(signature.as_bytes());
    let mut res: Vec<u8> = Vec::new();
    let mut i: usize = 0;
    while i < 32
        invariant
            i <= 32,
            digest@.len() == 32,
            res@ == digest@.subrange(0, i as int),
        decreases 32 - i,
    {
        res.push(digest[i]);
        i = i + 1;
    }
    assert(res@ =~= digest@);
    res
}

/// The topic of `TreeChanged(uint256 indexed preRoot, uint8 indexed kind,
/// uint256 indexed postRoot)`, the identity manager's event for a new root.
pub fn tree_changed_topic() -> (res: Vec<u8>)
    ensures
        res@ == event_topic_of("TreeChanged(uint256,uint8,uint256)"@),
        res@.len() == 32,
{
    event_topic("TreeChanged(uint256,uint8,uint256)")
}

/// Whether two byte strings are equal.
fn bytes_equal(a: &[u8], b: &[u8]) -> (res: bool)
    ensures
        res == (a@ == b@),
{
    if a.len() != b.len() {
        return false;
    }
    let mut i: usize = 0;
    while i < a.len()
        invariant
            i <= a@.len(),
            a@.len() == b@.len(),
            a@.subrange(0, i as int) == b@.subrange(0, i as int),
        decreases a@.len() - i,
    {
        if a[i] != b[i] {
            assert(a@[i as int] != b@[i as int]);
            return false;
        }
        assert(a@.subrange(0, i + 1) =~= a@.subrange(0, i as int).push(a@[i as int]));
        assert(b@.subrange(0, i + 1) =~= b@.subrange(0, i as int).push(b@[i as int]));
        i = i + 1;
    }
    assert(a@ =~= a@.subrange(0, a@.len() as int));
    assert(b@ =~= b@.subrange(0, b@.len() as int));
    true
}

/// The new root that a log's topics carry, if they are those of a
/// `TreeChanged` event: four topics, the first the event's topic, the last a
/// 32-byte `postRoot`.
pub fn tree_changed_post_root(topics: &Vec<Vec<u8>>) -> (res: Option<Uint256>)
    ensures
        res is Some <==> (topics@.len() == 4 && topics@[0]@ == event_topic_of(
            "TreeChanged(uint256,uint8,uint256)"@,
        ) && topics@[3]@.len() == 32),
        res matches Some(root) ==> root.value() == be_value(topics@[3]@),
{
    if topics.len() != 4 {
        return None;
    }
    let topic = tree_changed_topic();
    if !bytes_equal(topics[0].as_slice(), topic.as_slice()) {
        return None;
    }
    Uint256::decode_topic(topics[3].as_slice())
}

/// The calldata of `IStateBridge.propagateRoot()`, a function without
/// arguments: its selector alone.
pub fn propagate_root_calldata() -> (res: Vec<u8>)
    ensures
        res@ == selector_of("propagateRoot()"@),
{
    function_selector("propagateRoot()")
}

/// The calldata of `latestRoot()`, the view function that both the identity
/// manager and a bridged World ID expose: its selector alone.
pub fn latest_root_calldata() -> (res: Vec<u8>)
    ensures
        res@ == selector_of("latestRoot()"@),
{
    function_selector("latestRoot()")
}

} // verus!
