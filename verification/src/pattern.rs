//! Identity of a pattern function: the FNV-1a hashes of its name and of the
//! text of its return type, and the names of the items generated for it.
use vstd::prelude::*;
use vstd::string::StringExecFns;
use vstd::string::StringSliceAdditionalSpecFns;
use vstd::utf8::encode_utf8;

verus! {

/// FNV-1a 64-bit offset basis.
pub const FNV_OFFSET_BASIS: u64 = 0xcbf29ce484222325;

/// FNV-1a 64-bit prime.
pub const FNV_PRIME: u64 = 0x100000001b3;

/// One FNV-1a round: xor in the byte, then multiply by the prime modulo 2^64.
pub open spec fn fnv_step(hash: u64, byte: u8) -> u64 {
    (((hash ^ (byte as u64)) as nat * FNV_PRIME as nat) % 0x1_0000_0000_0000_0000nat) as u64
}

/// FNV-1a of `bytes` continued from the state `hash`.
pub open spec fn fnv1a_from(hash: u64, bytes: Seq<u8>) -> u64
    decreases bytes.len(),
{
    if bytes.len() == 0 {
        hash
    } else {
        fnv1a_from(fnv_step(hash, bytes[0]), bytes.drop_first())
    }
}

/// FNV-1a 64-bit hash of `bytes`.
pub fn fnv1a_64(bytes: &[u8]) -> (hash: u64)
    ensures
        hash == fnv1a_from(FNV_OFFSET_BASIS, bytes@),
{
    let mut hash: u64 = FNV_OFFSET_BASIS;
    let mut i: usize = 0;
    assert(bytes@.subrange(0, bytes@.len() as int) =~= bytes@);
    while i < bytes.len()
        invariant
            i <= bytes@.len(),
            fnv1a_from(hash, bytes@.subrange(i as int, bytes@.len() as int)) == fnv1a_from(
                FNV_OFFSET_BASIS,
                bytes@,
            ),
        decreases bytes@.len() - i,
    {
        let ghost rest = bytes@.subrange(i as int, bytes@.len() as int);
        assert(rest.drop_first() =~= bytes@.subrange(i + 1, bytes@.len() as int));
        hash = (hash ^ (bytes[i] as u64)).wrapping_mul(FNV_PRIME);
        i = i + 1;
    }
    hash
}

/// Hashing a concatenation is hashing the second part from the state the
/// first part left.
pub proof fn lemma_fnv1a_concat(hash: u64, a: Seq<u8>, b: Seq<u8>)
    ensures
        fnv1a_from(hash, a + b) == fnv1a_from(fnv1a_from(hash, a), b),
    decreases a.len(),
{
    if a.len() > 0 {
        assert((a + b).drop_first() =~= a.drop_first() + b);
        lemma_fnv1a_concat(fnv_step(hash, a[0]), a.drop_first(), b);
    } else {
        assert(a + b =~= b);
    }
}

/// One FNV-1a round on a single byte xors the raw byte into the state and
/// multiplies by the FNV prime `0x100000001b3` modulo 2^64.
pub proof fn lemma_fnv1a_single_byte(hash: u64, byte: u8)
    ensures
        fnv1a_from(hash, seq![byte]) == (((hash ^ (byte as u64)) as nat * 0x100000001b3nat)
            % 0x1_0000_0000_0000_0000nat) as u64,
{
    let single = seq![byte];
    assert(single.drop_first() =~= Seq::<u8>::empty());
    assert(fnv1a_from(hash, single) == fnv1a_from(fnv_step(hash, byte), single.drop_first()));
    assert(fnv1a_from(fnv_step(hash, byte), Seq::<u8>::empty()) == fnv_step(hash, byte));
    assert(FNV_PRIME == 0x100000001b3u64);
}

/// FNV-1a over a sequence is the rounds applied byte by byte: appending a
/// byte takes one more round, with the raw byte, on the state the prefix left.
pub proof fn lemma_fnv1a_append_byte(hash: u64, bytes: Seq<u8>, byte: u8)
    ensures
        fnv1a_from(hash, bytes.push(byte)) == ((((fnv1a_from(hash, bytes) ^ (byte as u64)) as nat)
            * 0x100000001b3nat) % 0x1_0000_0000_0000_0000nat) as u64,
{
    assert(bytes.push(byte) =~= bytes + seq![byte]);
    lemma_fnv1a_concat(hash, bytes, seq![byte]);
    lemma_fnv1a_single_byte(fnv1a_from(hash, bytes), byte);
}

/// Removing the spaces keeps every other byte, in order: it is the
/// sequence filtered on bytes other than `0x20`.
pub proof fn lemma_without_spaces_is_filter(bytes: Seq<u8>)
    ensures
        without_spaces(bytes) == bytes.filter(|b: u8| b != 0x20u8),
    decreases bytes.len(),
{
    let keep = |b: u8| b != 0x20u8;
    reveal(Seq::filter);
    if bytes.len() > 0 {
        lemma_without_spaces_is_filter(bytes.drop_last());
        assert(bytes.filter(keep) == (if keep(bytes.last()) {
            bytes.drop_last().filter(keep).push(bytes.last())
        } else {
            bytes.drop_last().filter(keep)
        }));
    } else {
        assert(bytes.filter(keep) == bytes);
    }
}

/// Appending a byte other than a space appends it to the result; appending a
/// space changes nothing.
pub proof fn lemma_without_spaces_push(bytes: Seq<u8>, byte: u8)
    ensures
        byte != 0x20 ==> without_spaces(bytes.push(byte)) == without_spaces(bytes).push(byte),
        byte == 0x20 ==> without_spaces(bytes.push(byte)) == without_spaces(bytes),
{
    assert(bytes.push(byte).drop_last() =~= bytes);
    lemma_without_spaces_is_filter(bytes);
    lemma_without_spaces_is_filter(bytes.push(byte));
    assert(bytes.push(byte).last() == byte);
}

/// Hash of a pattern function's name: FNV-1a of its UTF-8 bytes.
pub fn name_hash(name: &str) -> (hash: u64)
    ensures
        hash == fnv1a_from(FNV_OFFSET_BASIS, name.spec_bytes()),
{
    fnv1a_64(name.as_bytes())
}

/// `bytes` with every space (0x20) removed.
pub open spec fn without_spaces(bytes: Seq<u8>) -> Seq<u8>
    decreases bytes.len(),
{
    if bytes.len() == 0 {
        bytes
    } else if bytes.last() == 0x20 {
        without_spaces(bytes.drop_last())
    } else {
        without_spaces(bytes.drop_last()).push(bytes.last())
    }
}

/// Removing the spaces leaves no space behind, so removing them again
/// changes nothing.
pub proof fn lemma_without_spaces_idempotent(bytes: Seq<u8>)
    ensures
        without_spaces(without_spaces(bytes)) == without_spaces(bytes),
        forall|i: int| 0 <= i < without_spaces(bytes).len() ==> #[trigger] without_spaces(bytes)[i] != 0x20,
    decreases bytes.len(),
{
    if bytes.len() > 0 {
        lemma_without_spaces_idempotent(bytes.drop_last());
        let inner = without_spaces(bytes.drop_last());
        if bytes.last() != 0x20 {
            let pushed = inner.push(bytes.last());
            assert(pushed.drop_last() =~= inner);
        }
    }
}

fn strip_spaces(bytes: &[u8]) -> (out: Vec<u8>)
    ensures
        out@ == without_spaces(bytes@),
{
    let mut out: Vec<u8> = Vec::new();
    let mut i: usize = 0;
    while i < bytes.len()
        invariant
            i <= bytes@.len(),
            out@ == without_spaces(bytes@.subrange(0, i as int)),
        decreases bytes@.len() - i,
    {
        assert(bytes@.subrange(0, i + 1).drop_last() =~= bytes@.subrange(0, i as int));
        if bytes[i] != 0x20 {
            out.push(bytes[i]);
        }
        i = i + 1;
    }
    assert(bytes@.subrange(0, bytes@.len() as int) =~= bytes@);
    out
}

/// Hash of a pattern's return type: FNV-1a of the type's text with every
/// space removed.
pub fn type_hash(type_text: &str) -> (hash: u64)
    ensures
        hash == fnv1a_from(FNV_OFFSET_BASIS, without_spaces(type_text.spec_bytes())),
{
    let stripped = strip_spaces(type_text.as_bytes());
    fnv1a_64(stripped.as_slice())
}

/// The text of a pattern's return type, `()` when none is declared.
pub open spec fn declared_type_text(declared: Option<&str>) -> Seq<char> {
    match declared {
        Some(t) => t@,
        None => "()"@,
    }
}

/// The text of a pattern function's return type: the declared type's text,
/// or `()` when the function declares none.
pub fn return_type_text(declared: Option<&str>) -> (text: String)
    ensures
        declared is None ==> text@ == "()"@,
        declared matches Some(t) ==> text@ == t@,
        text@ == declared_type_text(declared),
{
    match declared {
        Some(t) => String::from_str(t),
        None => String::from_str("()"),
    }
}

/// Hash of a pattern function's return type as declared: a function that
/// declares none is hashed as returning `()`.
pub fn pattern_type_hash(declared: Option<&str>) -> (hash: u64)
    ensures
        hash == fnv1a_from(FNV_OFFSET_BASIS, without_spaces(encode_utf8(declared_type_text(declared)))),
{
    let text = return_type_text(declared);
    type_hash(text.as_str())
}

/// Names of the items generated for a pattern function.
pub struct PatternItemNames {
    /// The capture test.
    pub capture_test: String,
    /// The struct that carries the pattern's artifact and metadata.
    pub wrapper: String,
    /// The trait through which the wrapper is discovered.
    pub discovery_trait: String,
}

fn prefixed(prefix: &str, name: &str) -> (out: String)
    ensures
        out@ == prefix@ + name@,
{
    let mut out = String::from_str(prefix);
    out.append(name);
    out
}

/// The names generated for the pattern function `name`.
pub fn pattern_item_names(name: &str) -> (names: PatternItemNames)
    ensures
        names.capture_test@ == "__foundry_capture_for_"@ + name@,
        names.wrapper@ == "__FoundryWrapper_"@ + name@,
        names.discovery_trait@ == "__FoundryLocalDiscovery_"@ + name@,
{
    PatternItemNames {
        capture_test: prefixed("__foundry_capture_for_", name),
        wrapper: prefixed("__FoundryWrapper_", name),
        discovery_trait: prefixed("__FoundryLocalDiscovery_", name),
    }
}

} // verus!
