//! The decisions of the build step that forges artifacts, and the source text
//! of the lookup table that embeds them in the binary.
use vstd::prelude::*;
use vstd::string::StringExecFns;

verus! {

/// What the build step does about capturing artifacts.
#[derive(Debug, Copy, Clone, PartialEq, Eq, Structural)]
pub enum CaptureDecision {
    /// The step runs inside a capture pass and stops there.
    StopInsideCapture,
    /// The capture pass is run to produce the artifacts.
    RunCapture,
    /// The artifacts already present are used.
    UseCache,
}

/// Whether to capture: never from inside a capture pass; otherwise when no
/// artifact is cached or a regeneration is forced.
pub fn capture_decision(inside_capture_pass: bool, has_cache: bool, force_regen: bool) -> (decision: CaptureDecision)
    ensures
        inside_capture_pass ==> decision == CaptureDecision::StopInsideCapture,
        !inside_capture_pass && (!has_cache || force_regen) ==> decision == CaptureDecision::RunCapture,
        !inside_capture_pass && has_cache && !force_regen ==> decision == CaptureDecision::UseCache,
{
    if inside_capture_pass {
        CaptureDecision::StopInsideCapture
    } else if !has_cache || force_regen {
        CaptureDecision::RunCapture
    } else {
        CaptureDecision::UseCache
    }
}

/// Whether the static path is switched on: only when the capture did not fail
/// and at least one artifact was embedded.
pub fn forged_cfg_enabled(capture_succeeded: bool, cache_ready: bool) -> (enabled: bool)
    ensures
        enabled == (capture_succeeded && cache_ready),
{
    capture_succeeded && cache_ready
}

/// An artifact to embed: the pattern name (the file stem) and its bytes.
pub struct MatrixEntry {
    pub name: String,
    pub bytes: Vec<u8>,
}

/// The text of a decimal digit.
pub open spec fn digit_text(d: nat) -> Seq<char> {
    if d == 0 {
        "0"@
    } else if d == 1 {
        "1"@
    } else if d == 2 {
        "2"@
    } else if d == 3 {
        "3"@
    } else if d == 4 {
        "4"@
    } else if d == 5 {
        "5"@
    } else if d == 6 {
        "6"@
    } else if d == 7 {
        "7"@
    } else if d == 8 {
        "8"@
    } else {
        "9"@
    }
}

/// The decimal text of `n`, without leading zeros.
pub open spec fn decimal(n: nat) -> Seq<char>
    decreases n,
{
    if n < 10 {
        digit_text(n)
    } else {
        decimal(n / 10) + digit_text(n % 10)
    }
}

/// The decimal texts of `bytes` separated by `", "`.
pub open spec fn joined_bytes(bytes: Seq<u8>) -> Seq<char>
    decreases bytes.len(),
{
    if bytes.len() == 0 {
        Seq::empty()
    } else if bytes.len() == 1 {
        decimal(bytes[0] as nat)
    } else {
        joined_bytes(bytes.drop_last()) + ", "@ + decimal(bytes.last() as nat)
    }
}

/// The debug text of a byte vector: `[b0, b1, ...]`.
pub open spec fn byte_list(bytes: Seq<u8>) -> Seq<char> {
    "["@ + joined_bytes(bytes) + "]"@
}

/// The number that a text of decimal digits denotes.
pub open spec fn decimal_value(text: Seq<char>) -> int
    decreases text.len(),
{
    if text.len() == 0 {
        0
    } else {
        decimal_value(text.drop_last()) * 10 + (text.last() as int - '0' as int)
    }
}

/// Whether a character is one of `0`..`9`.
pub open spec fn is_decimal_digit(c: char) -> bool {
    '0' as int <= c as int <= '9' as int
}

proof fn lemma_digit_text(d: nat)
    requires
        d < 10,
    ensures
        digit_text(d).len() == 1,
        is_decimal_digit(digit_text(d)[0]),
        digit_text(d)[0] as int - '0' as int == d,
{
    reveal_strlit("0");
    reveal_strlit("1");
    reveal_strlit("2");
    reveal_strlit("3");
    reveal_strlit("4");
    reveal_strlit("5");
    reveal_strlit("6");
    reveal_strlit("7");
    reveal_strlit("8");
    reveal_strlit("9");
}

/// The decimal text of `n` is a non-empty run of digits, without a leading
/// zero unless `n` is zero, that denotes `n`.
pub proof fn lemma_decimal_denotes(n: nat)
    ensures
        decimal(n).len() >= 1,
        forall|i: int| 0 <= i < decimal(n).len() ==> is_decimal_digit(#[trigger] decimal(n)[i]),
        decimal_value(decimal(n)) == n,
        n > 0 ==> decimal(n)[0] != '0',
    decreases n,
{
    if n < 10 {
        lemma_digit_text(n);
        let t = digit_text(n);
        assert(t.drop_last() =~= Seq::<char>::empty());
        assert(decimal_value(Seq::<char>::empty()) == 0);
        assert(decimal_value(t) == decimal_value(t.drop_last()) * 10 + (t.last() as int - '0' as int));
    } else {
        lemma_decimal_denotes(n / 10);
        lemma_digit_text(n % 10);
        let head = decimal(n / 10);
        let t = head + digit_text(n % 10);
        assert(t.drop_last() =~= head);
        assert(t.last() == digit_text(n % 10)[0]);
        assert forall|i: int| 0 <= i < t.len() implies is_decimal_digit(#[trigger] t[i]) by {
            if i < head.len() {
                assert(t[i] == head[i]);
            }
        }
        assert(t[0] == head[0]);
        assert(decimal(n) == t);
        assert(decimal_value(t) == decimal_value(head) * 10 + (t.last() as int - '0' as int));
        assert((n / 10) * 10 + n % 10 == n);
    }
}

/// The byte list holds one decimal per byte, in order, separated by
/// `", "`: the empty list is `[]`, a single byte is `[d]`, and appending a
/// byte to a non-empty list inserts `", "` and its decimal before the `]`.
pub proof fn lemma_byte_list_one_decimal_per_byte(bytes: Seq<u8>, byte: u8)
    ensures
        byte_list(Seq::<u8>::empty()) == "["@ + "]"@,
        byte_list(seq![byte]) == "["@ + decimal(byte as nat) + "]"@,
        bytes.len() > 0 ==> exists|inner: Seq<char>|
            byte_list(bytes) == "["@ + inner + "]"@ && #[trigger] byte_list(bytes.push(byte)) == "["@ + inner
                + ", "@ + decimal(byte as nat) + "]"@,
{
    assert(joined_bytes(Seq::<u8>::empty()) =~= Seq::<char>::empty());
    assert("["@ + Seq::<char>::empty() =~= "["@);
    assert(seq![byte].len() == 1 && seq![byte][0] == byte);
    if bytes.len() > 0 {
        let inner = joined_bytes(bytes);
        let longer = bytes.push(byte);
        assert(longer.drop_last() =~= bytes);
        assert(joined_bytes(longer) == inner + ", "@ + decimal(byte as nat));
        assert(byte_list(longer) =~= "["@ + inner + ", "@ + decimal(byte as nat) + "]"@);
    }
}

/// The match arm that embeds one artifact, aligned to 8 bytes.
pub open spec fn matrix_branch(name: Seq<char>, bytes: Seq<u8>) -> Seq<char> {
    "\""@ + name + "\" => { #[repr(align(8))]struct AlignedData([u8; "@ + decimal(bytes.len())
        + "]);static ALIGNED: AlignedData = AlignedData("@ + byte_list(bytes)
        + ");Some(&ALIGNED.0)},\n"@
}

/// The match arms of all entries, in order.
pub open spec fn matrix_branches(entries: Seq<MatrixEntry>) -> Seq<char>
    decreases entries.len(),
{
    if entries.len() == 0 {
        Seq::empty()
    } else {
        matrix_branches(entries.drop_last()) + matrix_branch(entries.last().name@, entries.last().bytes@)
    }
}

/// The source of `get_matrix_bytes`, which maps each pattern name to its
/// embedded artifact.
pub open spec fn matrix_map_source(entries: Seq<MatrixEntry>) -> Seq<char> {
    "#[allow(dead_code)]\npub fn get_matrix_bytes(name: &str) -> Option<&'static [u8]> {\nmatch name {\n"@
        + matrix_branches(entries) + "\n_ => None,\n}\n}"@
}

fn push_digit(out: &mut String, d: u64)
    requires
        d < 10,
    ensures
        final(out)@ == old(out)@ + digit_text(d as nat),
{
    if d == 0 {
        out.append("0");
    } else if d == 1 {
        out.append("1");
    } else if d == 2 {
        out.append("2");
    } else if d == 3 {
        out.append("3");
    } else if d == 4 {
        out.append("4");
    } else if d == 5 {
        out.append("5");
    } else if d == 6 {
        out.append("6");
    } else if d == 7 {
        out.append("7");
    } else if d == 8 {
        out.append("8");
    } else {
        out.append("9");
    }
}

/// Appends the decimal text of `n`.
pub fn push_decimal(out: &mut String, n: u64)
    ensures
        final(out)@ == old(out)@ + decimal(n as nat),
    decreases n,
{
    if n >= 10 {
        push_decimal(out, n / 10);
    }
    push_digit(out, n % 10);
    proof {
        if n >= 10 {
            assert(decimal(n as nat) == decimal((n / 10) as nat) + digit_text((n % 10) as nat));
        }
    }
}

fn push_byte_list(out: &mut String, bytes: &Vec<u8>)
    ensures
        final(out)@ == old(out)@ + byte_list(bytes@),
{
    let ghost start = out@;
    out.append("[");
    let mut i: usize = 0;
    while i < bytes.len()
        invariant
            i <= bytes@.len(),
            out@ == start + "["@ + joined_bytes(bytes@.subrange(0, i as int)),
        decreases bytes@.len() - i,
    {
        let ghost before = out@;
        if i > 0 {
            out.append(", ");
        }
        push_decimal(out, bytes[i] as u64);
        proof {
            let prefix = bytes@.subrange(0, i + 1);
            assert(prefix.drop_last() =~= bytes@.subrange(0, i as int));
            if i == 0 {
                assert(joined_bytes(prefix) == decimal(prefix[0] as nat));
                assert(joined_bytes(bytes@.subrange(0, 0)) =~= Seq::<char>::empty());
            }
        }
        i = i + 1;
    }
    out.append("]");
    assert(bytes@.subrange(0, bytes@.len() as int) =~= bytes@);
}

fn push_matrix_branch(out: &mut String, entry: &MatrixEntry)
    ensures
        final(out)@ == old(out)@ + matrix_branch(entry.name@, entry.bytes@),
{
    let ghost start = out@;
    out.append("\"");
    out.append(entry.name.as_str());
    out.append("\" => { #[repr(align(8))]struct AlignedData([u8; ");
    let ghost s1 = out@;
    push_decimal(out, entry.bytes.len() as u64);
    let ghost s2 = out@;
    out.append("]);static ALIGNED: AlignedData = AlignedData(");
    let ghost s3 = out@;
    push_byte_list(out, &entry.bytes);
    let ghost s4 = out@;
    out.append(");Some(&ALIGNED.0)},\n");
    assert(out@ =~= start + matrix_branch(entry.name@, entry.bytes@));
}

/// Renders the source of `get_matrix_bytes` for the given artifacts, one
/// match arm per artifact in the order given.
pub fn render_matrix_map(entries: &Vec<MatrixEntry>) -> (source: String)
    ensures
        source@ == matrix_map_source(entries@),
{
    let mut source = String::from_str(
        "#[allow(dead_code)]\npub fn get_matrix_bytes(name: &str) -> Option<&'static [u8]> {\nmatch name {\n",
    );
    let ghost head = source@;
    let mut i: usize = 0;
    while i < entries.len()
        invariant
            i <= entries@.len(),
            source@ == head + matrix_branches(entries@.subrange(0, i as int)),
        decreases entries@.len() - i,
    {
        push_matrix_branch(&mut source, &entries[i]);
        proof {
            let prefix = entries@.subrange(0, i + 1);
            assert(prefix.drop_last() =~= entries@.subrange(0, i as int));
            assert(prefix.last() == entries@[i as int]);
        }
        i = i + 1;
    }
    source.append("\n_ => None,\n}\n}");
    assert(entries@.subrange(0, entries@.len() as int) =~= entries@);
    source
}

} // verus!
