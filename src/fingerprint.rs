//! The fingerprint of a configuration file: the SHA-256 digest of its bytes,
//! rendered as lowercase hexadecimal.
use vstd::prelude::*;

verus! {

/// The SHA-256 digest of a byte sequence.
pub uninterp spec fn sha256_of(b: Seq<u8>) -> Seq<u8>;

/// Relies on sha2::Sha256 (through `Digest::digest`): the 32-byte SHA-256
/// digest of the bytes, which depends on the bytes alone.
#[verifier::external_body]
fn sha256(b: &[u8]) -> (r: Vec<u8>)
    ensures
        r@ == sha256_of(b@),
        r@.len() == 32,
{
    <sha2::Sha256 as sha2::Digest>::digest(b).to_vec()
}

/// The lowercase hexadecimal digit of a value below sixteen.
pub open spec fn hex_digit(n: u8) -> char {
    if n < 10 {
        (n + 48) as char
    } else {
        (n + 87) as char
    }
}

/// Two lowercase hexadecimal digits per byte, most significant first.
pub open spec fn hex_spec(b: Seq<u8>) -> Seq<char>
    decreases b.len(),
{
    if b.len() == 0 {
        Seq::empty()
    } else {
        let x = b.last();
        hex_spec(b.drop_last()) + seq![hex_digit(x / 16), hex_digit(x % 16)]
    }
}

/// The fingerprint of configuration content `b`.
pub open spec fn fingerprint_spec(b: Seq<u8>) -> Seq<char> {
    hex_spec(sha256_of(b))
}

/// Relies on String::push: the character is appended at the end.
#[verifier::external_body]
pub(crate) fn push_char(s: &mut String, c: char)
    ensures
        final(s)@ == old(s)@.push(c),
{
    s.push(c)
}

fn hex_char(n: u8) -> (c: char)
    requires
        n < 16,
    ensures
        c == hex_digit(n),
{
    if n < 10 {
        (n + 48) as char
    } else {
        (n + 87) as char
    }
}

/// Renders bytes as lowercase hexadecimal.
pub fn to_hex(b: &[u8]) -> (r: String)
    ensures
        r@ == hex_spec(b@),
{
    let mut r = String::new();
    let mut i: usize = 0;
    while i < b.len()
        invariant
            i <= b@.len(),
            r@ == hex_spec(b@.subrange(0, i as int)),
        decreases b@.len() - i,
    {
        let x = b[i];
        push_char(&mut r, hex_char(x / 16));
        push_char(&mut r, hex_char(x % 16));
        assert(b@.subrange(0, i + 1).drop_last() == b@.subrange(0, i as int));
        i = i + 1;
    }
    assert(b@.subrange(0, b@.len() as int) == b@);
    r
}

/// The fingerprint of configuration content: its SHA-256 digest in
/// lowercase hexadecimal, 64 characters long.
pub fn fingerprint(content: &[u8]) -> (r: String)
    ensures
        r@ == fingerprint_spec(content@),
        r@.len() == 64,
{
    let d = sha256(content);
    let r = to_hex(d.as_slice());
    proof {
        lemma_hex_len(d@);
    }
    r
}

/// Hexadecimal rendering has two characters per byte.
pub proof fn lemma_hex_len(b: Seq<u8>)
    ensures
        hex_spec(b).len() == 2 * b.len(),
    decreases b.len(),
{
    if b.len() > 0 {
        lemma_hex_len(b.drop_last());
    }
}

proof fn lemma_hex_digit_injective(a: u8, b: u8)
    requires
        a < 16,
        b < 16,
        hex_digit(a) == hex_digit(b),
    ensures
        a == b,
{
}

/// Hexadecimal rendering is injective: equal renderings come from equal bytes.
pub proof fn lemma_hex_injective(a: Seq<u8>, b: Seq<u8>)
    requires
        hex_spec(a) == hex_spec(b),
    ensures
        a == b,
    decreases a.len(),
{
    lemma_hex_len(a);
    lemma_hex_len(b);
    if a.len() > 0 {
        let ha = hex_spec(a);
        let pa = hex_spec(a.drop_last());
        let pb = hex_spec(b.drop_last());
        lemma_hex_len(a.drop_last());
        lemma_hex_len(b.drop_last());
        let n = ha.len();
        assert(ha[n - 2] == hex_digit(a.last() / 16));
        assert(ha[n - 1] == hex_digit(a.last() % 16));
        assert(hex_spec(b)[n - 2] == hex_digit(b.last() / 16));
        assert(hex_spec(b)[n - 1] == hex_digit(b.last() % 16));
        lemma_hex_digit_injective(a.last() / 16, b.last() / 16);
        lemma_hex_digit_injective(a.last() % 16, b.last() % 16);
        assert(pa == ha.subrange(0, n - 2));
        assert(pb == hex_spec(b).subrange(0, n - 2));
        lemma_hex_injective(a.drop_last(), b.drop_last());
        assert(a == a.drop_last().push(a.last()));
        assert(b == b.drop_last().push(b.last()));
    }
}

/// The fingerprint is a function of the content alone: equal content gives
/// equal fingerprints, and two contents share a fingerprint exactly when they
/// share a SHA-256 digest.
pub proof fn lemma_fingerprint_deterministic(a: Seq<u8>, b: Seq<u8>)
    ensures
        a == b ==> fingerprint_spec(a) == fingerprint_spec(b),
        fingerprint_spec(a) == fingerprint_spec(b) <==> sha256_of(a) == sha256_of(b),
{
    if fingerprint_spec(a) == fingerprint_spec(b) {
        lemma_hex_injective(sha256_of(a), sha256_of(b));
    }
}

} // verus!
