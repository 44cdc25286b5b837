//! Cryptographic primitives: the mathematical ground of the whole trust root.
//!
//! Every hash is BLAKE3 (256 bit) and every signature is Ed25519.  Nothing
//! rests on passwords; only hardware-key signatures count.

use vstd::prelude::*;
use ed25519_dalek::Verifier;

verus! {

/// The lower-case hexadecimal digit of a value below sixteen.
pub open spec fn hex_digit(n: u8) -> char {
    if n < 10 {
        (n + 48) as char
    } else {
        (n + 87) as char
    }
}

/// Lower-case hexadecimal text of a byte sequence, two digits per byte.
pub open spec fn hex_lower(bytes: Seq<u8>) -> Seq<char>
    decreases bytes.len(),
{
    if bytes.len() == 0 {
        seq![]
    } else {
        hex_lower(bytes.drop_last()) + seq![hex_digit(bytes.last() / 16), hex_digit(bytes.last() % 16)]
    }
}

/// What BLAKE3 (256-bit output) yields for a byte stream.
pub uninterp spec fn blake3_digest(data: Seq<u8>) -> Seq<u8>;

/// Whether Ed25519 accepts `signature` on `message` under `public_key`.
pub uninterp spec fn ed25519_accepts(public_key: Seq<u8>, message: Seq<u8>, signature: Seq<u8>) -> bool;

/// BLAKE3 of `data`, computed by `blake3::hash`.
///
/// Trusted: the contract claims only that the 32 output bytes are the BLAKE3
/// digest of the input bytes, named by `blake3_digest`; nothing about the
/// digest's value is stated.
#[verifier::external_body]
pub(crate) fn blake3_hash(data: &[u8]) -> (h: Hash)
    ensures
        h.0@ == blake3_digest(data@),
{
    Hash(*blake3::hash(data).as_bytes())
}

/// Ed25519 verification through `ed25519_dalek::VerifyingKey::from_bytes`
/// and `Verifier::verify`.
///
/// Trusted: the contract claims only that the answer is Ed25519's verdict on
/// the three byte strings, named by `ed25519_accepts`; a public key that does
/// not decompress to a curve point is part of that verdict (rejected).
#[verifier::external_body]
fn ed25519_verify(public_key: &[u8; 32], message: &[u8], signature: &[u8; 64]) -> (ok: bool)
    ensures
        ok == ed25519_accepts(public_key@, message@, signature@),
{
    match ed25519_dalek::VerifyingKey::from_bytes(public_key) {
        Ok(key) => key.verify(message, &ed25519_dalek::Signature::from_bytes(signature)).is_ok(),
        Err(_) => false,
    }
}

/// The one-character text of a hexadecimal digit.
pub(crate) fn hex_char(n: u8) -> (r: &'static str)
    requires
        n < 16,
    ensures
        r@ == seq![hex_digit(n)],
{
    if n == 0 {
        proof { reveal_strlit("0"); }
        "0"
    } else if n == 1 {
        proof { reveal_strlit("1"); }
        "1"
    } else if n == 2 {
        proof { reveal_strlit("2"); }
        "2"
    } else if n == 3 {
        proof { reveal_strlit("3"); }
        "3"
    } else if n == 4 {
        proof { reveal_strlit("4"); }
        "4"
    } else if n == 5 {
        proof { reveal_strlit("5"); }
        "5"
    } else if n == 6 {
        proof { reveal_strlit("6"); }
        "6"
    } else if n == 7 {
        proof { reveal_strlit("7"); }
        "7"
    } else if n == 8 {
        proof { reveal_strlit("8"); }
        "8"
    } else if n == 9 {
        proof { reveal_strlit("9"); }
        "9"
    } else if n == 10 {
        proof { reveal_strlit("a"); }
        "a"
    } else if n == 11 {
        proof { reveal_strlit("b"); }
        "b"
    } else if n == 12 {
        proof { reveal_strlit("c"); }
        "c"
    } else if n == 13 {
        proof { reveal_strlit("d"); }
        "d"
    } else if n == 14 {
        proof { reveal_strlit("e"); }
        "e"
    } else {
        proof { reveal_strlit("f"); }
        "f"
    }
}

/// Lower-case hexadecimal text of the first `n` bytes of `bytes`.
pub fn hex_prefix(bytes: &[u8], n: usize) -> (text: String)
    requires
        n <= bytes@.len(),
    ensures
        text@ == hex_lower(bytes@.take(n as int)),
{
    let mut text = String::new();
    let mut i: usize = 0;
    while i < n
        invariant
            i <= n <= bytes@.len(),
            text@ == hex_lower(bytes@.take(i as int)),
        decreases n - i,
    {
        let b = bytes[i];
        text.append(hex_char(b / 16));
        text.append(hex_char(b % 16));
        assert(bytes@.take(i + 1).drop_last() =~= bytes@.take(i as int));
        i = i + 1;
    }
    text
}

/// Lower-case hexadecimal text of every byte of `bytes`.
pub fn hex_encode_prefix(bytes: &[u8]) -> (text: String)
    ensures
        text@ == hex_lower(bytes@),
{
    let text = hex_prefix(bytes, bytes.len());
    assert(bytes@.take(bytes@.len() as int) =~= bytes@);
    text
}

/// 256-bit content hash: the BLAKE3 digest of a byte stream.
///
/// Same byte stream, same hash.
#[derive(Clone, Copy, Debug, Hash)]
pub struct Hash(pub [u8; 32]);

impl Hash {
    /// The all-zero hash, used only as the genesis block's `prev` pointer.
    pub fn zero() -> (h: Hash)
        ensures
            h.is_zero(),
    {
        Hash([0u8; 32])
    }

    /// Every byte is zero.
    pub open spec fn is_zero(self) -> bool {
        forall|i: int| 0 <= i < 32 ==> self.0@[i] == 0
    }

    /// The text that `short` yields: the hexadecimal of the first three bytes.
    pub open spec fn short_text(self) -> Seq<char> {
        hex_lower(self.0@.take(3))
    }

    /// Short hexadecimal prefix (the first six characters), used in
    /// human-readable addresses and lineage names.
    pub fn short(&self) -> (text: String)
        ensures
            text@ == self.short_text(),
    {
        hex_prefix(&self.0, 3)
    }

    /// The display form: the short prefix.
    pub fn to_text(&self) -> (text: String)
        ensures
            text@ == self.short_text(),
    {
        self.short()
    }

    /// The debug form: `Hash(<short>)`.
    pub fn debug_text(&self) -> (text: String)
        ensures
            text@ == "Hash("@ + self.short_text() + ")"@,
    {
        let mut text = "Hash(".to_owned();
        let short = self.short();
        text.append(short.as_str());
        text.append(")");
        text
    }
}

impl PartialEq for Hash {
    fn eq(&self, other: &Self) -> (r: bool) {
        let mut i: usize = 0;
        while i < 32
            invariant
                0 <= i <= 32,
                forall|k: int| 0 <= k < i ==> self.0@[k] == other.0@[k],
            decreases 32 - i,
        {
            if self.0[i] != other.0[i] {
                return false;
            }
            i = i + 1;
        }
        assert(self.0 =~= other.0);
        true
    }
}

impl Eq for Hash {}

impl vstd::std_specs::cmp::PartialEqSpecImpl for Hash {
    open spec fn obeys_eq_spec() -> bool {
        true
    }

    open spec fn eq_spec(&self, other: &Hash) -> bool {
        *self == *other
    }
}

/// An Ed25519 public key: the identity of a user or system signing anchor.
#[derive(Clone, Copy, Debug, PartialEq, Eq)]
pub struct PublicKey(pub [u8; 32]);

impl PublicKey {
    /// The debug form: `PublicKey(<hex of the first four bytes>…)`.
    pub fn debug_text(&self) -> (text: String)
        ensures
            text@ == "PublicKey("@ + hex_lower(self.0@.take(4)) + "…)"@,
    {
        let mut text = "PublicKey(".to_owned();
        let hex = hex_prefix(&self.0, 4);
        text.append(hex.as_str());
        text.append("…)");
        text
    }
}

/// An Ed25519 signature (64 bytes), produced only by hardware keys.
#[derive(Clone, Copy, Debug, PartialEq, Eq)]
pub struct Signature(pub [u8; 64]);

impl Signature {
    /// The debug form: `Signature(<hex of the first four bytes>…)`.
    pub fn debug_text(&self) -> (text: String)
        ensures
            text@ == "Signature("@ + hex_lower(self.0@.take(4)) + "…)"@,
    {
        let mut text = "Signature(".to_owned();
        let hex = hex_prefix(&self.0, 4);
        text.append(hex.as_str());
        text.append("…)");
        text
    }
}

/// Merkle root over the content hashes of a rule set; the object that the
/// constitution seal signs.
#[derive(Clone, Copy, Debug, PartialEq, Eq)]
pub struct MerkleRoot(pub Hash);

/// Dual signature: a user signature and a system signature, effective only
/// when both are present.
#[derive(Clone, Copy, Debug, PartialEq, Eq)]
pub struct DualSignature {
    pub user_sig: Signature,
    pub system_sig: Signature,
}

impl DualSignature {
    /// Both signatures are valid Ed25519 signatures of `msg`, the user's
    /// under `user_pk` and the system's under `system_pk`.
    pub open spec fn valid_for(self, msg: Seq<u8>, user_pk: PublicKey, system_pk: PublicKey) -> bool {
        &&& ed25519_accepts(user_pk.0@, msg, self.user_sig.0@)
        &&& ed25519_accepts(system_pk.0@, msg, self.system_sig.0@)
    }

    /// Checks both signatures over `msg`.
    pub fn verify(&self, msg: &[u8], user_pk: &PublicKey, system_pk: &PublicKey) -> (ok: bool)
        ensures
            ok == self.valid_for(msg@, *user_pk, *system_pk),
    {
        ed25519_verify(&user_pk.0, msg, &self.user_sig.0) && ed25519_verify(
            &system_pk.0,
            msg,
            &self.system_sig.0,
        )
    }
}

/// Semantic-invariance proof that a memory-safety fix must carry.
#[derive(Clone, Debug)]
pub struct SemanticInvariantProof {
    /// Prover identifier.
    pub prover: String,
    /// Machine-checkable proof body.
    pub body: String,
}

/// A dual signature is valid exactly when Ed25519 accepts each of its two
/// signatures over the message, the user's under the user's key and the
/// system's under the system's key.
pub proof fn lemma_dual_needs_both(d: DualSignature, msg: Seq<u8>, user_pk: PublicKey, system_pk: PublicKey)
    ensures
        d.valid_for(msg, user_pk, system_pk) <==> ed25519_accepts(user_pk.0@, msg, d.user_sig.0@)
            && ed25519_accepts(system_pk.0@, msg, d.system_sig.0@),
{
}

} // verus!
