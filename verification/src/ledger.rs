//! The ledger: the system's heartbeat record.
//!
//! Warrant signing, capability minting, redemption and revocation cascades
//! are appended here as a hash chain.  Append only; never rewritten.

use vstd::prelude::*;
use vstd::utf8::encode_utf8;
use crate::crypto::{blake3_digest, blake3_hash, hex_char, hex_digit, Signature};
use crate::lineage::Lineage;

verus! {

/// Decimal digits of `n`, most significant first, without leading zeros.
pub open spec fn decimal(n: nat) -> Seq<char>
    decreases n,
{
    if n < 10 {
        seq![hex_digit(n as u8)]
    } else {
        decimal(n / 10) + seq![hex_digit((n % 10) as u8)]
    }
}

/// Decimal digits of `n`, padded with leading zeros to at least `width`.
pub open spec fn zero_padded(n: nat, width: nat) -> Seq<char> {
    let digits = decimal(n);
    if digits.len() >= width {
        digits
    } else {
        Seq::new((width - digits.len()) as nat, |i: int| '0') + digits
    }
}

/// Entry sequence number, counting up from 1.
#[derive(Clone, Copy, Debug, PartialEq, Eq, PartialOrd, Ord, Structural)]
pub struct EntryId(pub u64);

/// Appends the decimal digits of `n`.
fn push_decimal(text: &mut String, n: u64)
    ensures
        final(text)@ == old(text)@ + decimal(n as nat),
    decreases n,
{
    if n >= 10 {
        push_decimal(text, n / 10);
    }
    text.append(hex_char((n % 10) as u8));
    assert(n < 10 ==> n % 10 == n);
}

impl EntryId {
    /// The display form: the number padded with zeros to ten digits.
    pub fn to_text(&self) -> (text: String)
        ensures
            text@ == zero_padded(self.0 as nat, 10),
    {
        let mut digits = String::new();
        push_decimal(&mut digits, self.0);
        let len = digits.as_str().unicode_len();
        let fill_len: usize = if len < 10 {
            10 - len
        } else {
            0
        };
        let mut text = String::new();
        let mut pad: usize = 0;
        while pad < fill_len
            invariant
                text@ == Seq::new(pad as nat, |i: int| '0'),
                pad <= fill_len,
            decreases fill_len - pad,
        {
            proof { reveal_strlit("0"); }
            text.append("0");
            pad = pad + 1;
            assert(text@ =~= Seq::new(pad as nat, |i: int| '0'));
        }
        assert(len >= 10 ==> text@ =~= Seq::<char>::empty());
        text.append(digits.as_str());
        text
    }
}

/// Ledger event: the atomic events of the warrant life cycle.
///
/// A redemption's deviation is carried as the bit pattern of an IEEE-754
/// double (`f64::to_bits`).
#[derive(Clone, Debug)]
pub enum LedgerEvent {
    /// A warrant was signed.
    WarrantSign { warrant_id: crate::crypto::Hash, intent: String, lineage: Lineage },
    /// A capability was minted.
    CapabilityMint {
        warrant_id: crate::crypto::Hash,
        capability_id: crate::crypto::Hash,
        lineage: Lineage,
        detail: String,
    },
    /// A capability's result was redeemed.
    CapabilityRedeem { capability_id: crate::crypto::Hash, lineage: Lineage, deviation: Option<u64> },
    /// A warrant was redeemed (task done).
    WarrantRedeem { warrant_id: crate::crypto::Hash, lineage: Lineage },
    /// A warrant expired (TTL ran out).
    WarrantExpire { warrant_id: crate::crypto::Hash, lineage: Lineage },
    /// A warrant was revoked by the user, cascading.
    WarrantRevoke {
        warrant_id: crate::crypto::Hash,
        lineage: Lineage,
        cascaded: Vec<crate::crypto::Hash>,
    },
    /// A standing warrant missed its heartbeat (degradation).
    StandingDegrade { warrant_id: crate::crypto::Hash, lineage: Lineage },
}

/// Little-endian bytes of `n`, `count` of them.
pub open spec fn le_bytes(n: nat, count: nat) -> Seq<u8>
    decreases count,
{
    if count == 0 {
        seq![]
    } else {
        seq![(n % 256) as u8] + le_bytes(n / 256, (count - 1) as nat)
    }
}

/// A length or number as eight little-endian bytes.
pub open spec fn u64_bytes(n: u64) -> Seq<u8> {
    le_bytes(n as nat, 8)
}

/// A text as its UTF-8 byte count followed by its UTF-8 bytes.
pub open spec fn text_bytes(s: Seq<char>) -> Seq<u8> {
    u64_bytes(encode_utf8(s).len() as u64) + encode_utf8(s)
}

/// The 32 bytes of each hash, in order.
pub open spec fn hash_list_bytes(hashes: Seq<crate::crypto::Hash>) -> Seq<u8>
    decreases hashes.len(),
{
    if hashes.len() == 0 {
        seq![]
    } else {
        hash_list_bytes(hashes.drop_last()) + hashes.last().0@
    }
}

/// An optional number: a zero byte, or a one byte and the number.
pub open spec fn option_bytes(o: Option<u64>) -> Seq<u8> {
    match o {
        None => seq![0u8],
        Some(n) => seq![1u8] + u64_bytes(n),
    }
}

impl LedgerEvent {
    /// The canonical byte encoding of an event: a tag byte for the kind,
    /// then the fields in order (hashes and lineages as their 32 bytes,
    /// texts and lists with a length prefix).
    pub open spec fn bytes(self) -> Seq<u8> {
        match self {
            LedgerEvent::WarrantSign { warrant_id, intent, lineage } => seq![0u8] + warrant_id.0@
                + text_bytes(intent@) + lineage.0.0@,
            LedgerEvent::CapabilityMint { warrant_id, capability_id, lineage, detail } => seq![1u8]
                + warrant_id.0@ + capability_id.0@ + lineage.0.0@ + text_bytes(detail@),
            LedgerEvent::CapabilityRedeem { capability_id, lineage, deviation } => seq![2u8]
                + capability_id.0@ + lineage.0.0@ + option_bytes(deviation),
            LedgerEvent::WarrantRedeem { warrant_id, lineage } => seq![3u8] + warrant_id.0@
                + lineage.0.0@,
            LedgerEvent::WarrantExpire { warrant_id, lineage } => seq![4u8] + warrant_id.0@
                + lineage.0.0@,
            LedgerEvent::WarrantRevoke { warrant_id, lineage, cascaded } => seq![5u8]
                + warrant_id.0@ + lineage.0.0@ + u64_bytes(cascaded@.len() as u64)
                + hash_list_bytes(cascaded@),
            LedgerEvent::StandingDegrade { warrant_id, lineage } => seq![6u8] + warrant_id.0@
                + lineage.0.0@,
        }
    }

    /// The canonical byte encoding of the event.
    pub fn encode(&self) -> (out: Vec<u8>)
        ensures
            out@ == self.bytes(),
    {
        let mut out: Vec<u8> = Vec::new();
        match self {
            LedgerEvent::WarrantSign { warrant_id, intent, lineage } => {
                out.push(0u8);
                push_bytes(&mut out, &warrant_id.0);
                push_text(&mut out, intent);
                push_bytes(&mut out, &lineage.0.0);
            },
            LedgerEvent::CapabilityMint { warrant_id, capability_id, lineage, detail } => {
                out.push(1u8);
                push_bytes(&mut out, &warrant_id.0);
                push_bytes(&mut out, &capability_id.0);
                push_bytes(&mut out, &lineage.0.0);
                push_text(&mut out, detail);
            },
            LedgerEvent::CapabilityRedeem { capability_id, lineage, deviation } => {
                out.push(2u8);
                push_bytes(&mut out, &capability_id.0);
                push_bytes(&mut out, &lineage.0.0);
                match deviation {
                    None => out.push(0u8),
                    Some(bits) => {
                        out.push(1u8);
                        push_le(&mut out, *bits, 8);
                    },
                }
            },
            LedgerEvent::WarrantRedeem { warrant_id, lineage } => {
                out.push(3u8);
                push_bytes(&mut out, &warrant_id.0);
                push_bytes(&mut out, &lineage.0.0);
            },
            LedgerEvent::WarrantExpire { warrant_id, lineage } => {
                out.push(4u8);
                push_bytes(&mut out, &warrant_id.0);
                push_bytes(&mut out, &lineage.0.0);
            },
            LedgerEvent::WarrantRevoke { warrant_id, lineage, cascaded } => {
                out.push(5u8);
                push_bytes(&mut out, &warrant_id.0);
                push_bytes(&mut out, &lineage.0.0);
                push_le(&mut out, cascaded.len() as u64, 8);
                push_hash_list(&mut out, cascaded);
            },
            LedgerEvent::StandingDegrade { warrant_id, lineage } => {
                out.push(6u8);
                push_bytes(&mut out, &warrant_id.0);
                push_bytes(&mut out, &lineage.0.0);
            },
        }
        assert(out@ =~= self.bytes());
        out
    }
}

/// Appends `bytes`.
fn push_bytes(out: &mut Vec<u8>, bytes: &[u8])
    ensures
        final(out)@ == old(out)@ + bytes@,
{
    let mut i: usize = 0;
    while i < bytes.len()
        invariant
            i <= bytes@.len(),
            out@ == old(out)@ + bytes@.take(i as int),
        decreases bytes@.len() - i,
    {
        out.push(bytes[i]);
        assert(bytes@.take(i + 1) =~= bytes@.take(i as int).push(bytes@[i as int]));
        i = i + 1;
    }
    assert(bytes@.take(bytes@.len() as int) =~= bytes@);
}

/// Appends `count` little-endian bytes of `n`.
fn push_le(out: &mut Vec<u8>, n: u64, count: u8)
    ensures
        final(out)@ == old(out)@ + le_bytes(n as nat, count as nat),
    decreases count,
{
    if count > 0 {
        out.push((n % 256) as u8);
        push_le(out, n / 256, count - 1);
        assert(final(out)@ =~= old(out)@ + le_bytes(n as nat, count as nat));
    } else {
        assert(final(out)@ =~= old(out)@ + le_bytes(n as nat, count as nat));
    }
}

/// Appends a text with its length prefix.
fn push_text(out: &mut Vec<u8>, s: &String)
    ensures
        final(out)@ == old(out)@ + text_bytes(s@),
{
    let bytes = s.as_str().as_bytes();
    push_le(out, bytes.len() as u64, 8);
    push_bytes(out, bytes);
    assert(final(out)@ =~= old(out)@ + text_bytes(s@));
}

/// Appends the bytes of each hash.
fn push_hash_list(out: &mut Vec<u8>, hashes: &Vec<crate::crypto::Hash>)
    ensures
        final(out)@ == old(out)@ + hash_list_bytes(hashes@),
{
    let mut i: usize = 0;
    while i < hashes.len()
        invariant
            i <= hashes@.len(),
            out@ == old(out)@ + hash_list_bytes(hashes@.take(i as int)),
        decreases hashes@.len() - i,
    {
        push_bytes(out, &hashes[i].0);
        assert(hashes@.take(i + 1).drop_last() =~= hashes@.take(i as int));
        assert(out@ =~= old(out)@ + hash_list_bytes(hashes@.take(i + 1)));
        i = i + 1;
    }
    assert(hashes@.take(hashes@.len() as int) =~= hashes@);
}

/// The hash of an entry: `H(prev || event || sig)`.
pub open spec fn entry_digest(prev: crate::crypto::Hash, event: LedgerEvent, sig: Signature) -> Seq<u8> {
    blake3_digest(prev.0@ + event.bytes() + sig.0@)
}

/// A ledger entry: prev pointer, event and signature.
#[derive(Clone, Debug)]
pub struct LedgerEntry {
    /// Sequence number.
    pub id: EntryId,
    /// Hash of the previous entry (all zero before the first).
    pub prev: crate::crypto::Hash,
    /// The event.
    pub event: LedgerEvent,
    /// This entry's hash = H(prev || event || sig).
    pub hash: crate::crypto::Hash,
    /// System signature.
    pub sig: Signature,
}

impl LedgerEntry {
    /// Chain integrity of one link: the prev pointer names `prev_hash`.
    pub fn verify_chain(&self, prev_hash: crate::crypto::Hash) -> (ok: bool)
        ensures
            ok == (self.prev == prev_hash),
    {
        self.prev == prev_hash
    }
}

/// The genesis block: the ledger's first record.
#[derive(Clone, Debug)]
pub struct Genesis {
    /// Always `EntryId(0)`.
    pub id: EntryId,
    /// Always the all-zero hash.
    pub prev: crate::crypto::Hash,
    /// Genesis description.
    pub body: String,
    /// Signature of the constitution-seal event.
    pub sig: Signature,
}

impl Genesis {
    /// The fixed genesis record.
    pub open spec fn is_fixed(self) -> bool {
        &&& self.id == EntryId(0)
        &&& self.prev.is_zero()
        &&& self.body@ == "宪法内核封印 · 令状纪元开始"@
        &&& forall|i: int| 0 <= i < 64 ==> self.sig.0@[i] == 0
    }

    /// The genesis record: id 0, all-zero prev, the sealing text and an
    /// all-zero signature.
    pub fn new() -> (g: Genesis)
        ensures
            g.is_fixed(),
    {
        Genesis {
            id: EntryId(0),
            prev: crate::crypto::Hash::zero(),
            body: "宪法内核封印 · 令状纪元开始".to_owned(),
            sig: Signature([0u8; 64]),
        }
    }
}

impl Default for Genesis {
    fn default() -> (g: Genesis)
        ensures
            g.is_fixed(),
    {
        Self::new()
    }
}

/// The ledger: an append-only chain.
///
/// Entries are never modified or deleted, each prev points at the hash of
/// the one before, and the ledger itself never shrinks.
#[derive(Clone, Debug)]
pub struct Ledger {
    pub genesis: Genesis,
    pub entries: Vec<LedgerEntry>,
}

impl Ledger {
    /// The hash that the next entry's prev must name: the last entry's hash,
    /// or the genesis prev while the ledger is empty.
    pub open spec fn tip(self) -> crate::crypto::Hash {
        if self.entries@.len() == 0 {
            self.genesis.prev
        } else {
            self.entries@.last().hash
        }
    }

    /// The hash that entry `i`'s prev must name: the genesis prev for the
    /// first entry, the hash of the entry before it otherwise.
    pub open spec fn expected_prev(self, i: int) -> crate::crypto::Hash {
        if i == 0 {
            self.genesis.prev
        } else {
            self.entries@[i - 1].hash
        }
    }

    /// Entry `i` points at the hash before it.
    pub open spec fn link_ok(self, i: int) -> bool {
        self.entries@[i].prev == self.expected_prev(i)
    }

    /// Every entry's prev names the hash before it (the genesis prev for the
    /// first entry).
    pub open spec fn chain_intact(self) -> bool {
        forall|i: int| 0 <= i < self.entries@.len() ==> #[trigger] self.link_ok(i)
    }

    /// `self` is `old` with one entry for `event` and `sig` appended.
    pub open spec fn appended(self, old: Ledger, event: LedgerEvent, sig: Signature) -> bool {
        &&& self.genesis == old.genesis
        &&& self.entries@.len() == old.entries@.len() + 1
        &&& self.entries@.drop_last() == old.entries@
        &&& self.entries@.last().id == EntryId((old.entries@.len() + 1) as u64)
        &&& self.entries@.last().prev == old.tip()
        &&& self.entries@.last().event == event
        &&& self.entries@.last().sig == sig
        &&& self.entries@.last().hash.0@ == entry_digest(old.tip(), event, sig)
    }

    /// An empty ledger after the genesis block.
    pub fn new() -> (l: Ledger)
        ensures
            l.genesis.is_fixed(),
            l.entries@.len() == 0,
            l.chain_intact(),
    {
        Ledger { genesis: Genesis::new(), entries: Vec::new() }
    }

    /// Appends an entry; append only, never written back.
    pub fn append(&mut self, event: LedgerEvent, sig: Signature) -> (entry: &LedgerEntry)
        requires
            old(self).entries@.len() < u64::MAX,
        ensures
            final(self).appended(*old(self), event, sig),
            *entry == final(self).entries@.last(),
    {
        let len = self.entries.len();
        let prev = if len == 0 {
            self.genesis.prev
        } else {
            self.entries[len - 1].hash
        };
        let id = EntryId(len as u64 + 1);
        let mut input: Vec<u8> = Vec::new();
        push_bytes(&mut input, &prev.0);
        let encoded = event.encode();
        push_bytes(&mut input, encoded.as_slice());
        push_bytes(&mut input, &sig.0);
        let hash = blake3_hash(input.as_slice());
        let entry = LedgerEntry { id, prev, event, hash, sig };
        self.entries.push(entry);
        assert(self.entries@.drop_last() =~= old(self).entries@);
        &self.entries[len]
    }

    /// Replays the chain link by link, as an audit does.
    pub fn verify(&self) -> (ok: bool)
        ensures
            ok == self.chain_intact(),
            ok <==> {
                &&& self.entries@.len() > 0 ==> self.entries@[0].prev == self.genesis.prev
                &&& forall|i: int|
                    0 < i < self.entries@.len() ==> #[trigger] self.entries@[i].prev
                        == self.entries@[i - 1].hash
            },
    {
        proof {
            lemma_intact_by_links(*self);
        }
        let mut prev = self.genesis.prev;
        let mut i: usize = 0;
        while i < self.entries.len()
            invariant
                i <= self.entries@.len(),
                prev == self.expected_prev(i as int),
                forall|k: int| 0 <= k < i ==> #[trigger] self.link_ok(k),
            decreases self.entries@.len() - i,
        {
            if !self.entries[i].verify_chain(prev) {
                assert(!self.link_ok(i as int));
                return false;
            }
            prev = self.entries[i].hash;
            i = i + 1;
        }
        true
    }
}

impl Default for Ledger {
    fn default() -> (l: Ledger)
        ensures
            l.genesis.is_fixed(),
            l.entries@.len() == 0,
            l.chain_intact(),
    {
        Self::new()
    }
}

/// Appending keeps the chain exactly as intact as it was: an intact ledger
/// stays intact after an append, and an append cannot mend a broken one.
pub proof fn lemma_append_keeps_chain(new: Ledger, old: Ledger, event: LedgerEvent, sig: Signature)
    requires
        new.appended(old, event, sig),
    ensures
        new.chain_intact() <==> old.chain_intact(),
{
    let n = old.entries@.len() as int;
    assert forall|i: int| 0 <= i < n implies new.entries@[i] == old.entries@[i] by {
        assert(new.entries@.drop_last()[i] == new.entries@[i]);
    }
    assert forall|i: int| 0 <= i < n implies new.link_ok(i) == old.link_ok(i) by {
        assert(new.entries@[i] == old.entries@[i]);
        if i > 0 {
            assert(new.entries@[i - 1] == old.entries@[i - 1]);
        }
    }
    assert(new.link_ok(n)) by {
        if n > 0 {
            assert(new.entries@[n - 1] == old.entries@[n - 1]);
        }
    }
    if old.chain_intact() {
        assert forall|i: int| 0 <= i < new.entries@.len() implies #[trigger] new.link_ok(i) by {
            if i < n {
                assert(old.link_ok(i));
            }
        }
    }
    if new.chain_intact() {
        assert forall|i: int| 0 <= i < n implies #[trigger] old.link_ok(i) by {
            assert(new.link_ok(i));
        }
    }
}

/// What an intact chain is, entry by entry: the first entry's prev is the
/// genesis prev, and every later entry's prev is the hash of the entry just
/// before it.
pub proof fn lemma_intact_by_links(l: Ledger)
    ensures
        l.chain_intact() <==> {
            &&& l.entries@.len() > 0 ==> l.entries@[0].prev == l.genesis.prev
            &&& forall|i: int|
                0 < i < l.entries@.len() ==> #[trigger] l.entries@[i].prev == l.entries@[i - 1].hash
        },
{
    if l.chain_intact() {
        if l.entries@.len() > 0 {
            assert(l.link_ok(0));
        }
        assert forall|i: int| 0 < i < l.entries@.len() implies #[trigger] l.entries@[i].prev
            == l.entries@[i - 1].hash by {
            assert(l.link_ok(i));
        }
    }
    if (l.entries@.len() > 0 ==> l.entries@[0].prev == l.genesis.prev) && forall|i: int|
        0 < i < l.entries@.len() ==> #[trigger] l.entries@[i].prev == l.entries@[i - 1].hash {
        assert forall|i: int| 0 <= i < l.entries@.len() implies #[trigger] l.link_ok(i) by {
            if i > 0 {
                assert(l.entries@[i].prev == l.entries@[i - 1].hash);
            }
        }
    }
}

} // verus!
