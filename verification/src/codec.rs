//! Wire codec for envelopes.
//!
//! Envelopes cross process and network boundaries, so every entity of this
//! layer has a structure-preserving, variant-tag-preserving byte form:
//! integers little endian, byte strings and lists length-prefixed, enum
//! variants tagged with one byte. Each decoder is proved to invert the
//! encoder: wherever a buffer carries an encoding, decoding yields the
//! encoded value back — for the types that own heap storage, a value equal
//! under the layer's defined equality (field for field, element for
//! element) — and consumes exactly the encoding's bytes.

use vstd::prelude::*;
use vstd::bytes::{
    lemma_auto_spec_u64_to_from_le_bytes, spec_u64_from_le_bytes, spec_u64_to_le_bytes,
    u64_from_le_bytes, u64_to_le_bytes,
};
use vstd::slice::{slice_subrange, slice_to_vec};
use crate::ids::{MessageId, XorName};
use crate::sender::{Address, AdultDuty, Duty, ElderDuty, MsgSender, PublicKey, Signature};

verus! {

/// The byte form of `enc` stands in `buf` at offset `pos`.
pub open spec fn starts_at(buf: Seq<u8>, pos: int, enc: Seq<u8>) -> bool {
    &&& 0 <= pos
    &&& pos + enc.len() <= buf.len()
    &&& buf.subrange(pos, pos + enc.len() as int) == enc
}

/// An encoding of two concatenated pieces carries each piece in turn.
pub proof fn lemma_starts_at_split(buf: Seq<u8>, pos: int, a: Seq<u8>, b: Seq<u8>)
    requires
        starts_at(buf, pos, a + b),
    ensures
        starts_at(buf, pos, a),
        starts_at(buf, pos + a.len(), b),
{
    let ab = a + b;
    assert forall|i: int| 0 <= i < a.len() implies buf.subrange(pos, pos + a.len() as int)[i]
        == a[i] by {
        assert(buf.subrange(pos, pos + ab.len() as int)[i] == ab[i]);
    }
    assert(buf.subrange(pos, pos + a.len() as int) =~= a);
    assert forall|i: int| 0 <= i < b.len() implies buf.subrange(
        pos + a.len(),
        pos + a.len() + b.len() as int,
    )[i] == b[i] by {
        assert(buf.subrange(pos, pos + ab.len() as int)[a.len() + i] == ab[a.len() + i]);
    }
    assert(buf.subrange(pos + a.len(), pos + a.len() + b.len() as int) =~= b);
}

/// The byte form of one byte.
pub open spec fn spec_enc_u8(v: u8) -> Seq<u8> {
    seq![v]
}

fn enc_u8(out: &mut Vec<u8>, v: u8)
    ensures
        final(out)@ == old(out)@ + spec_enc_u8(v),
{
    out.push(v);
    proof {
        assert(out@ =~= old(out)@ + spec_enc_u8(v));
    }
}


fn dec_u8(buf: &[u8], pos: &mut usize, Ghost(w): Ghost<u8>) -> (r: u8)
    requires
        starts_at(buf@, *old(pos) as int, spec_enc_u8(w)),
    ensures
        *final(pos) == *old(pos) + 1,
        forall|v: u8|
            starts_at(buf@, *old(pos) as int, #[trigger] spec_enc_u8(v)) ==> r == v,
{
    let ghost p = *pos as int;
    let b = buf[*pos];
    *pos = *pos + 1;
    proof {
        assert forall|v: u8| starts_at(buf@, p, spec_enc_u8(v)) implies b == v by {
            assert(buf@.subrange(p, p + 1)[0] == v);
        }
    }
    b
}

/// The byte form of a 64-bit integer: eight bytes, little endian.
pub open spec fn spec_enc_u64(v: u64) -> Seq<u8> {
    spec_u64_to_le_bytes(v)
}

fn enc_u64(out: &mut Vec<u8>, v: u64)
    ensures
        final(out)@ == old(out)@ + spec_enc_u64(v),
{
    let mut bytes = u64_to_le_bytes(v);
    out.append(&mut bytes);
}

fn dec_u64(buf: &[u8], pos: &mut usize, Ghost(w): Ghost<u64>) -> (r: u64)
    requires
        starts_at(buf@, *old(pos) as int, spec_enc_u64(w)),
    ensures
        *final(pos) == *old(pos) + 8,
        forall|v: u64|
            starts_at(buf@, *old(pos) as int, #[trigger] spec_enc_u64(v)) ==> r == v,
{
    proof {
        lemma_auto_spec_u64_to_from_le_bytes();
    }
    let ghost p = *pos as int;
    // Reading the length pins `buf@.len()` within usize bounds for the
    // offset arithmetic below.
    let _total: usize = buf.len();
    let s = slice_subrange(buf, *pos, *pos + 8);
    let r = u64_from_le_bytes(s);
    *pos = *pos + 8;
    proof {
        assert forall|v: u64| starts_at(buf@, p, spec_enc_u64(v)) implies r == v by {
            assert(buf@.subrange(p, p + 8) == spec_u64_to_le_bytes(v));
        }
    }
    r
}

/// The byte form of a byte string: its length, then its bytes.
pub open spec fn spec_enc_bytes(b: Seq<u8>) -> Seq<u8> {
    spec_enc_u64(b.len() as u64) + b
}

fn enc_bytes(out: &mut Vec<u8>, b: &Vec<u8>)
    ensures
        final(out)@ == old(out)@ + spec_enc_bytes(b@),
{
    enc_u64(out, b.len() as u64);
    let ghost mid = out@;
    let mut i: usize = 0;
    while i < b.len()
        invariant
            i <= b@.len(),
            out@ == mid + b@.take(i as int),
        decreases b@.len() - i,
    {
        out.push(b[i]);
        proof {
            assert(b@.take(i + 1) =~= b@.take(i as int).push(b@[i as int]));
            assert(mid + b@.take(i + 1) =~= (mid + b@.take(i as int)).push(b@[i as int]));
        }
        i = i + 1;
    }
    proof {
        assert(b@.take(b@.len() as int) =~= b@);
        assert(out@ =~= old(out)@ + spec_enc_bytes(b@));
    }
}

fn dec_bytes(buf: &[u8], pos: &mut usize, Ghost(w): Ghost<Seq<u8>>) -> (r: Vec<u8>)
    requires
        starts_at(buf@, *old(pos) as int, spec_enc_bytes(w)),
        w.len() <= u64::MAX,
    ensures
        *final(pos) == *old(pos) + spec_enc_bytes(w).len(),
        r@ == w,
{
    let ghost p = *pos as int;
    // Reading the length pins `buf@.len()` within usize bounds, so the
    // decoded length prefix fits a usize.
    let _total: usize = buf.len();
    proof {
        lemma_auto_spec_u64_to_from_le_bytes();
        lemma_starts_at_split(buf@, p, spec_enc_u64(w.len() as u64), w);
    }
    let n = dec_u64(buf, pos, Ghost(w.len() as u64));
    let len = n as usize;
    let s = slice_subrange(buf, *pos, *pos + len);
    let r = slice_to_vec(s);
    *pos = *pos + len;
    r
}

/// Two encodings of the same length standing at the same offset are the same
/// bytes.
proof fn lemma_starts_at_same(buf: Seq<u8>, pos: int, a: Seq<u8>, b: Seq<u8>)
    requires
        starts_at(buf, pos, a),
        starts_at(buf, pos, b),
        a.len() == b.len(),
    ensures
        a == b,
{
}

/// The byte form of a network name: its four words in order.
pub open spec fn spec_enc_xor_name(n: XorName) -> Seq<u8> {
    spec_enc_u64(n.w0) + spec_enc_u64(n.w1) + spec_enc_u64(n.w2) + spec_enc_u64(n.w3)
}

fn enc_xor_name(out: &mut Vec<u8>, n: &XorName)
    ensures
        final(out)@ == old(out)@ + spec_enc_xor_name(*n),
{
    enc_u64(out, n.w0);
    enc_u64(out, n.w1);
    enc_u64(out, n.w2);
    enc_u64(out, n.w3);
    proof {
        assert(out@ =~= old(out)@ + spec_enc_xor_name(*n));
    }
}

/// Splits an encoded name into its four word encodings.
proof fn lemma_xor_name_words(buf: Seq<u8>, pos: int, n: XorName)
    requires
        starts_at(buf, pos, spec_enc_xor_name(n)),
    ensures
        starts_at(buf, pos, spec_enc_u64(n.w0)),
        starts_at(buf, pos + 8, spec_enc_u64(n.w1)),
        starts_at(buf, pos + 16, spec_enc_u64(n.w2)),
        starts_at(buf, pos + 24, spec_enc_u64(n.w3)),
{
    lemma_auto_spec_u64_to_from_le_bytes();
    assert(spec_enc_xor_name(n) =~= spec_enc_u64(n.w0) + (spec_enc_u64(n.w1) + (spec_enc_u64(
        n.w2,
    ) + spec_enc_u64(n.w3))));
    lemma_starts_at_split(
        buf,
        pos,
        spec_enc_u64(n.w0),
        spec_enc_u64(n.w1) + (spec_enc_u64(n.w2) + spec_enc_u64(n.w3)),
    );
    lemma_starts_at_split(
        buf,
        pos + 8,
        spec_enc_u64(n.w1),
        spec_enc_u64(n.w2) + spec_enc_u64(n.w3),
    );
    lemma_starts_at_split(buf, pos + 16, spec_enc_u64(n.w2), spec_enc_u64(n.w3));
}

/// One offset carries the byte form of at most one name.
proof fn lemma_xor_name_enc_unambiguous(buf: Seq<u8>, pos: int, a: XorName, b: XorName)
    requires
        starts_at(buf, pos, spec_enc_xor_name(a)),
        starts_at(buf, pos, spec_enc_xor_name(b)),
    ensures
        a == b,
{
    lemma_auto_spec_u64_to_from_le_bytes();
    lemma_xor_name_words(buf, pos, a);
    lemma_xor_name_words(buf, pos, b);
    lemma_starts_at_same(buf, pos, spec_enc_u64(a.w0), spec_enc_u64(b.w0));
    lemma_starts_at_same(buf, pos + 8, spec_enc_u64(a.w1), spec_enc_u64(b.w1));
    lemma_starts_at_same(buf, pos + 16, spec_enc_u64(a.w2), spec_enc_u64(b.w2));
    lemma_starts_at_same(buf, pos + 24, spec_enc_u64(a.w3), spec_enc_u64(b.w3));
}

fn dec_xor_name(buf: &[u8], pos: &mut usize, Ghost(w): Ghost<XorName>) -> (r: XorName)
    requires
        starts_at(buf@, *old(pos) as int, spec_enc_xor_name(w)),
    ensures
        *final(pos) == *old(pos) + spec_enc_xor_name(w).len(),
        r == w,
{
    let ghost p = *pos as int;
    proof {
        lemma_auto_spec_u64_to_from_le_bytes();
        lemma_xor_name_words(buf@, p, w);
    }
    let w0 = dec_u64(buf, pos, Ghost(w.w0));
    let w1 = dec_u64(buf, pos, Ghost(w.w1));
    let w2 = dec_u64(buf, pos, Ghost(w.w2));
    let w3 = dec_u64(buf, pos, Ghost(w.w3));
    XorName { w0, w1, w2, w3 }
}

/// The byte form of a message identifier: the identifier's name.
pub open spec fn spec_enc_message_id(m: MessageId) -> Seq<u8> {
    spec_enc_xor_name(m.0)
}

fn enc_message_id(out: &mut Vec<u8>, m: &MessageId)
    ensures
        final(out)@ == old(out)@ + spec_enc_message_id(*m),
{
    enc_xor_name(out, &m.0);
}

fn dec_message_id(buf: &[u8], pos: &mut usize, Ghost(w): Ghost<MessageId>) -> (r: MessageId)
    requires
        starts_at(buf@, *old(pos) as int, spec_enc_message_id(w)),
    ensures
        *final(pos) == *old(pos) + spec_enc_message_id(w).len(),
        r == w,
{
    MessageId(dec_xor_name(buf, pos, Ghost(w.0)))
}

/// The byte form of an identity key: the name derived from it.
pub open spec fn spec_enc_public_key(k: PublicKey) -> Seq<u8> {
    spec_enc_xor_name(k.name)
}

fn enc_public_key(out: &mut Vec<u8>, k: &PublicKey)
    ensures
        final(out)@ == old(out)@ + spec_enc_public_key(*k),
{
    enc_xor_name(out, &k.name);
}

fn dec_public_key(buf: &[u8], pos: &mut usize, Ghost(w): Ghost<PublicKey>) -> (r: PublicKey)
    requires
        starts_at(buf@, *old(pos) as int, spec_enc_public_key(w)),
    ensures
        *final(pos) == *old(pos) + spec_enc_public_key(w).len(),
        r == w,
{
    PublicKey { name: dec_xor_name(buf, pos, Ghost(w.name)) }
}

/// The defined equality of signatures: the same bytes.
pub open spec fn sig_eq(a: Signature, b: Signature) -> bool {
    a.bytes@ == b.bytes@
}

/// A signature that the wire form can carry: its length fits the length
/// prefix. Every signature held in a real vector satisfies this.
pub open spec fn sig_fits(s: Signature) -> bool {
    s.bytes@.len() <= u64::MAX
}

/// The byte form of a signature: its bytes, length-prefixed.
pub open spec fn spec_enc_signature(s: Signature) -> Seq<u8> {
    spec_enc_bytes(s.bytes@)
}

fn enc_signature(out: &mut Vec<u8>, s: &Signature)
    ensures
        final(out)@ == old(out)@ + spec_enc_signature(*s),
        sig_fits(*s),
{
    // Reading the length pins it within usize bounds, which is what
    // `sig_fits` states.
    let _n: usize = s.bytes.len();
    enc_bytes(out, &s.bytes);
}

/// One offset carries the byte form of at most one signature, up to the
/// defined equality, and the byte forms have one length.
proof fn lemma_signature_enc_unambiguous(buf: Seq<u8>, pos: int, a: Signature, b: Signature)
    requires
        starts_at(buf, pos, spec_enc_signature(a)),
        starts_at(buf, pos, spec_enc_signature(b)),
        sig_fits(a),
        sig_fits(b),
    ensures
        sig_eq(a, b),
        spec_enc_signature(a).len() == spec_enc_signature(b).len(),
{
    lemma_auto_spec_u64_to_from_le_bytes();
    lemma_starts_at_split(buf, pos, spec_enc_u64(a.bytes@.len() as u64), a.bytes@);
    lemma_starts_at_split(buf, pos, spec_enc_u64(b.bytes@.len() as u64), b.bytes@);
    lemma_starts_at_same(
        buf,
        pos,
        spec_enc_u64(a.bytes@.len() as u64),
        spec_enc_u64(b.bytes@.len() as u64),
    );
    assert(spec_u64_from_le_bytes(spec_u64_to_le_bytes(a.bytes@.len() as u64))
        == spec_u64_from_le_bytes(spec_u64_to_le_bytes(b.bytes@.len() as u64)));
    lemma_starts_at_same(buf, pos + 8, a.bytes@, b.bytes@);
}

fn dec_signature(buf: &[u8], pos: &mut usize, Ghost(w): Ghost<Signature>) -> (r: Signature)
    requires
        starts_at(buf@, *old(pos) as int, spec_enc_signature(w)),
        sig_fits(w),
    ensures
        *final(pos) == *old(pos) + spec_enc_signature(w).len(),
        sig_eq(r, w),
        sig_fits(r),
{
    Signature { bytes: dec_bytes(buf, pos, Ghost(w.bytes@)) }
}

/// The tag byte of an adult duty.
pub open spec fn adult_tag(d: AdultDuty) -> u8 {
    match d {
        AdultDuty::ChunkStorage => 0u8,
        AdultDuty::ChunkReplication => 1u8,
    }
}

/// The byte form of an adult duty: its tag.
pub open spec fn spec_enc_adult(d: AdultDuty) -> Seq<u8> {
    spec_enc_u8(adult_tag(d))
}

fn enc_adult(out: &mut Vec<u8>, d: &AdultDuty)
    ensures
        final(out)@ == old(out)@ + spec_enc_adult(*d),
{
    match d {
        AdultDuty::ChunkStorage => enc_u8(out, 0),
        AdultDuty::ChunkReplication => enc_u8(out, 1),
    }
}

fn dec_adult(buf: &[u8], pos: &mut usize, Ghost(w): Ghost<AdultDuty>) -> (r: AdultDuty)
    requires
        starts_at(buf@, *old(pos) as int, spec_enc_adult(w)),
    ensures
        *final(pos) == *old(pos) + spec_enc_adult(w).len(),
        r == w,
{
    let t = dec_u8(buf, pos, Ghost(adult_tag(w)));
    if t == 0 {
        AdultDuty::ChunkStorage
    } else {
        AdultDuty::ChunkReplication
    }
}

/// The tag byte of an elder duty.
pub open spec fn elder_tag(d: ElderDuty) -> u8 {
    match d {
        ElderDuty::Metadata => 0u8,
        ElderDuty::Transfer => 1u8,
        ElderDuty::Gateway => 2u8,
    }
}

/// The byte form of an elder duty: its tag.
pub open spec fn spec_enc_elder(d: ElderDuty) -> Seq<u8> {
    spec_enc_u8(elder_tag(d))
}

fn enc_elder(out: &mut Vec<u8>, d: &ElderDuty)
    ensures
        final(out)@ == old(out)@ + spec_enc_elder(*d),
{
    match d {
        ElderDuty::Metadata => enc_u8(out, 0),
        ElderDuty::Transfer => enc_u8(out, 1),
        ElderDuty::Gateway => enc_u8(out, 2),
    }
}

fn dec_elder(buf: &[u8], pos: &mut usize, Ghost(w): Ghost<ElderDuty>) -> (r: ElderDuty)
    requires
        starts_at(buf@, *old(pos) as int, spec_enc_elder(w)),
    ensures
        *final(pos) == *old(pos) + spec_enc_elder(w).len(),
        r == w,
{
    let t = dec_u8(buf, pos, Ghost(elder_tag(w)));
    if t == 0 {
        ElderDuty::Metadata
    } else if t == 1 {
        ElderDuty::Transfer
    } else {
        ElderDuty::Gateway
    }
}

/// The tag byte of a duty: adult or elder.
pub open spec fn duty_tag(d: Duty) -> u8 {
    match d {
        Duty::Adult(_) => 0u8,
        Duty::Elder(_) => 1u8,
    }
}

/// The adult role of a duty; immaterial for an elder duty.
pub open spec fn duty_adult(d: Duty) -> AdultDuty {
    match d {
        Duty::Adult(a) => a,
        Duty::Elder(_) => AdultDuty::ChunkStorage,
    }
}

/// The elder role of a duty; immaterial for an adult duty.
pub open spec fn duty_elder(d: Duty) -> ElderDuty {
    match d {
        Duty::Elder(e) => e,
        Duty::Adult(_) => ElderDuty::Metadata,
    }
}

/// The byte form of a duty after its tag.
pub open spec fn spec_enc_duty_body(d: Duty) -> Seq<u8> {
    match d {
        Duty::Adult(a) => spec_enc_adult(a),
        Duty::Elder(e) => spec_enc_elder(e),
    }
}

/// The byte form of a duty: its tag, then the role.
pub open spec fn spec_enc_duty(d: Duty) -> Seq<u8> {
    spec_enc_u8(duty_tag(d)) + spec_enc_duty_body(d)
}

fn enc_duty(out: &mut Vec<u8>, d: &Duty)
    ensures
        final(out)@ == old(out)@ + spec_enc_duty(*d),
{
    match d {
        Duty::Adult(a) => {
            enc_u8(out, 0);
            enc_adult(out, a);
        },
        Duty::Elder(e) => {
            enc_u8(out, 1);
            enc_elder(out, e);
        },
    }
    proof {
        assert(out@ =~= old(out)@ + spec_enc_duty(*d));
    }
}

fn dec_duty(buf: &[u8], pos: &mut usize, Ghost(w): Ghost<Duty>) -> (r: Duty)
    requires
        starts_at(buf@, *old(pos) as int, spec_enc_duty(w)),
    ensures
        *final(pos) == *old(pos) + spec_enc_duty(w).len(),
        r == w,
{
    let ghost p = *pos as int;
    proof {
        lemma_starts_at_split(buf@, p, spec_enc_u8(duty_tag(w)), spec_enc_duty_body(w));
    }
    let t = dec_u8(buf, pos, Ghost(duty_tag(w)));
    if t == 0 {
        proof {
            assert(spec_enc_duty_body(w) == spec_enc_adult(duty_adult(w)));
        }
        Duty::Adult(dec_adult(buf, pos, Ghost(duty_adult(w))))
    } else {
        proof {
            assert(spec_enc_duty_body(w) == spec_enc_elder(duty_elder(w)));
        }
        Duty::Elder(dec_elder(buf, pos, Ghost(duty_elder(w))))
    }
}

/// One offset carries the byte form of at most one duty.
proof fn lemma_duty_enc_unambiguous(buf: Seq<u8>, pos: int, a: Duty, b: Duty)
    requires
        starts_at(buf, pos, spec_enc_duty(a)),
        starts_at(buf, pos, spec_enc_duty(b)),
    ensures
        a == b,
{
    lemma_starts_at_split(buf, pos, spec_enc_u8(duty_tag(a)), spec_enc_duty_body(a));
    lemma_starts_at_split(buf, pos, spec_enc_u8(duty_tag(b)), spec_enc_duty_body(b));
    lemma_starts_at_same(buf, pos, spec_enc_u8(duty_tag(a)), spec_enc_u8(duty_tag(b)));
    assert(spec_enc_u8(duty_tag(a))[0] == spec_enc_u8(duty_tag(b))[0]);
    lemma_starts_at_same(buf, pos + 1, spec_enc_duty_body(a), spec_enc_duty_body(b));
    assert(spec_enc_duty_body(a)[0] == spec_enc_duty_body(b)[0]);
}

/// The tag byte of a sender: client, node or section.
pub open spec fn sender_tag(s: MsgSender) -> u8 {
    match s {
        MsgSender::Client { .. } => 0u8,
        MsgSender::Node { .. } => 1u8,
        MsgSender::Section { .. } => 2u8,
    }
}

/// The identity key of a sender, whichever variant it is.
pub open spec fn sender_id(s: MsgSender) -> PublicKey {
    match s {
        MsgSender::Client { id, .. } => id,
        MsgSender::Node { id, .. } => id,
        MsgSender::Section { id, .. } => id,
    }
}

/// The signature of a sender, whichever variant it is.
pub open spec fn sender_sig(s: MsgSender) -> Signature {
    match s {
        MsgSender::Client { signature, .. } => signature,
        MsgSender::Node { signature, .. } => signature,
        MsgSender::Section { signature, .. } => signature,
    }
}

/// The duty a Node or Section sender acted under; immaterial for a Client,
/// which never carries one.
pub open spec fn sender_duty(s: MsgSender) -> Duty {
    match s {
        MsgSender::Client { .. } => Duty::Adult(AdultDuty::ChunkStorage),
        MsgSender::Node { duty, .. } => duty,
        MsgSender::Section { duty, .. } => duty,
    }
}

/// The defined equality of senders: same variant, same identity, same duty,
/// same signature bytes.
pub open spec fn sender_eq(a: MsgSender, b: MsgSender) -> bool {
    &&& sender_tag(a) == sender_tag(b)
    &&& sender_id(a) == sender_id(b)
    &&& sender_duty(a) == sender_duty(b)
    &&& sig_eq(sender_sig(a), sender_sig(b))
}

/// A sender the wire form can carry: its signature fits.
pub open spec fn sender_fits(s: MsgSender) -> bool {
    sig_fits(sender_sig(s))
}

/// The byte form of a sender after its tag: the identity key, the duty for a
/// Node or Section, and the signature.
pub open spec fn spec_enc_sender_body(s: MsgSender) -> Seq<u8> {
    match s {
        MsgSender::Client { .. } => spec_enc_public_key(sender_id(s)) + spec_enc_signature(
            sender_sig(s),
        ),
        MsgSender::Node { .. } => spec_enc_public_key(sender_id(s)) + spec_enc_duty(
            sender_duty(s),
        ) + spec_enc_signature(sender_sig(s)),
        MsgSender::Section { .. } => spec_enc_public_key(sender_id(s)) + spec_enc_duty(
            sender_duty(s),
        ) + spec_enc_signature(sender_sig(s)),
    }
}

/// The byte form of a sender: its tag, then its fields.
pub open spec fn spec_enc_sender(s: MsgSender) -> Seq<u8> {
    spec_enc_u8(sender_tag(s)) + spec_enc_sender_body(s)
}

fn enc_sender(out: &mut Vec<u8>, s: &MsgSender)
    ensures
        final(out)@ == old(out)@ + spec_enc_sender(*s),
        sender_fits(*s),
{
    match s {
        MsgSender::Client { id, signature } => {
            enc_u8(out, 0);
            enc_public_key(out, id);
            enc_signature(out, signature);
        },
        MsgSender::Node { id, duty, signature } => {
            enc_u8(out, 1);
            enc_public_key(out, id);
            enc_duty(out, duty);
            enc_signature(out, signature);
        },
        MsgSender::Section { id, duty, signature } => {
            enc_u8(out, 2);
            enc_public_key(out, id);
            enc_duty(out, duty);
            enc_signature(out, signature);
        },
    }
    proof {
        assert(out@ =~= old(out)@ + spec_enc_sender(*s));
    }
}

fn dec_sender(buf: &[u8], pos: &mut usize, Ghost(w): Ghost<MsgSender>) -> (r: MsgSender)
    requires
        starts_at(buf@, *old(pos) as int, spec_enc_sender(w)),
        sender_fits(w),
    ensures
        *final(pos) == *old(pos) + spec_enc_sender(w).len(),
        sender_eq(r, w),
        sender_fits(r),
{
    let ghost p = *pos as int;
    proof {
        lemma_starts_at_split(buf@, p, spec_enc_u8(sender_tag(w)), spec_enc_sender_body(w));
    }
    let t = dec_u8(buf, pos, Ghost(sender_tag(w)));
    if t == 0 {
        proof {
            assert(spec_enc_sender_body(w) == spec_enc_public_key(sender_id(w))
                + spec_enc_signature(sender_sig(w)));
            lemma_starts_at_split(
                buf@,
                p + 1,
                spec_enc_public_key(sender_id(w)),
                spec_enc_signature(sender_sig(w)),
            );
        }
        let id = dec_public_key(buf, pos, Ghost(sender_id(w)));
        let signature = dec_signature(buf, pos, Ghost(sender_sig(w)));
        MsgSender::Client { id, signature }
    } else {
        proof {
            assert(spec_enc_sender_body(w) =~= spec_enc_public_key(sender_id(w)) + (
            spec_enc_duty(sender_duty(w)) + spec_enc_signature(sender_sig(w))));
            lemma_starts_at_split(
                buf@,
                p + 1,
                spec_enc_public_key(sender_id(w)),
                spec_enc_duty(sender_duty(w)) + spec_enc_signature(sender_sig(w)),
            );
            lemma_starts_at_split(
                buf@,
                p + 1 + spec_enc_public_key(sender_id(w)).len(),
                spec_enc_duty(sender_duty(w)),
                spec_enc_signature(sender_sig(w)),
            );
        }
        let id = dec_public_key(buf, pos, Ghost(sender_id(w)));
        let duty = dec_duty(buf, pos, Ghost(sender_duty(w)));
        let signature = dec_signature(buf, pos, Ghost(sender_sig(w)));
        if t == 1 {
            MsgSender::Node { id, duty, signature }
        } else {
            MsgSender::Section { id, duty, signature }
        }
    }
}

/// One offset carries the byte form of at most one sender, up to the defined
/// equality, and the byte forms have one length.
proof fn lemma_sender_enc_unambiguous(buf: Seq<u8>, pos: int, a: MsgSender, b: MsgSender)
    requires
        starts_at(buf, pos, spec_enc_sender(a)),
        starts_at(buf, pos, spec_enc_sender(b)),
        sender_fits(a),
        sender_fits(b),
    ensures
        sender_eq(a, b),
        spec_enc_sender(a).len() == spec_enc_sender(b).len(),
{
    lemma_auto_spec_u64_to_from_le_bytes();
    lemma_starts_at_split(buf, pos, spec_enc_u8(sender_tag(a)), spec_enc_sender_body(a));
    lemma_starts_at_split(buf, pos, spec_enc_u8(sender_tag(b)), spec_enc_sender_body(b));
    lemma_starts_at_same(buf, pos, spec_enc_u8(sender_tag(a)), spec_enc_u8(sender_tag(b)));
    assert(spec_enc_u8(sender_tag(a))[0] == spec_enc_u8(sender_tag(b))[0]);
    if sender_tag(a) == 0 {
        assert(spec_enc_sender_body(a) == spec_enc_public_key(sender_id(a)) + spec_enc_signature(
            sender_sig(a),
        ));
        assert(spec_enc_sender_body(b) == spec_enc_public_key(sender_id(b)) + spec_enc_signature(
            sender_sig(b),
        ));
        lemma_starts_at_split(
            buf,
            pos + 1,
            spec_enc_public_key(sender_id(a)),
            spec_enc_signature(sender_sig(a)),
        );
        lemma_starts_at_split(
            buf,
            pos + 1,
            spec_enc_public_key(sender_id(b)),
            spec_enc_signature(sender_sig(b)),
        );
        lemma_xor_name_enc_unambiguous(buf, pos + 1, sender_id(a).name, sender_id(b).name);
        lemma_signature_enc_unambiguous(
            buf,
            pos + 1 + spec_enc_public_key(sender_id(a)).len(),
            sender_sig(a),
            sender_sig(b),
        );
    } else {
        assert(spec_enc_sender_body(a) =~= spec_enc_public_key(sender_id(a)) + (spec_enc_duty(
            sender_duty(a),
        ) + spec_enc_signature(sender_sig(a))));
        assert(spec_enc_sender_body(b) =~= spec_enc_public_key(sender_id(b)) + (spec_enc_duty(
            sender_duty(b),
        ) + spec_enc_signature(sender_sig(b))));
        lemma_starts_at_split(
            buf,
            pos + 1,
            spec_enc_public_key(sender_id(a)),
            spec_enc_duty(sender_duty(a)) + spec_enc_signature(sender_sig(a)),
        );
        lemma_starts_at_split(
            buf,
            pos + 1,
            spec_enc_public_key(sender_id(b)),
            spec_enc_duty(sender_duty(b)) + spec_enc_signature(sender_sig(b)),
        );
        lemma_xor_name_enc_unambiguous(buf, pos + 1, sender_id(a).name, sender_id(b).name);
        lemma_starts_at_split(
            buf,
            pos + 1 + spec_enc_public_key(sender_id(a)).len(),
            spec_enc_duty(sender_duty(a)),
            spec_enc_signature(sender_sig(a)),
        );
        lemma_starts_at_split(
            buf,
            pos + 1 + spec_enc_public_key(sender_id(b)).len(),
            spec_enc_duty(sender_duty(b)),
            spec_enc_signature(sender_sig(b)),
        );
        lemma_duty_enc_unambiguous(buf, pos + 1 + spec_enc_public_key(sender_id(a)).len(),
            sender_duty(a), sender_duty(b));
        lemma_signature_enc_unambiguous(
            buf,
            pos + 1 + spec_enc_public_key(sender_id(a)).len() + spec_enc_duty(
                sender_duty(a),
            ).len(),
            sender_sig(a),
            sender_sig(b),
        );
    }
}

/// The byte form of a run of senders, in order.
pub open spec fn spec_enc_sender_seq(s: Seq<MsgSender>) -> Seq<u8>
    decreases s.len(),
{
    if s.len() == 0 {
        Seq::empty()
    } else {
        spec_enc_sender(s[0]) + spec_enc_sender_seq(s.skip(1))
    }
}

/// The byte form of a sender list: its count, then the senders in order.
pub open spec fn spec_enc_senders(s: Seq<MsgSender>) -> Seq<u8> {
    spec_enc_u64(s.len() as u64) + spec_enc_sender_seq(s)
}

/// The defined equality of sender lists: the same senders, in the same
/// order.
pub open spec fn senders_eq(a: Seq<MsgSender>, b: Seq<MsgSender>) -> bool {
    &&& a.len() == b.len()
    &&& forall|i: int| 0 <= i < a.len() ==> sender_eq(#[trigger] a[i], b[i])
}

/// A sender list the wire form can carry: its count fits the count prefix
/// and every sender fits.
pub open spec fn senders_fit(s: Seq<MsgSender>) -> bool {
    &&& s.len() <= u64::MAX
    &&& forall|i: int| 0 <= i < s.len() ==> sender_fits(#[trigger] s[i])
}

/// Encoding one more sender extends the run's byte form by that sender's.
proof fn lemma_enc_sender_seq_snoc(s: Seq<MsgSender>, i: int)
    requires
        0 <= i < s.len(),
    ensures
        spec_enc_sender_seq(s.take(i + 1)) == spec_enc_sender_seq(s.take(i)) + spec_enc_sender(
            s[i],
        ),
    decreases i,
{
    if i == 0 {
        assert(s.take(1).skip(1) =~= Seq::<MsgSender>::empty());
        assert(s.take(0) =~= Seq::<MsgSender>::empty());
        assert(s.take(1)[0] == s[0]);
        assert(spec_enc_sender_seq(s.take(1)) =~= spec_enc_sender_seq(s.take(0))
            + spec_enc_sender(s[0]));
    } else {
        lemma_enc_sender_seq_snoc(s.skip(1), i - 1);
        assert(s.take(i + 1).skip(1) =~= s.skip(1).take(i));
        assert(s.take(i).skip(1) =~= s.skip(1).take(i - 1));
        assert(s.take(i + 1)[0] == s[0]);
        assert(s.take(i)[0] == s[0]);
        assert(s.skip(1)[i - 1] == s[i]);
        assert(spec_enc_sender_seq(s.take(i + 1)) =~= spec_enc_sender_seq(s.take(i))
            + spec_enc_sender(s[i]));
    }
}

/// A run's byte form is at least one byte per sender.
proof fn lemma_enc_sender_seq_len(s: Seq<MsgSender>)
    ensures
        spec_enc_sender_seq(s).len() >= s.len(),
    decreases s.len(),
{
    if s.len() > 0 {
        lemma_enc_sender_seq_len(s.skip(1));
    }
}

fn enc_senders(out: &mut Vec<u8>, senders: &Vec<MsgSender>)
    ensures
        final(out)@ == old(out)@ + spec_enc_senders(senders@),
        senders_fit(senders@),
{
    enc_u64(out, senders.len() as u64);
    let ghost mid = out@;
    proof {
        assert(senders@.take(0) =~= Seq::<MsgSender>::empty());
        assert(mid + spec_enc_sender_seq(senders@.take(0)) =~= mid);
    }
    let mut i: usize = 0;
    while i < senders.len()
        invariant
            i <= senders@.len(),
            out@ == mid + spec_enc_sender_seq(senders@.take(i as int)),
            forall|j: int| 0 <= j < i ==> sender_fits(#[trigger] senders@[j]),
        decreases senders@.len() - i,
    {
        enc_sender(out, &senders[i]);
        proof {
            lemma_enc_sender_seq_snoc(senders@, i as int);
            assert(out@ =~= mid + spec_enc_sender_seq(senders@.take(i + 1)));
        }
        i = i + 1;
    }
    proof {
        assert(senders@.take(senders@.len() as int) =~= senders@);
        assert(out@ =~= old(out)@ + spec_enc_senders(senders@));
    }
}

fn dec_senders(buf: &[u8], pos: &mut usize, Ghost(w): Ghost<Seq<MsgSender>>) -> (r: Vec<
    MsgSender,
>)
    requires
        starts_at(buf@, *old(pos) as int, spec_enc_senders(w)),
        senders_fit(w),
    ensures
        *final(pos) == *old(pos) + spec_enc_senders(w).len(),
        senders_eq(r@, w),
        senders_fit(r@),
{
    let ghost p = *pos as int;
    // Reading the length pins `buf@.len()` within usize bounds, so the
    // decoded count fits a usize.
    let _total: usize = buf.len();
    proof {
        lemma_auto_spec_u64_to_from_le_bytes();
        lemma_starts_at_split(buf@, p, spec_enc_u64(w.len() as u64), spec_enc_sender_seq(w));
        lemma_enc_sender_seq_len(w);
        assert(w.skip(0) =~= w);
    }
    let n64 = dec_u64(buf, pos, Ghost(w.len() as u64));
    let n = n64 as usize;
    let mut r: Vec<MsgSender> = Vec::new();
    let mut i: usize = 0;
    while i < n
        invariant
            i <= w.len(),
            n == w.len(),
            buf@.len() <= usize::MAX,
            r@.len() == i,
            senders_fit(w),
            forall|j: int| 0 <= j < i ==> sender_eq(#[trigger] r@[j], w[j]),
            forall|j: int| 0 <= j < i ==> sender_fits(#[trigger] r@[j]),
            starts_at(buf@, *pos as int, spec_enc_sender_seq(w.skip(i as int))),
            *pos + spec_enc_sender_seq(w.skip(i as int)).len() == p + spec_enc_senders(w).len(),
        decreases n - i,
    {
        proof {
            let rem = w.skip(i as int);
            assert(rem[0] == w[i as int]);
            assert(rem.skip(1) =~= w.skip(i as int + 1));
            lemma_starts_at_split(
                buf@,
                *pos as int,
                spec_enc_sender(w[i as int]),
                spec_enc_sender_seq(w.skip(i as int + 1)),
            );
        }
        let item = dec_sender(buf, pos, Ghost(w[i as int]));
        r.push(item);
        i = i + 1;
    }
    proof {
        assert(w.skip(w.len() as int) =~= Seq::<MsgSender>::empty());
    }
    r
}

/// One offset carries one run of a given count, up to the defined equality,
/// and the byte forms have one length.
proof fn lemma_sender_seq_enc_unambiguous(
    buf: Seq<u8>,
    pos: int,
    a: Seq<MsgSender>,
    b: Seq<MsgSender>,
)
    requires
        starts_at(buf, pos, spec_enc_sender_seq(a)),
        starts_at(buf, pos, spec_enc_sender_seq(b)),
        a.len() == b.len(),
        forall|i: int| 0 <= i < a.len() ==> sender_fits(#[trigger] a[i]),
        forall|i: int| 0 <= i < b.len() ==> sender_fits(#[trigger] b[i]),
    ensures
        senders_eq(a, b),
        spec_enc_sender_seq(a).len() == spec_enc_sender_seq(b).len(),
    decreases a.len(),
{
    if a.len() > 0 {
        lemma_starts_at_split(buf, pos, spec_enc_sender(a[0]), spec_enc_sender_seq(a.skip(1)));
        lemma_starts_at_split(buf, pos, spec_enc_sender(b[0]), spec_enc_sender_seq(b.skip(1)));
        lemma_sender_enc_unambiguous(buf, pos, a[0], b[0]);
        assert forall|i: int| 0 <= i < a.skip(1).len() implies sender_fits(
            #[trigger] a.skip(1)[i],
        ) by {
            assert(a.skip(1)[i] == a[i + 1]);
        }
        assert forall|i: int| 0 <= i < b.skip(1).len() implies sender_fits(
            #[trigger] b.skip(1)[i],
        ) by {
            assert(b.skip(1)[i] == b[i + 1]);
        }
        lemma_sender_seq_enc_unambiguous(
            buf,
            pos + spec_enc_sender(a[0]).len(),
            a.skip(1),
            b.skip(1),
        );
        assert forall|i: int| 0 <= i < a.len() implies sender_eq(#[trigger] a[i], b[i]) by {
            if i > 0 {
                assert(a.skip(1)[i - 1] == a[i]);
                assert(b.skip(1)[i - 1] == b[i]);
                assert(sender_eq(a.skip(1)[i - 1], b.skip(1)[i - 1]));
            }
        }
    }
}

/// One offset carries the byte form of at most one sender list, up to the
/// defined equality, and the byte forms have one length.
proof fn lemma_senders_enc_unambiguous(
    buf: Seq<u8>,
    pos: int,
    a: Seq<MsgSender>,
    b: Seq<MsgSender>,
)
    requires
        starts_at(buf, pos, spec_enc_senders(a)),
        starts_at(buf, pos, spec_enc_senders(b)),
        senders_fit(a),
        senders_fit(b),
    ensures
        senders_eq(a, b),
        spec_enc_senders(a).len() == spec_enc_senders(b).len(),
{
    lemma_auto_spec_u64_to_from_le_bytes();
    lemma_starts_at_split(buf, pos, spec_enc_u64(a.len() as u64), spec_enc_sender_seq(a));
    lemma_starts_at_split(buf, pos, spec_enc_u64(b.len() as u64), spec_enc_sender_seq(b));
    lemma_starts_at_same(buf, pos, spec_enc_u64(a.len() as u64), spec_enc_u64(b.len() as u64));
    assert(spec_u64_from_le_bytes(spec_u64_to_le_bytes(a.len() as u64)) == spec_u64_from_le_bytes(
        spec_u64_to_le_bytes(b.len() as u64),
    ));
    lemma_sender_seq_enc_unambiguous(buf, pos + 8, a, b);
}

/// The byte form of an envelope's provenance: the origin sender, then the
/// proxies in forwarding order.
pub open spec fn spec_enc_provenance(origin: MsgSender, proxies: Seq<MsgSender>) -> Seq<u8> {
    spec_enc_sender(origin) + spec_enc_senders(proxies)
}

/// A provenance chain the wire form can carry.
pub open spec fn provenance_fits(origin: MsgSender, proxies: Seq<MsgSender>) -> bool {
    sender_fits(origin) && senders_fit(proxies)
}

/// Encodes an envelope's provenance chain: the origin sender and the proxies
/// in forwarding order.
pub fn encode_provenance(origin: &MsgSender, proxies: &Vec<MsgSender>) -> (out: Vec<u8>)
    ensures
        out@ == spec_enc_provenance(*origin, proxies@),
        provenance_fits(*origin, proxies@),
{
    let mut out: Vec<u8> = Vec::new();
    enc_sender(&mut out, origin);
    enc_senders(&mut out, proxies);
    proof {
        assert(out@ =~= spec_enc_provenance(*origin, proxies@));
    }
    out
}

/// Decodes a provenance chain from its byte form. Whatever origin and
/// proxies the buffer encodes come back equal under the defined equality,
/// with the proxies in their original order: together with
/// [`encode_provenance`], decoding an encoded chain yields the chain.
pub fn decode_provenance(buf: &[u8]) -> (r: (MsgSender, Vec<MsgSender>))
    requires
        exists|o: MsgSender, px: Seq<MsgSender>|
            buf@ == spec_enc_provenance(o, px) && provenance_fits(o, px),
    ensures
        forall|o: MsgSender, px: Seq<MsgSender>|
            buf@ == spec_enc_provenance(o, px) && provenance_fits(o, px) ==> sender_eq(r.0, o)
                && senders_eq(r.1@, px),
{
    let ghost (go, gpx): (MsgSender, Seq<MsgSender>) = choose|o: MsgSender, px: Seq<MsgSender>|
        buf@ == spec_enc_provenance(o, px) && provenance_fits(o, px);
    let mut pos: usize = 0;
    proof {
        assert(buf@.subrange(0, buf@.len() as int) =~= buf@);
        assert(starts_at(buf@, 0, spec_enc_provenance(go, gpx)));
        lemma_starts_at_split(buf@, 0, spec_enc_sender(go), spec_enc_senders(gpx));
    }
    let origin = dec_sender(buf, &mut pos, Ghost(go));
    let proxies = dec_senders(buf, &mut pos, Ghost(gpx));
    proof {
        assert forall|o: MsgSender, px: Seq<MsgSender>|
            buf@ == spec_enc_provenance(o, px) && provenance_fits(o, px) implies sender_eq(
            origin,
            o,
        ) && senders_eq(proxies@, px) by {
            assert(starts_at(buf@, 0, spec_enc_provenance(o, px)));
            lemma_starts_at_split(buf@, 0, spec_enc_sender(o), spec_enc_senders(px));
            lemma_sender_enc_unambiguous(buf@, 0, o, go);
            lemma_senders_enc_unambiguous(buf@, spec_enc_sender(go).len() as int, px, gpx);
            assert forall|i: int| 0 <= i < px.len() implies sender_eq(
                #[trigger] proxies@[i],
                px[i],
            ) by {
                assert(sender_eq(proxies@[i], gpx[i]));
                assert(sender_eq(px[i], gpx[i]));
            }
        }
    }
    (origin, proxies)
}

/// Encodes a message identifier.
pub fn encode_message_id(id: &MessageId) -> (out: Vec<u8>)
    ensures
        out@ == spec_enc_message_id(*id),
{
    let mut out: Vec<u8> = Vec::new();
    enc_message_id(&mut out, id);
    proof {
        assert(out@ =~= spec_enc_message_id(*id));
    }
    out
}

/// Decodes a message identifier from its byte form: together with
/// [`encode_message_id`], decoding an encoded identifier yields the
/// identifier, so deduplication by identifier is stable across the wire.
pub fn decode_message_id(buf: &[u8]) -> (r: MessageId)
    requires
        exists|m: MessageId| buf@ == spec_enc_message_id(m),
    ensures
        forall|m: MessageId| buf@ == spec_enc_message_id(m) ==> r == m,
{
    let ghost g: MessageId = choose|m: MessageId| buf@ == spec_enc_message_id(m);
    let mut pos: usize = 0;
    proof {
        assert(buf@.subrange(0, buf@.len() as int) =~= buf@);
        assert(starts_at(buf@, 0, spec_enc_message_id(g)));
    }
    let r = dec_message_id(buf, &mut pos, Ghost(g));
    proof {
        assert forall|m: MessageId| buf@ == spec_enc_message_id(m) implies r == m by {
            assert(starts_at(buf@, 0, spec_enc_message_id(m)));
            lemma_xor_name_enc_unambiguous(buf@, 0, m.0, g.0);
        }
    }
    r
}

/// The tag byte of an address: its actor class.
pub open spec fn address_tag(a: Address) -> u8 {
    match a {
        Address::Client(_) => 0u8,
        Address::Node(_) => 1u8,
        Address::Section(_) => 2u8,
    }
}

/// The byte form of an address: its class tag, then the name.
pub open spec fn spec_enc_address(a: Address) -> Seq<u8> {
    spec_enc_u8(address_tag(a)) + spec_enc_xor_name(a.spec_xorname())
}

fn enc_address(out: &mut Vec<u8>, a: &Address)
    ensures
        final(out)@ == old(out)@ + spec_enc_address(*a),
{
    match a {
        Address::Client(name) => {
            enc_u8(out, 0);
            enc_xor_name(out, name);
        },
        Address::Node(name) => {
            enc_u8(out, 1);
            enc_xor_name(out, name);
        },
        Address::Section(name) => {
            enc_u8(out, 2);
            enc_xor_name(out, name);
        },
    }
    proof {
        assert(out@ =~= old(out)@ + spec_enc_address(*a));
    }
}

fn dec_address(buf: &[u8], pos: &mut usize, Ghost(w): Ghost<Address>) -> (r: Address)
    requires
        starts_at(buf@, *old(pos) as int, spec_enc_address(w)),
    ensures
        *final(pos) == *old(pos) + spec_enc_address(w).len(),
        r == w,
{
    let ghost p = *pos as int;
    proof {
        lemma_starts_at_split(
            buf@,
            p,
            spec_enc_u8(address_tag(w)),
            spec_enc_xor_name(w.spec_xorname()),
        );
    }
    let t = dec_u8(buf, pos, Ghost(address_tag(w)));
    let name = dec_xor_name(buf, pos, Ghost(w.spec_xorname()));
    if t == 0 {
        Address::Client(name)
    } else if t == 1 {
        Address::Node(name)
    } else {
        Address::Section(name)
    }
}

/// Encodes an address.
pub fn encode_address(address: &Address) -> (out: Vec<u8>)
    ensures
        out@ == spec_enc_address(*address),
{
    let mut out: Vec<u8> = Vec::new();
    enc_address(&mut out, address);
    proof {
        assert(out@ =~= spec_enc_address(*address));
    }
    out
}

/// Decodes an address from its byte form: together with [`encode_address`],
/// decoding an encoded address yields the address, class tag included.
pub fn decode_address(buf: &[u8]) -> (r: Address)
    requires
        exists|a: Address| buf@ == spec_enc_address(a),
    ensures
        forall|a: Address| buf@ == spec_enc_address(a) ==> r == a,
{
    let ghost g: Address = choose|a: Address| buf@ == spec_enc_address(a);
    let mut pos: usize = 0;
    proof {
        assert(buf@.subrange(0, buf@.len() as int) =~= buf@);
        assert(starts_at(buf@, 0, spec_enc_address(g)));
    }
    let r = dec_address(buf, &mut pos, Ghost(g));
    proof {
        assert forall|a: Address| buf@ == spec_enc_address(a) implies r == a by {
            assert(starts_at(buf@, 0, spec_enc_address(a)));
            lemma_starts_at_split(
                buf@,
                0,
                spec_enc_u8(address_tag(a)),
                spec_enc_xor_name(a.spec_xorname()),
            );
            lemma_starts_at_split(
                buf@,
                0,
                spec_enc_u8(address_tag(g)),
                spec_enc_xor_name(g.spec_xorname()),
            );
            lemma_starts_at_same(buf@, 0, spec_enc_u8(address_tag(a)), spec_enc_u8(address_tag(g)));
            assert(spec_enc_u8(address_tag(a))[0] == spec_enc_u8(address_tag(g))[0]);
            lemma_xor_name_enc_unambiguous(buf@, 1, a.spec_xorname(), g.spec_xorname());
        }
    }
    r
}

} // verus!
