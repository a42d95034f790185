//! Canonical encoding of signed messages.
//!
//! The codec maps `(version, nonce, domain, parameters)` to bytes through a
//! fixed-width layout: a version byte, the nonce in eight little-endian
//! bytes, a domain tag byte, then one 34-byte cell per parameter.  The
//! mapping is proved injective (`lemma_payload_bytes_injective`), which is
//! the property replay protection and domain separation rest on: messages
//! that differ in nonce, domain, or arguments have different encodings.

use vstd::prelude::*;

use vstd::bytes::{lemma_auto_spec_u64_to_from_le_bytes, spec_u64_to_le_bytes, u64_to_le_bytes};

use crate::cryptography::Domain;
use crate::public_types::{Identifier, Message, Parameter, U256};

verus! {

broadcast use vstd::array::group_array_axioms;

/// The byte tag of a domain; distinct per variant.
pub open spec fn domain_tag(d: Domain) -> u8 {
    match d {
        Domain::Approve => 0,
        Domain::Transfer => 1,
        Domain::TransferFrom => 2,
        Domain::Burn => 3,
        Domain::Freeze => 4,
        Domain::Mint => 5,
        Domain::SetAdministrator => 6,
        Domain::Unfreeze => 7,
    }
}

/// The byte tag of an identifier variant.
pub open spec fn id_tag(id: Identifier) -> u8 {
    match id {
        Identifier::Contract(_) => 0,
        Identifier::Ed25519(_) => 1,
        Identifier::Account(_) => 2,
    }
}

/// The 32 bytes embedded in an identifier.
pub open spec fn id_key(id: Identifier) -> U256 {
    match id {
        Identifier::Contract(k) => k,
        Identifier::Ed25519(k) => k,
        Identifier::Account(k) => k,
    }
}

/// Encoding of an identifier: variant tag, then its 32 bytes.
pub open spec fn id_bytes(id: Identifier) -> Seq<u8> {
    seq![id_tag(id)] + id_key(id)@
}

/// Encoding of one parameter as a fixed 34-byte cell: a kind tag, then the
/// identifier encoding or the amount padded with zero bytes.
pub open spec fn param_bytes(p: Parameter) -> Seq<u8> {
    match p {
        Parameter::Id(id) => seq![1u8] + id_bytes(id),
        Parameter::Amount(a) => seq![0u8] + spec_u64_to_le_bytes(a) + Seq::new(25, |i: int| 0u8),
    }
}

/// Encoding of a parameter list: its cells in order.
pub open spec fn params_bytes(ps: Seq<Parameter>) -> Seq<u8>
    decreases ps.len(),
{
    if ps.len() == 0 {
        Seq::empty()
    } else {
        param_bytes(ps.first()) + params_bytes(ps.drop_first())
    }
}

/// The full version-0 payload: version byte 0, nonce, domain tag, cells.
pub open spec fn payload_bytes(nonce: u64, domain: Domain, params: Seq<Parameter>) -> Seq<u8> {
    seq![0u8] + spec_u64_to_le_bytes(nonce) + seq![domain_tag(domain)] + params_bytes(params)
}

/// The encoding of a message.
pub open spec fn message_bytes(m: Message) -> Seq<u8> {
    match m {
        Message::V0(v) => payload_bytes(v.nonce, v.domain, v.parameters@),
    }
}

/// Every cell is 34 bytes long.
pub proof fn lemma_param_bytes_len(p: Parameter)
    ensures
        param_bytes(p).len() == 34,
{
    lemma_auto_spec_u64_to_from_le_bytes();
}

/// A parameter list encodes to 34 bytes per parameter.
pub proof fn lemma_params_bytes_len(ps: Seq<Parameter>)
    ensures
        params_bytes(ps).len() == 34 * ps.len(),
    decreases ps.len(),
{
    if ps.len() > 0 {
        lemma_param_bytes_len(ps.first());
        lemma_params_bytes_len(ps.drop_first());
    }
}

/// Appending a parameter appends its cell.
pub proof fn lemma_params_bytes_push(ps: Seq<Parameter>, p: Parameter)
    ensures
        params_bytes(ps.push(p)) == params_bytes(ps) + param_bytes(p),
    decreases ps.len(),
{
    let t = ps.push(p);
    if ps.len() == 0 {
        assert(t.len() == 1);
        assert(t.first() == p);
        assert(t.drop_first() =~= Seq::<Parameter>::empty());
        assert(params_bytes(t.drop_first()) == Seq::<u8>::empty());
        assert(params_bytes(t) == param_bytes(p) + Seq::<u8>::empty());
        assert(params_bytes(ps) == Seq::<u8>::empty());
        assert(params_bytes(t) =~= params_bytes(ps) + param_bytes(p));
    } else {
        assert(t.first() == ps.first());
        assert(t.drop_first() =~= ps.drop_first().push(p));
        lemma_params_bytes_push(ps.drop_first(), p);
        assert(params_bytes(t) == param_bytes(ps.first()) + (params_bytes(ps.drop_first())
            + param_bytes(p)));
        assert(params_bytes(t) =~= params_bytes(ps) + param_bytes(p));
    }
}

/// Two domains with the same tag are the same domain.
pub proof fn lemma_domain_tag_injective(d1: Domain, d2: Domain)
    ensures
        domain_tag(d1) == domain_tag(d2) ==> d1 == d2,
{
}

/// Two parameters with the same cell are the same parameter.
pub proof fn lemma_param_bytes_injective(p: Parameter, q: Parameter)
    requires
        param_bytes(p) == param_bytes(q),
    ensures
        p == q,
{
    lemma_auto_spec_u64_to_from_le_bytes();
    match (p, q) {
        (Parameter::Id(id1), Parameter::Id(id2)) => {
            assert(param_bytes(p)[1] == id_tag(id1));
            assert(param_bytes(q)[1] == id_tag(id2));
            let k1 = id_key(id1);
            let k2 = id_key(id2);
            assert forall|i: int| 0 <= i < 32 implies k1@[i] == k2@[i] by {
                assert(param_bytes(p)[2 + i] == k1@[i]);
                assert(param_bytes(q)[2 + i] == k2@[i]);
            }
            assert(k1 =~= k2);
        },
        (Parameter::Amount(a1), Parameter::Amount(a2)) => {
            assert forall|i: int| 0 <= i < 8 implies spec_u64_to_le_bytes(a1)[i]
                == spec_u64_to_le_bytes(a2)[i] by {
                assert(param_bytes(p)[1 + i] == spec_u64_to_le_bytes(a1)[i]);
                assert(param_bytes(q)[1 + i] == spec_u64_to_le_bytes(a2)[i]);
            }
            assert(spec_u64_to_le_bytes(a1) =~= spec_u64_to_le_bytes(a2));
        },
        (Parameter::Id(_), Parameter::Amount(_)) => {
            assert(param_bytes(p)[0] == 1u8);
            assert(param_bytes(q)[0] == 0u8);
        },
        (Parameter::Amount(_), Parameter::Id(_)) => {
            assert(param_bytes(p)[0] == 0u8);
            assert(param_bytes(q)[0] == 1u8);
        },
    }
}

/// Two parameter lists with the same encoding are the same list.
pub proof fn lemma_params_bytes_injective(ps: Seq<Parameter>, qs: Seq<Parameter>)
    requires
        params_bytes(ps) == params_bytes(qs),
    ensures
        ps == qs,
    decreases ps.len(),
{
    lemma_params_bytes_len(ps);
    lemma_params_bytes_len(qs);
    if ps.len() == 0 {
        assert(ps =~= qs);
    } else {
        let pb = param_bytes(ps.first());
        let qb = param_bytes(qs.first());
        lemma_param_bytes_len(ps.first());
        lemma_param_bytes_len(qs.first());
        assert forall|i: int| 0 <= i < 34 implies pb[i] == qb[i] by {
            assert(params_bytes(ps)[i] == pb[i]);
            assert(params_bytes(qs)[i] == qb[i]);
        }
        assert(pb =~= qb);
        lemma_param_bytes_injective(ps.first(), qs.first());
        lemma_params_bytes_len(ps.drop_first());
        assert forall|i: int| 0 <= i < params_bytes(ps.drop_first()).len() implies params_bytes(
            ps.drop_first(),
        )[i] == params_bytes(qs.drop_first())[i] by {
            assert(params_bytes(ps)[34 + i] == params_bytes(ps.drop_first())[i]);
            assert(params_bytes(qs)[34 + i] == params_bytes(qs.drop_first())[i]);
        }
        assert(params_bytes(ps.drop_first()) =~= params_bytes(qs.drop_first()));
        lemma_params_bytes_injective(ps.drop_first(), qs.drop_first());
        assert forall|i: int| 0 <= i < ps.len() implies ps[i] == qs[i] by {
            if i == 0 {
                assert(ps[0] == ps.first());
                assert(qs[0] == qs.first());
            } else {
                assert(ps.drop_first()[i - 1] == ps[i]);
                assert(qs.drop_first()[i - 1] == qs[i]);
            }
        }
        assert(ps =~= qs);
    }
}

/// The payload encoding is injective: two calls that differ in nonce,
/// domain, or argument list produce different byte sequences.
pub proof fn lemma_payload_bytes_injective(
    n1: u64,
    d1: Domain,
    p1: Seq<Parameter>,
    n2: u64,
    d2: Domain,
    p2: Seq<Parameter>,
)
    requires
        payload_bytes(n1, d1, p1) == payload_bytes(n2, d2, p2),
    ensures
        n1 == n2,
        d1 == d2,
        p1 == p2,
{
    lemma_auto_spec_u64_to_from_le_bytes();
    let b1 = payload_bytes(n1, d1, p1);
    let b2 = payload_bytes(n2, d2, p2);
    assert forall|i: int| 0 <= i < 8 implies spec_u64_to_le_bytes(n1)[i] == spec_u64_to_le_bytes(
        n2,
    )[i] by {
        assert(b1[1 + i] == spec_u64_to_le_bytes(n1)[i]);
        assert(b2[1 + i] == spec_u64_to_le_bytes(n2)[i]);
    }
    assert(spec_u64_to_le_bytes(n1) =~= spec_u64_to_le_bytes(n2));
    assert(b1[9] == domain_tag(d1));
    assert(b2[9] == domain_tag(d2));
    lemma_domain_tag_injective(d1, d2);
    lemma_params_bytes_len(p1);
    lemma_params_bytes_len(p2);
    assert(spec_u64_to_le_bytes(n2).len() == 8);
    assert(b1.len() == 10 + params_bytes(p1).len());
    assert(b2.len() == 10 + params_bytes(p2).len());
    assert(params_bytes(p1).len() == params_bytes(p2).len());
    assert forall|i: int| 0 <= i < params_bytes(p1).len() implies params_bytes(p1)[i]
        == params_bytes(p2)[i] by {
        assert(b1[10 + i] == params_bytes(p1)[i]);
        assert(b2[10 + i] == params_bytes(p2)[i]);
    }
    assert(params_bytes(p1) =~= params_bytes(p2));
    lemma_params_bytes_injective(p1, p2);
}

/// The byte tag of a domain, as executable code.
pub fn domain_byte(d: &Domain) -> (t: u8)
    ensures
        t == domain_tag(*d),
{
    match d {
        Domain::Approve => 0,
        Domain::Transfer => 1,
        Domain::TransferFrom => 2,
        Domain::Burn => 3,
        Domain::Freeze => 4,
        Domain::Mint => 5,
        Domain::SetAdministrator => 6,
        Domain::Unfreeze => 7,
    }
}

/// Append the eight little-endian bytes of `x`.
fn push_u64(out: &mut Vec<u8>, x: u64)
    ensures
        final(out)@ == old(out)@ + spec_u64_to_le_bytes(x),
{
    let mut t = u64_to_le_bytes(x);
    out.append(&mut t);
}

/// Append the 32 bytes of `k`.
fn push_key(out: &mut Vec<u8>, k: &U256)
    ensures
        final(out)@ == old(out)@ + k@,
{
    let mut i: usize = 0;
    while i < 32
        invariant
            i <= 32,
            out@ =~= old(out)@ + k@.subrange(0, i as int),
        decreases 32 - i,
    {
        out.push(k[i]);
        proof {
            assert(out@ =~= old(out)@ + k@.subrange(0, i + 1));
        }
        i = i + 1;
    }
    proof {
        assert(k@.subrange(0, 32) =~= k@);
    }
}

/// Append the encoding of an identifier.
fn push_id(out: &mut Vec<u8>, id: &Identifier)
    ensures
        final(out)@ == old(out)@ + id_bytes(*id),
{
    match id {
        Identifier::Contract(k) => {
            out.push(0u8);
            push_key(out, k);
        },
        Identifier::Ed25519(k) => {
            out.push(1u8);
            push_key(out, k);
        },
        Identifier::Account(k) => {
            out.push(2u8);
            push_key(out, k);
        },
    }
    proof {
        assert(final(out)@ =~= old(out)@ + id_bytes(*id));
    }
}

/// Append the 34-byte cell of a parameter.
fn push_param(out: &mut Vec<u8>, p: &Parameter)
    ensures
        final(out)@ == old(out)@ + param_bytes(*p),
{
    match p {
        Parameter::Id(id) => {
            out.push(1u8);
            push_id(out, id);
            proof {
                assert(final(out)@ =~= old(out)@ + param_bytes(*p));
            }
        },
        Parameter::Amount(a) => {
            out.push(0u8);
            push_u64(out, *a);
            let ghost base = out@;
            let mut i: usize = 0;
            while i < 25
                invariant
                    i <= 25,
                    out@ =~= base + Seq::new(i as nat, |j: int| 0u8),
                decreases 25 - i,
            {
                out.push(0u8);
                proof {
                    assert(out@ =~= base + Seq::new((i + 1) as nat, |j: int| 0u8));
                }
                i = i + 1;
            }
            proof {
                assert(final(out)@ =~= old(out)@ + param_bytes(*p));
            }
        },
    }
}

/// Encode a version-0 payload from its parts.
pub fn payload_to_bytes(nonce: u64, domain: &Domain, parameters: &Vec<Parameter>) -> (out: Vec<
    u8,
>)
    ensures
        out@ == payload_bytes(nonce, *domain, parameters@),
{
    let mut out: Vec<u8> = Vec::new();
    out.push(0u8);
    push_u64(&mut out, nonce);
    let tag = domain_byte(domain);
    out.push(tag);
    let ghost header = out@;
    proof {
        assert(parameters@.take(0) =~= Seq::<Parameter>::empty());
    }
    let mut i: usize = 0;
    let n: usize = parameters.len();
    while i < n
        invariant
            n == parameters@.len(),
            i <= n,
            out@ =~= header + params_bytes(parameters@.take(i as int)),
        decreases n - i,
    {
        push_param(&mut out, &parameters[i]);
        proof {
            assert(parameters@.take(i + 1) =~= parameters@.take(i as int).push(
                parameters@[i as int],
            ));
            lemma_params_bytes_push(parameters@.take(i as int), parameters@[i as int]);
            assert(out@ =~= header + params_bytes(parameters@.take(i + 1)));
        }
        i = i + 1;
    }
    proof {
        assert(parameters@.take(n as int) =~= parameters@);
        assert(out@ =~= payload_bytes(nonce, *domain, parameters@));
    }
    out
}

impl Message {
    /// The canonical byte encoding of this message; this is exactly what
    /// gets hashed and signed.
    pub fn to_bytes(&self) -> (out: Vec<u8>)
        ensures
            out@ == message_bytes(*self),
    {
        match self {
            Message::V0(v) => payload_to_bytes(v.nonce, &v.domain, &v.parameters),
        }
    }
}

} // verus!
