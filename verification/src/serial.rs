//! The canonical wire encoding of transactions.
//!
//! Every integer is eight little-endian bytes; every byte string is its
//! length followed by its bytes; every list is its element count followed
//! by its encoded elements. A transaction is its calls, proofs and
//! signatures, in that order. The encoding is canonical: the decoder
//! accepts exactly the byte strings the encoder produces, with nothing
//! trailing, and decoding inverts encoding.

use vstd::prelude::*;

use vstd::bytes::{
    lemma_auto_spec_u64_to_from_le_bytes, spec_u64_from_le_bytes, spec_u64_to_le_bytes,
    u64_from_le_bytes, u64_to_le_bytes,
};
use vstd::slice::slice_subrange;

use crate::tx::{bytes_list_view, calls_view, ContractCall, Transaction, TransactionV};

verus! {

/// An integer encodes as eight little-endian bytes.
pub open spec fn enc_u64(x: u64) -> Seq<u8> {
    spec_u64_to_le_bytes(x)
}

/// A byte string encodes as its length followed by its bytes.
pub open spec fn enc_bytes(b: Seq<u8>) -> Seq<u8> {
    enc_u64(b.len() as u64) + b
}

/// A call encodes as its contract id followed by its payload.
pub open spec fn enc_call(c: (u64, Seq<u8>)) -> Seq<u8> {
    enc_u64(c.0) + enc_bytes(c.1)
}

/// The elements of a call list, encoded in order.
pub open spec fn enc_calls_items(s: Seq<(u64, Seq<u8>)>) -> Seq<u8>
    decreases s.len(),
{
    if s.len() == 0 {
        Seq::empty()
    } else {
        enc_call(s[0]) + enc_calls_items(s.drop_first())
    }
}

/// The elements of a byte-string list, encoded in order.
pub open spec fn enc_bytes_items(s: Seq<Seq<u8>>) -> Seq<u8>
    decreases s.len(),
{
    if s.len() == 0 {
        Seq::empty()
    } else {
        enc_bytes(s[0]) + enc_bytes_items(s.drop_first())
    }
}

/// The canonical encoding of a transaction.
pub open spec fn enc_tx(t: TransactionV) -> Seq<u8> {
    enc_u64(t.calls.len() as u64) + enc_calls_items(t.calls) + enc_u64(t.proofs.len() as u64)
        + enc_bytes_items(t.proofs) + enc_u64(t.signatures.len() as u64) + enc_bytes_items(
        t.signatures,
    )
}

/// Every count and length of the value fits the encoding's integers. Any
/// transaction held in memory satisfies this.
pub open spec fn tx_v_wf(t: TransactionV) -> bool {
    &&& t.calls.len() <= u64::MAX
    &&& t.proofs.len() <= u64::MAX
    &&& t.signatures.len() <= u64::MAX
    &&& forall|i: int| 0 <= i < t.calls.len() ==> (#[trigger] t.calls[i]).1.len() <= u64::MAX
    &&& forall|i: int| 0 <= i < t.proofs.len() ==> (#[trigger] t.proofs[i]).len() <= u64::MAX
    &&& forall|i: int|
        0 <= i < t.signatures.len() ==> (#[trigger] t.signatures[i]).len() <= u64::MAX
}

/// Reads one integer: eight little-endian bytes, then the rest.
pub open spec fn dec_u64(b: Seq<u8>) -> Option<(u64, Seq<u8>)> {
    if b.len() >= 8 {
        Some((spec_u64_from_le_bytes(b.take(8)), b.skip(8)))
    } else {
        None
    }
}

/// Reads one byte string: its length, then that many bytes.
pub open spec fn dec_bytes(b: Seq<u8>) -> Option<(Seq<u8>, Seq<u8>)> {
    match dec_u64(b) {
        Some((n, r)) => if r.len() >= n {
            Some((r.take(n as int), r.skip(n as int)))
        } else {
            None
        },
        None => None,
    }
}

/// Reads one call: its contract id, then its payload.
pub open spec fn dec_call(b: Seq<u8>) -> Option<((u64, Seq<u8>), Seq<u8>)> {
    match dec_u64(b) {
        Some((id, r)) => match dec_bytes(r) {
            Some((data, r2)) => Some(((id, data), r2)),
            None => None,
        },
        None => None,
    }
}

/// Reads exactly `n` calls.
pub open spec fn dec_calls_items(b: Seq<u8>, n: nat) -> Option<(Seq<(u64, Seq<u8>)>, Seq<u8>)>
    decreases n,
{
    if n == 0 {
        Some((Seq::empty(), b))
    } else {
        match dec_call(b) {
            Some((c, r)) => match dec_calls_items(r, (n - 1) as nat) {
                Some((items, r2)) => Some((seq![c] + items, r2)),
                None => None,
            },
            None => None,
        }
    }
}

/// Reads exactly `n` byte strings.
pub open spec fn dec_bytes_items(b: Seq<u8>, n: nat) -> Option<(Seq<Seq<u8>>, Seq<u8>)>
    decreases n,
{
    if n == 0 {
        Some((Seq::empty(), b))
    } else {
        match dec_bytes(b) {
            Some((c, r)) => match dec_bytes_items(r, (n - 1) as nat) {
                Some((items, r2)) => Some((seq![c] + items, r2)),
                None => None,
            },
            None => None,
        }
    }
}

/// Reads a whole transaction; the input must be consumed exactly.
pub open spec fn dec_tx(b: Seq<u8>) -> Option<TransactionV> {
    match dec_u64(b) {
        Some((nc, r)) => match dec_calls_items(r, nc as nat) {
            Some((calls, r)) => match dec_u64(r) {
                Some((np, r)) => match dec_bytes_items(r, np as nat) {
                    Some((proofs, r)) => match dec_u64(r) {
                        Some((ns, r)) => match dec_bytes_items(r, ns as nat) {
                            Some((signatures, r)) => if r.len() == 0 {
                                Some(TransactionV { calls, proofs, signatures })
                            } else {
                                None
                            },
                            None => None,
                        },
                        None => None,
                    },
                    None => None,
                },
                None => None,
            },
            None => None,
        },
        None => None,
    }
}

/// Reading an encoded integer yields the integer and the rest.
pub proof fn lemma_dec_enc_u64(x: u64, rest: Seq<u8>)
    ensures
        dec_u64(enc_u64(x) + rest) == Some((x, rest)),
        enc_u64(x).len() == 8,
{
    lemma_auto_spec_u64_to_from_le_bytes();
    let b = enc_u64(x) + rest;
    assert(b.take(8) =~= enc_u64(x));
    assert(b.skip(8) =~= rest);
}

/// Reading an encoded byte string yields the string and the rest.
pub proof fn lemma_dec_enc_bytes(s: Seq<u8>, rest: Seq<u8>)
    requires
        s.len() <= u64::MAX,
    ensures
        dec_bytes(enc_bytes(s) + rest) == Some((s, rest)),
{
    let n = s.len() as u64;
    let b = enc_bytes(s) + rest;
    assert(b =~= enc_u64(n) + (s + rest));
    lemma_dec_enc_u64(n, s + rest);
    assert((s + rest).take(n as int) =~= s);
    assert((s + rest).skip(n as int) =~= rest);
}

/// Reading an encoded call yields the call and the rest.
pub proof fn lemma_dec_enc_call(c: (u64, Seq<u8>), rest: Seq<u8>)
    requires
        c.1.len() <= u64::MAX,
    ensures
        dec_call(enc_call(c) + rest) == Some((c, rest)),
{
    let b = enc_call(c) + rest;
    assert(b =~= enc_u64(c.0) + (enc_bytes(c.1) + rest));
    lemma_dec_enc_u64(c.0, enc_bytes(c.1) + rest);
    lemma_dec_enc_bytes(c.1, rest);
}

/// Reading `n` encoded calls yields them and the rest.
pub proof fn lemma_dec_enc_calls_items(s: Seq<(u64, Seq<u8>)>, rest: Seq<u8>)
    requires
        forall|i: int| 0 <= i < s.len() ==> (#[trigger] s[i]).1.len() <= u64::MAX,
    ensures
        dec_calls_items(enc_calls_items(s) + rest, s.len()) == Some((s, rest)),
    decreases s.len(),
{
    if s.len() == 0 {
        assert(enc_calls_items(s) + rest =~= rest);
        assert(dec_calls_items(rest, 0) == Some((Seq::<(u64, Seq<u8>)>::empty(), rest)));
        assert(s =~= Seq::<(u64, Seq<u8>)>::empty());
    } else {
        let b = enc_calls_items(s) + rest;
        let tail = s.drop_first();
        assert(b =~= enc_call(s[0]) + (enc_calls_items(tail) + rest));
        lemma_dec_enc_call(s[0], enc_calls_items(tail) + rest);
        lemma_dec_enc_calls_items(tail, rest);
        assert(seq![s[0]] + tail =~= s);
    }
}

/// Reading `n` encoded byte strings yields them and the rest.
pub proof fn lemma_dec_enc_bytes_items(s: Seq<Seq<u8>>, rest: Seq<u8>)
    requires
        forall|i: int| 0 <= i < s.len() ==> (#[trigger] s[i]).len() <= u64::MAX,
    ensures
        dec_bytes_items(enc_bytes_items(s) + rest, s.len()) == Some((s, rest)),
    decreases s.len(),
{
    if s.len() == 0 {
        assert(enc_bytes_items(s) + rest =~= rest);
        assert(s =~= Seq::<Seq<u8>>::empty());
    } else {
        let b = enc_bytes_items(s) + rest;
        let tail = s.drop_first();
        assert(b =~= enc_bytes(s[0]) + (enc_bytes_items(tail) + rest));
        lemma_dec_enc_bytes(s[0], enc_bytes_items(tail) + rest);
        lemma_dec_enc_bytes_items(tail, rest);
        assert(seq![s[0]] + tail =~= s);
    }
}

/// Decoding inverts encoding: the canonical bytes of a transaction decode
/// back to the same transaction.
pub proof fn lemma_codec_round_trip(t: TransactionV)
    requires
        tx_v_wf(t),
    ensures
        dec_tx(enc_tx(t)) == Some(t),
{
    let nc = t.calls.len() as u64;
    let np = t.proofs.len() as u64;
    let ns = t.signatures.len() as u64;
    let r5 = enc_bytes_items(t.signatures);
    let r4 = enc_u64(ns) + r5;
    let r3 = enc_bytes_items(t.proofs) + r4;
    let r2 = enc_u64(np) + r3;
    let r1 = enc_calls_items(t.calls) + r2;
    assert(enc_tx(t) =~= enc_u64(nc) + r1);
    lemma_dec_enc_u64(nc, r1);
    lemma_dec_enc_calls_items(t.calls, r2);
    lemma_dec_enc_u64(np, r3);
    lemma_dec_enc_bytes_items(t.proofs, r4);
    lemma_dec_enc_u64(ns, r5);
    lemma_dec_enc_bytes_items(t.signatures, Seq::<u8>::empty());
    assert(enc_bytes_items(t.signatures) + Seq::<u8>::empty() =~= r5);
}

/// The canonical encoding is injective: transactions with the same bytes
/// are the same transaction.
pub proof fn lemma_enc_injective(t1: TransactionV, t2: TransactionV)
    requires
        tx_v_wf(t1),
        tx_v_wf(t2),
        enc_tx(t1) == enc_tx(t2),
    ensures
        t1 == t2,
{
    lemma_codec_round_trip(t1);
    lemma_codec_round_trip(t2);
}

/// The length of any in-memory sequence fits the encoding's integers.
proof fn lemma_exec_tx_wf(t: Transaction)
    ensures
        tx_v_wf(t@),
{
    assert(t.calls.len() <= usize::MAX);
    assert(t.proofs.len() <= usize::MAX);
    assert(t.signatures.len() <= usize::MAX);
    assert(t@.calls.len() == t.calls@.len());
    assert(t@.proofs.len() == t.proofs@.len());
    assert(t@.signatures.len() == t.signatures@.len());
    assert forall|i: int| 0 <= i < t@.calls.len() implies (#[trigger] t@.calls[i]).1.len()
        <= u64::MAX by {
        assert(t@.calls[i].1 == t.calls@[i].data@);
        assert(t.calls@[i].data.len() <= usize::MAX);
    }
    assert forall|i: int| 0 <= i < t@.proofs.len() implies (#[trigger] t@.proofs[i]).len()
        <= u64::MAX by {
        assert(t@.proofs[i] == t.proofs@[i]@);
        assert(t.proofs@[i].len() <= usize::MAX);
    }
    assert forall|i: int| 0 <= i < t@.signatures.len() implies (#[trigger] t@.signatures[i]).len()
        <= u64::MAX by {
        assert(t@.signatures[i] == t.signatures@[i]@);
        assert(t.signatures@[i].len() <= usize::MAX);
    }
}

fn push_u64(out: &mut Vec<u8>, x: u64)
    ensures
        final(out)@ == old(out)@ + enc_u64(x),
{
    let mut b = u64_to_le_bytes(x);
    out.append(&mut b);
}

fn push_chunk(out: &mut Vec<u8>, b: &Vec<u8>)
    ensures
        final(out)@ == old(out)@ + enc_bytes(b@),
{
    let ghost pre = out@;
    push_u64(out, b.len() as u64);
    let mut c = b.clone();
    proof {
        assert(c@ =~= b@);
    }
    out.append(&mut c);
    proof {
        assert(out@ =~= pre + enc_bytes(b@));
    }
}

/// Serializes a transaction into its canonical bytes.
pub fn encode_tx(t: &Transaction) -> (r: Vec<u8>)
    ensures
        r@ == enc_tx(t@),
{
    let mut out: Vec<u8> = Vec::new();

    push_u64(&mut out, t.calls.len() as u64);
    let mut i: usize = 0;
    while i < t.calls.len()
        invariant
            i <= t.calls.len(),
            out@ == enc_u64(t.calls@.len() as u64) + enc_calls_items(
                calls_view(t.calls@).take(i as int),
            ),
        decreases t.calls.len() - i,
    {
        let ghost pre = out@;
        push_u64(&mut out, t.calls[i].contract_id);
        push_chunk(&mut out, &t.calls[i].data);
        i = i + 1;
        proof {
            let cv = calls_view(t.calls@);
            lemma_enc_items_snoc_call(cv.take(i - 1), cv[i - 1]);
            assert(cv.take(i as int).drop_last() =~= cv.take(i - 1));
            assert(cv.take(i as int) =~= cv.take(i - 1).push(cv[i - 1]));
            assert(out@ =~= pre + enc_call(cv[i - 1]));
            assert(out@ =~= enc_u64(t.calls@.len() as u64) + enc_calls_items(cv.take(i as int)));
        }
    }
    proof {
        assert(calls_view(t.calls@).take(t.calls@.len() as int) =~= calls_view(t.calls@));
    }

    push_u64(&mut out, t.proofs.len() as u64);
    let ghost mid1 = out@;
    let mut j: usize = 0;
    while j < t.proofs.len()
        invariant
            j <= t.proofs.len(),
            out@ == mid1 + enc_bytes_items(bytes_list_view(t.proofs@).take(j as int)),
        decreases t.proofs.len() - j,
    {
        let ghost pre = out@;
        push_chunk(&mut out, &t.proofs[j]);
        j = j + 1;
        proof {
            let pv = bytes_list_view(t.proofs@);
            lemma_enc_items_snoc_bytes(pv.take(j - 1), pv[j - 1]);
            assert(pv.take(j as int) =~= pv.take(j - 1).push(pv[j - 1]));
            assert(out@ =~= mid1 + enc_bytes_items(pv.take(j as int)));
        }
    }
    proof {
        assert(bytes_list_view(t.proofs@).take(t.proofs@.len() as int) =~= bytes_list_view(
            t.proofs@,
        ));
    }

    push_u64(&mut out, t.signatures.len() as u64);
    let ghost mid2 = out@;
    let mut k: usize = 0;
    while k < t.signatures.len()
        invariant
            k <= t.signatures.len(),
            out@ == mid2 + enc_bytes_items(bytes_list_view(t.signatures@).take(k as int)),
        decreases t.signatures.len() - k,
    {
        let ghost pre = out@;
        push_chunk(&mut out, &t.signatures[k]);
        k = k + 1;
        proof {
            let sv = bytes_list_view(t.signatures@);
            lemma_enc_items_snoc_bytes(sv.take(k - 1), sv[k - 1]);
            assert(sv.take(k as int) =~= sv.take(k - 1).push(sv[k - 1]));
            assert(out@ =~= mid2 + enc_bytes_items(sv.take(k as int)));
        }
    }
    proof {
        assert(bytes_list_view(t.signatures@).take(t.signatures@.len() as int) =~= bytes_list_view(
            t.signatures@,
        ));
        assert(out@ =~= enc_tx(t@));
    }
    out
}

/// Appending one call to a list appends its encoding.
proof fn lemma_enc_items_snoc_call(s: Seq<(u64, Seq<u8>)>, c: (u64, Seq<u8>))
    ensures
        enc_calls_items(s.push(c)) == enc_calls_items(s) + enc_call(c),
    decreases s.len(),
{
    if s.len() == 0 {
        assert(s.push(c)[0] == c);
        assert(s.push(c).drop_first() =~= Seq::<(u64, Seq<u8>)>::empty());
        assert(enc_calls_items(Seq::<(u64, Seq<u8>)>::empty()) == Seq::<u8>::empty());
        assert(enc_calls_items(s.push(c)) =~= enc_call(c));
        assert(enc_calls_items(s) + enc_call(c) =~= enc_call(c));
    } else {
        assert(s.push(c)[0] == s[0]);
        assert(s.push(c).drop_first() =~= s.drop_first().push(c));
        lemma_enc_items_snoc_call(s.drop_first(), c);
        assert(enc_calls_items(s.push(c)) =~= enc_calls_items(s) + enc_call(c));
    }
}

/// Appending one byte string to a list appends its encoding.
proof fn lemma_enc_items_snoc_bytes(s: Seq<Seq<u8>>, c: Seq<u8>)
    ensures
        enc_bytes_items(s.push(c)) == enc_bytes_items(s) + enc_bytes(c),
    decreases s.len(),
{
    if s.len() == 0 {
        assert(s.push(c)[0] == c);
        assert(s.push(c).drop_first() =~= Seq::<Seq<u8>>::empty());
        assert(enc_bytes_items(Seq::<Seq<u8>>::empty()) == Seq::<u8>::empty());
        assert(enc_bytes_items(s.push(c)) =~= enc_bytes(c));
        assert(enc_bytes_items(s) + enc_bytes(c) =~= enc_bytes(c));
    } else {
        assert(s.push(c)[0] == s[0]);
        assert(s.push(c).drop_first() =~= s.drop_first().push(c));
        lemma_enc_items_snoc_bytes(s.drop_first(), c);
        assert(enc_bytes_items(s.push(c)) =~= enc_bytes_items(s) + enc_bytes(c));
    }
}

fn read_u64_at(bytes: &Vec<u8>, pos: usize) -> (r: u64)
    requires
        pos + 8 <= bytes@.len(),
    ensures
        r == spec_u64_from_le_bytes(bytes@.subrange(pos as int, pos + 8)),
{
    let l = bytes.len();
    let s = slice_subrange(bytes.as_slice(), pos, pos + 8);
    u64_from_le_bytes(s)
}

fn read_call(bytes: &Vec<u8>, pos: usize) -> (r: Option<(ContractCall, usize)>)
    requires
        pos <= bytes@.len(),
    ensures
        r matches Some(p) ==> (dec_call(bytes@.skip(pos as int)) == Some(
            (p.0@, bytes@.skip(p.1 as int)),
        ) && pos <= p.1 <= bytes@.len()),
        r is None ==> dec_call(bytes@.skip(pos as int)) is None,
{
    let ghost rest0 = bytes@.skip(pos as int);
    if bytes.len() - pos < 8 {
        return None;
    }
    let id = read_u64_at(bytes, pos);
    let pos2 = pos + 8;
    proof {
        assert(rest0.take(8) =~= bytes@.subrange(pos as int, pos as int + 8));
        assert(rest0.skip(8) =~= bytes@.skip(pos2 as int));
        assert(dec_u64(rest0) == Some((id, bytes@.skip(pos2 as int))));
    }
    match read_chunk(bytes, pos2) {
        Some((data, pos3)) => {
            let r = Some((ContractCall { contract_id: id, data }, pos3));
            r
        },
        None => None,
    }
}

fn read_chunk(bytes: &Vec<u8>, pos: usize) -> (r: Option<(Vec<u8>, usize)>)
    requires
        pos <= bytes@.len(),
    ensures
        r matches Some(p) ==> (dec_bytes(bytes@.skip(pos as int)) == Some(
            (p.0@, bytes@.skip(p.1 as int)),
        ) && pos <= p.1 <= bytes@.len()),
        r is None ==> dec_bytes(bytes@.skip(pos as int)) is None,
{
    let ghost rest0 = bytes@.skip(pos as int);
    if bytes.len() - pos < 8 {
        return None;
    }
    let n = read_u64_at(bytes, pos);
    let pos2 = pos + 8;
    proof {
        assert(rest0.take(8) =~= bytes@.subrange(pos as int, pos as int + 8));
        assert(rest0.skip(8) =~= bytes@.skip(pos2 as int));
        assert(dec_u64(rest0) == Some((n, bytes@.skip(pos2 as int))));
    }
    let remaining = bytes.len() - pos2;
    if n > remaining as u64 {
        return None;
    }
    let nn = n as usize;
    let mut data: Vec<u8> = Vec::new();
    let mut k: usize = 0;
    while k < nn
        invariant
            k <= nn,
            pos2 + nn <= bytes@.len(),
            bytes@.len() <= usize::MAX,
            data@ == bytes@.subrange(pos2 as int, pos2 + k),
        decreases nn - k,
    {
        data.push(bytes[pos2 + k]);
        k = k + 1;
        proof {
            assert(data@ =~= bytes@.subrange(pos2 as int, pos2 + k));
        }
    }
    let pos3 = pos2 + nn;
    proof {
        let rest1 = bytes@.skip(pos2 as int);
        assert(rest1.take(n as int) =~= bytes@.subrange(pos2 as int, pos2 + nn));
        assert(rest1.skip(n as int) =~= bytes@.skip(pos3 as int));
    }
    Some((data, pos3))
}

fn parse_calls(bytes: &Vec<u8>, start: usize, n: u64) -> (r: Option<(Vec<ContractCall>, usize)>)
    requires
        start <= bytes@.len(),
    ensures
        r matches Some(p) ==> (dec_calls_items(bytes@.skip(start as int), n as nat) == Some(
            (calls_view(p.0@), bytes@.skip(p.1 as int)),
        ) && start <= p.1 <= bytes@.len()),
        r is None ==> dec_calls_items(bytes@.skip(start as int), n as nat) is None,
{
    let mut acc: Vec<ContractCall> = Vec::new();
    let mut pos: usize = start;
    let mut i: u64 = 0;
    while i < n
        invariant
            i <= n,
            start <= pos <= bytes@.len(),
            dec_calls_items(bytes@.skip(start as int), n as nat) == (match dec_calls_items(
                bytes@.skip(pos as int),
                (n - i) as nat,
            ) {
                Some((items, r)) => Some((calls_view(acc@) + items, r)),
                None => None,
            }),
        decreases n - i,
    {
        let ghost rest_i = bytes@.skip(pos as int);
        match read_call(bytes, pos) {
            Some((c, newpos)) => {
                proof {
                    let rec = dec_calls_items(bytes@.skip(newpos as int), (n - i - 1) as nat);
                    match rec {
                        Some((items2, r2)) => {
                            assert(calls_view(acc@.push(c)) =~= calls_view(acc@).push(c@));
                            assert(calls_view(acc@) + (seq![c@] + items2) =~= calls_view(
                                acc@.push(c),
                            ) + items2);
                        },
                        None => {},
                    }
                }
                acc.push(c);
                pos = newpos;
                i = i + 1;
            },
            None => {
                return None;
            },
        }
    }
    proof {
        assert(dec_calls_items(bytes@.skip(pos as int), 0) == Some(
            (Seq::<(u64, Seq<u8>)>::empty(), bytes@.skip(pos as int)),
        ));
        assert(calls_view(acc@) + Seq::<(u64, Seq<u8>)>::empty() =~= calls_view(acc@));
    }
    Some((acc, pos))
}

fn parse_chunks(bytes: &Vec<u8>, start: usize, n: u64) -> (r: Option<(Vec<Vec<u8>>, usize)>)
    requires
        start <= bytes@.len(),
    ensures
        r matches Some(p) ==> (dec_bytes_items(bytes@.skip(start as int), n as nat) == Some(
            (bytes_list_view(p.0@), bytes@.skip(p.1 as int)),
        ) && start <= p.1 <= bytes@.len()),
        r is None ==> dec_bytes_items(bytes@.skip(start as int), n as nat) is None,
{
    let mut acc: Vec<Vec<u8>> = Vec::new();
    let mut pos: usize = start;
    let mut i: u64 = 0;
    while i < n
        invariant
            i <= n,
            start <= pos <= bytes@.len(),
            dec_bytes_items(bytes@.skip(start as int), n as nat) == (match dec_bytes_items(
                bytes@.skip(pos as int),
                (n - i) as nat,
            ) {
                Some((items, r)) => Some((bytes_list_view(acc@) + items, r)),
                None => None,
            }),
        decreases n - i,
    {
        match read_chunk(bytes, pos) {
            Some((c, newpos)) => {
                proof {
                    let rec = dec_bytes_items(bytes@.skip(newpos as int), (n - i - 1) as nat);
                    match rec {
                        Some((items2, r2)) => {
                            assert(bytes_list_view(acc@.push(c)) =~= bytes_list_view(acc@).push(
                                c@,
                            ));
                            assert(bytes_list_view(acc@) + (seq![c@] + items2) =~= bytes_list_view(
                                acc@.push(c),
                            ) + items2);
                        },
                        None => {},
                    }
                }
                acc.push(c);
                pos = newpos;
                i = i + 1;
            },
            None => {
                return None;
            },
        }
    }
    proof {
        assert(bytes_list_view(acc@) + Seq::<Seq<u8>>::empty() =~= bytes_list_view(acc@));
    }
    Some((acc, pos))
}

/// Parses a transaction out of its canonical bytes, accepting exactly the
/// encoder's output: a count or length that overruns the input, or bytes
/// left over at the end, reject the input.
pub fn decode_tx(bytes: &Vec<u8>) -> (r: Option<Transaction>)
    ensures
        r matches Some(tx) ==> dec_tx(bytes@) == Some(tx@),
        r is None ==> dec_tx(bytes@) is None,
{
    proof {
        assert(bytes@.skip(0) =~= bytes@);
    }
    if bytes.len() < 8 {
        return None;
    }
    let nc = read_u64_at(bytes, 0);
    proof {
        assert(bytes@.take(8) =~= bytes@.subrange(0, 8));
        assert(dec_u64(bytes@) == Some((nc, bytes@.skip(8))));
    }
    let (calls, pos1) = match parse_calls(bytes, 8, nc) {
        Some(p) => p,
        None => {
            return None;
        },
    };
    if bytes.len() - pos1 < 8 {
        return None;
    }
    let np = read_u64_at(bytes, pos1);
    proof {
        let r1 = bytes@.skip(pos1 as int);
        assert(r1.take(8) =~= bytes@.subrange(pos1 as int, pos1 + 8));
        assert(r1.skip(8) =~= bytes@.skip(pos1 + 8));
        assert(dec_u64(r1) == Some((np, bytes@.skip(pos1 + 8))));
    }
    let (proofs, pos2) = match parse_chunks(bytes, pos1 + 8, np) {
        Some(p) => p,
        None => {
            return None;
        },
    };
    if bytes.len() - pos2 < 8 {
        return None;
    }
    let ns = read_u64_at(bytes, pos2);
    proof {
        let r2 = bytes@.skip(pos2 as int);
        assert(r2.take(8) =~= bytes@.subrange(pos2 as int, pos2 + 8));
        assert(r2.skip(8) =~= bytes@.skip(pos2 + 8));
        assert(dec_u64(r2) == Some((ns, bytes@.skip(pos2 + 8))));
    }
    let (signatures, pos3) = match parse_chunks(bytes, pos2 + 8, ns) {
        Some(p) => p,
        None => {
            return None;
        },
    };
    if pos3 != bytes.len() {
        proof {
            assert(bytes@.skip(pos3 as int).len() > 0);
        }
        return None;
    }
    proof {
        assert(bytes@.skip(pos3 as int).len() == 0);
    }
    Some(Transaction { calls, proofs, signatures })
}

/// Encoding an in-memory transaction and decoding the bytes yields the
/// same transaction back.
pub proof fn lemma_encode_decode_tx(t: Transaction)
    ensures
        dec_tx(enc_tx(t@)) == Some(t@),
{
    lemma_exec_tx_wf(t);
    lemma_codec_round_trip(t@);
}

} // verus!
