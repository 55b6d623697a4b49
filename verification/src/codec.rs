//! The binary layout of the committed public values.
//!
//! The guest commits the verifying key and then the record collection; this
//! module fixes the byte layout that order defines and proves it decodes
//! back to exactly what was committed. Every field is length-prefixed with a
//! little-endian 64-bit count, the record collection additionally with the
//! number of records, and a decode succeeds only when the whole buffer is
//! consumed.

use vstd::prelude::*;
use vstd::bytes::{
    lemma_auto_spec_u64_to_from_le_bytes, spec_u64_from_le_bytes, spec_u64_to_le_bytes,
    u64_from_le_bytes, u64_to_le_bytes,
};
use vstd::slice::{slice_subrange, slice_to_vec};
use vstd::string::StrSliceExecFns;
use vstd::utf8::encode_utf8;
use crate::errors::{DecodeError, ProtocolError};
use crate::stream::{Committed, PublicValues};

verus! {

/// The views of a sequence of byte vectors.
pub open spec fn views_of(rs: Seq<Vec<u8>>) -> Seq<Seq<u8>> {
    rs.map_values(|v: Vec<u8>| v@)
}

/// One length-prefixed field.
pub open spec fn enc_field(b: Seq<u8>) -> Seq<u8>
    recommends
        b.len() <= u64::MAX,
{
    spec_u64_to_le_bytes(b.len() as u64) + b
}

/// The records, one length-prefixed field each, in commit order.
pub open spec fn enc_records(rs: Seq<Seq<u8>>) -> Seq<u8>
    decreases rs.len(),
{
    if rs.len() == 0 {
        Seq::empty()
    } else {
        enc_field(rs[0]) + enc_records(rs.drop_first())
    }
}

/// The full public-value layout: the key field, then the record count, then
/// the records.
pub open spec fn enc_public(key: Seq<u8>, rs: Seq<Seq<u8>>) -> Seq<u8> {
    enc_field(key) + spec_u64_to_le_bytes(rs.len() as u64) + enc_records(rs)
}

/// Reads one length-prefixed field; yields the field and the remaining bytes.
pub open spec fn dec_field(b: Seq<u8>) -> Option<(Seq<u8>, Seq<u8>)> {
    if b.len() < 8 {
        None
    } else {
        let n = spec_u64_from_le_bytes(b.take(8)) as int;
        if b.len() >= 8 + n {
            Some((b.subrange(8, 8 + n), b.skip(8 + n)))
        } else {
            None
        }
    }
}

/// Reads `count` length-prefixed fields in order.
pub open spec fn dec_records(b: Seq<u8>, count: nat) -> Option<(Seq<Seq<u8>>, Seq<u8>)>
    decreases count,
{
    if count == 0 {
        Some((Seq::empty(), b))
    } else {
        match dec_field(b) {
            None => None,
            Some((f, rest)) => match dec_records(rest, (count - 1) as nat) {
                None => None,
                Some((fs, rest2)) => Some((seq![f] + fs, rest2)),
            },
        }
    }
}

/// Decodes a full public-value buffer; succeeds only when every byte is
/// consumed.
pub open spec fn dec_public(b: Seq<u8>) -> Option<(Seq<u8>, Seq<Seq<u8>>)> {
    match dec_field(b) {
        None => None,
        Some((key, rest)) => if rest.len() < 8 {
            None
        } else {
            let count = spec_u64_from_le_bytes(rest.take(8)) as nat;
            match dec_records(rest.skip(8), count) {
                None => None,
                Some((rs, leftover)) => if leftover.len() == 0 {
                    Some((key, rs))
                } else {
                    None
                },
            }
        },
    }
}

/// Appends the bytes of `src` to `out`.
fn append_bytes(out: &mut Vec<u8>, src: &Vec<u8>)
    ensures
        final(out)@ == old(out)@ + src@,
{
    proof {
        assert(out@ =~= old(out)@ + src@.take(0));
    }
    let mut i: usize = 0;
    while i < src.len()
        invariant
            i <= src@.len(),
            out@ == old(out)@ + src@.take(i as int),
        decreases src@.len() - i,
    {
        out.push(src[i]);
        proof {
            assert(old(out)@ + src@.take(i + 1 as int) =~= (old(out)@ + src@.take(i as int)).push(
                src@[i as int],
            ));
        }
        i = i + 1;
    }
    proof {
        assert(out@ =~= old(out)@ + src@);
    }
}

/// Appends one length-prefixed field.
fn append_field(out: &mut Vec<u8>, field: &Vec<u8>)
    ensures
        final(out)@ == old(out)@ + enc_field(field@),
{
    let len_bytes = u64_to_le_bytes(field.len() as u64);
    append_bytes(out, &len_bytes);
    append_bytes(out, field);
    proof {
        assert(out@ =~= old(out)@ + enc_field(field@));
    }
}

/// `enc_records` grows at the back as one more field is committed.
proof fn lemma_enc_records_push(s: Seq<Seq<u8>>, x: Seq<u8>)
    ensures
        enc_records(s.push(x)) == enc_records(s) + enc_field(x),
    decreases s.len(),
{
    if s.len() == 0 {
        assert(s.push(x).drop_first() =~= s);
        assert(enc_records(s.push(x)) =~= enc_records(s) + enc_field(x));
    } else {
        lemma_enc_records_push(s.drop_first(), x);
        assert(s.push(x).drop_first() =~= s.drop_first().push(x));
        assert(s.push(x)[0] == s[0]);
        assert(enc_records(s.push(x)) =~= enc_records(s) + enc_field(x));
    }
}

/// Encodes the committed public values under the agreed layout.
pub fn encode_public_values(key: &Vec<u8>, records: &Vec<Vec<u8>>) -> (out: Vec<u8>)
    ensures
        out@ == enc_public(key@, views_of(records@)),
{
    let mut out: Vec<u8> = Vec::new();
    append_field(&mut out, key);
    let count_bytes = u64_to_le_bytes(records.len() as u64);
    append_bytes(&mut out, &count_bytes);
    proof {
        assert(views_of(records@).take(0) =~= Seq::<Seq<u8>>::empty());
        assert(out@ =~= enc_field(key@) + spec_u64_to_le_bytes(records@.len() as u64)
            + enc_records(views_of(records@).take(0)));
    }
    let mut i: usize = 0;
    while i < records.len()
        invariant
            i <= records@.len(),
            out@ == enc_field(key@) + spec_u64_to_le_bytes(records@.len() as u64) + enc_records(
                views_of(records@).take(i as int),
            ),
        decreases records@.len() - i,
    {
        let field = &records[i];
        append_field(&mut out, field);
        proof {
            lemma_enc_records_push(views_of(records@).take(i as int), records@[i as int]@);
            assert(views_of(records@).take(i + 1 as int) =~= views_of(records@).take(
                i as int,
            ).push(records@[i as int]@));
            assert(out@ =~= enc_field(key@) + spec_u64_to_le_bytes(records@.len() as u64)
                + enc_records(views_of(records@).take(i + 1 as int)));
        }
        i = i + 1;
    }
    proof {
        assert(views_of(records@).take(records@.len() as int) =~= views_of(records@));
        assert(out@ =~= enc_public(key@, views_of(records@)));
    }
    out
}

/// Reads one length-prefixed field starting at `pos`, mirroring `dec_field`
/// on the remaining bytes.
fn read_field(bytes: &Vec<u8>, pos: usize) -> (r: Result<(Vec<u8>, usize), DecodeError>)
    requires
        pos <= bytes@.len(),
    ensures
        match (r, dec_field(bytes@.skip(pos as int))) {
            (Ok((field, new_pos)), Some((f, rest))) => field@ == f && pos <= new_pos
                <= bytes@.len() && rest == bytes@.skip(new_pos as int),
            (Err(e), None) => e == DecodeError::Malformed,
            _ => false,
        },
{
    let avail = bytes.len() - pos;
    if avail < 8 {
        return Err(DecodeError::Malformed);
    }
    let len_slice = slice_subrange(bytes.as_slice(), pos, pos + 8);
    proof {
        assert(bytes@.skip(pos as int).take(8) =~= bytes@.subrange(pos as int, pos + 8 as int));
    }
    let n64 = u64_from_le_bytes(len_slice);
    if n64 > (avail - 8) as u64 {
        return Err(DecodeError::Malformed);
    }
    let n = n64 as usize;
    let field_slice = slice_subrange(bytes.as_slice(), pos + 8, pos + 8 + n);
    let field = slice_to_vec(field_slice);
    let new_pos = pos + 8 + n;
    proof {
        assert(bytes@.skip(pos as int).subrange(8, 8 + n as int) =~= bytes@.subrange(
            pos + 8 as int,
            pos + 8 + n as int,
        ));
        assert(bytes@.skip(pos as int).skip(8 + n as int) =~= bytes@.skip(new_pos as int));
    }
    Ok((field, new_pos))
}

/// Decodes a public-value buffer into the key bytes and the records, exactly
/// when the buffer is a well-formed encoding that ends where the records end.
pub fn decode_public_values(bytes: &Vec<u8>) -> (r: Result<(Vec<u8>, Vec<Vec<u8>>), DecodeError>)
    ensures
        match (r, dec_public(bytes@)) {
            (Ok((key, records)), Some((k, rs))) => key@ == k && views_of(records@) == rs,
            (Err(e), None) => e == DecodeError::Malformed,
            _ => false,
        },
{
    proof {
        assert(bytes@.skip(0) =~= bytes@);
    }
    let (key, key_end) = match read_field(bytes, 0) {
        Ok(p) => p,
        Err(e) => { return Err(e); },
    };
    let ghost rest: Seq<u8> = bytes@.skip(key_end as int);
    proof {
        assert(dec_field(bytes@) == Some((key@, rest)));
    }
    if bytes.len() - key_end < 8 {
        proof {
            assert(rest.len() < 8);
        }
        return Err(DecodeError::Malformed);
    }
    let count_slice = slice_subrange(bytes.as_slice(), key_end, key_end + 8);
    proof {
        assert(rest.take(8) =~= bytes@.subrange(key_end as int, key_end as int + 8));
    }
    let count = u64_from_le_bytes(count_slice);
    let ghost rest0: Seq<u8> = rest.skip(8);
    let mut pos = key_end + 8;
    proof {
        assert(bytes@.skip(pos as int) =~= rest0);
        assert(dec_public(bytes@) == (match dec_records(rest0, count as nat) {
            None => None::<(Seq<u8>, Seq<Seq<u8>>)>,
            Some((rs, leftover)) => if leftover.len() == 0 {
                Some((key@, rs))
            } else {
                None::<(Seq<u8>, Seq<Seq<u8>>)>
            },
        }));
    }
    let mut records: Vec<Vec<u8>> = Vec::new();
    let mut remaining = count;
    proof {
        assert(views_of(records@) =~= Seq::<Seq<u8>>::empty());
        assert(views_of(records@) + views_of(records@) =~= views_of(records@));
    }
    while remaining > 0
        invariant
            pos <= bytes@.len(),
            dec_public(bytes@) == (match dec_records(rest0, count as nat) {
                None => None::<(Seq<u8>, Seq<Seq<u8>>)>,
                Some((rs, leftover)) => if leftover.len() == 0 {
                    Some((key@, rs))
                } else {
                    None::<(Seq<u8>, Seq<Seq<u8>>)>
                },
            }),
            dec_records(rest0, count as nat) == (match dec_records(
                bytes@.skip(pos as int),
                remaining as nat,
            ) {
                None => None::<(Seq<Seq<u8>>, Seq<u8>)>,
                Some((fs, tail)) => Some((views_of(records@) + fs, tail)),
            }),
        decreases remaining,
    {
        let field = match read_field(bytes, pos) {
            Ok(p) => p,
            Err(e) => { return Err(e); },
        };
        proof {
            let after: Seq<u8> = bytes@.skip(field.1 as int);
            match dec_records(after, (remaining - 1) as nat) {
                None => {},
                Some((fs, tail)) => {
                    assert(views_of(records@.push(field.0)) =~= views_of(records@).push(
                        field.0@,
                    ));
                    assert(views_of(records@) + (seq![field.0@] + fs) =~= views_of(
                        records@.push(field.0),
                    ) + fs);
                },
            }
        }
        records.push(field.0);
        pos = field.1;
        remaining = remaining - 1;
    }
    proof {
        assert(dec_records(bytes@.skip(pos as int), remaining as nat) == Some((
            Seq::<Seq<u8>>::empty(),
            bytes@.skip(pos as int),
        )));
        assert(views_of(records@) + Seq::<Seq<u8>>::empty() =~= views_of(records@));
    }
    if pos != bytes.len() {
        return Err(DecodeError::Malformed);
    }
    proof {
        assert(bytes@.skip(pos as int).len() == 0);
    }
    Ok((key, records))
}

/// A field decodes back from its own encoding, whatever follows it.
proof fn lemma_dec_field_of_enc(f: Seq<u8>, rest: Seq<u8>)
    requires
        f.len() <= u64::MAX,
    ensures
        dec_field(enc_field(f) + rest) == Some((f, rest)),
{
    lemma_auto_spec_u64_to_from_le_bytes();
    let b = enc_field(f) + rest;
    assert(spec_u64_to_le_bytes(f.len() as u64).len() == 8);
    assert(b.take(8) =~= spec_u64_to_le_bytes(f.len() as u64));
    assert(spec_u64_from_le_bytes(b.take(8)) == f.len() as u64);
    assert(b.subrange(8, 8 + f.len() as int) =~= f);
    assert(b.skip(8 + f.len() as int) =~= rest);
}

/// A record list decodes back from its own encoding, whatever follows it.
proof fn lemma_dec_records_of_enc(rs: Seq<Seq<u8>>, rest: Seq<u8>)
    requires
        forall|i: int| 0 <= i < rs.len() ==> #[trigger] rs[i].len() <= u64::MAX,
    ensures
        dec_records(enc_records(rs) + rest, rs.len()) == Some((rs, rest)),
    decreases rs.len(),
{
    if rs.len() == 0 {
        assert(enc_records(rs) + rest =~= rest);
    } else {
        lemma_dec_records_of_enc(rs.drop_first(), rest);
        assert(enc_records(rs) + rest =~= enc_field(rs[0]) + (enc_records(rs.drop_first())
            + rest));
        lemma_dec_field_of_enc(rs[0], enc_records(rs.drop_first()) + rest);
        assert(seq![rs[0]] + rs.drop_first() =~= rs);
    }
}

/// Round trip of the public-value layout: decoding an encoded buffer yields
/// exactly the key bytes and the record collection that were committed.
pub proof fn lemma_codec_round_trip(key: Seq<u8>, rs: Seq<Seq<u8>>)
    requires
        key.len() <= u64::MAX,
        rs.len() <= u64::MAX,
        forall|i: int| 0 <= i < rs.len() ==> #[trigger] rs[i].len() <= u64::MAX,
    ensures
        dec_public(enc_public(key, rs)) == Some((key, rs)),
{
    lemma_auto_spec_u64_to_from_le_bytes();
    let tail = spec_u64_to_le_bytes(rs.len() as u64) + enc_records(rs);
    assert(enc_public(key, rs) =~= enc_field(key) + tail);
    lemma_dec_field_of_enc(key, tail);
    assert(spec_u64_to_le_bytes(rs.len() as u64).len() == 8);
    assert(tail.take(8) =~= spec_u64_to_le_bytes(rs.len() as u64));
    assert(spec_u64_from_le_bytes(tail.take(8)) == rs.len() as u64);
    assert(tail.skip(8) =~= enc_records(rs) + Seq::<u8>::empty());
    lemma_dec_records_of_enc(rs, Seq::empty());
}

/// The byte image of a well-shaped commit sequence: the UTF-8 bytes of the
/// key, then the UTF-8 bytes of each record, under the public-value layout.
pub open spec fn committed_bytes(key: Seq<char>, records: Seq<Seq<char>>) -> Seq<u8> {
    enc_public(encode_utf8(key), records.map_values(|r: Seq<char>| encode_utf8(r)))
}

/// Frames the guest's committed values as the bytes a downstream decoder
/// reads: exactly the commit order fixes the layout, so only the two-value
/// shape the guest produces is accepted.
pub fn public_value_bytes(pv: &PublicValues) -> (r: Result<Vec<u8>, ProtocolError>)
    ensures
        (pv.items@.len() == 2 && pv.items@[0] is Key && pv.items@[1] is Records) ==> (r matches
            Ok(b)
            && (pv.items@[0] matches Committed::Key(k) && pv.items@[1] matches Committed::Records(
            rs,
        ) && b@ == committed_bytes(k@, rs@.map_values(|s: String| s@)))),
        !(pv.items@.len() == 2 && pv.items@[0] is Key && pv.items@[1] is Records) ==> r == Err::<
            Vec<u8>,
            ProtocolError,
        >(ProtocolError::SchemaMismatch),
{
    if pv.items.len() != 2 {
        return Err(ProtocolError::SchemaMismatch);
    }
    match (&pv.items[0], &pv.items[1]) {
        (Committed::Key(key), Committed::Records(records)) => {
            let key_bytes = key.as_str().as_bytes_vec();
            let mut fields: Vec<Vec<u8>> = Vec::new();
            let mut i: usize = 0;
            while i < records.len()
                invariant
                    i <= records@.len(),
                    fields@.len() == i,
                    forall|j: int|
                        0 <= j < i ==> #[trigger] fields@[j]@ == encode_utf8(records@[j]@),
                decreases records@.len() - i,
            {
                let record = &records[i];
                fields.push(record.as_str().as_bytes_vec());
                proof {
                    assert(fields@[i as int]@ == encode_utf8(records@[i as int]@));
                }
                i = i + 1;
            }
            proof {
                assert(forall|j: int|
                    0 <= j < fields@.len() ==> #[trigger] views_of(fields@)[j] == fields@[j]@);
                assert(views_of(fields@) =~= records@.map_values(|s: String| s@).map_values(
                    |r: Seq<char>| encode_utf8(r),
                ));
            }
            Ok(encode_public_values(&key_bytes, &fields))
        },
        _ => Err(ProtocolError::SchemaMismatch),
    }
}

/// Determinism of the committed bytes: the encoding is a function of the key
/// and the records alone, so two runs on identical inputs produce
/// byte-identical public values.
pub proof fn lemma_encoding_deterministic(
    key1: Seq<u8>,
    rs1: Seq<Seq<u8>>,
    key2: Seq<u8>,
    rs2: Seq<Seq<u8>>,
)
    requires
        key1 == key2,
        rs1 == rs2,
    ensures
        enc_public(key1, rs1) == enc_public(key2, rs2),
{
}

} // verus!
