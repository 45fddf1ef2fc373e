//! The fixed binary layout of the ledger's records: every multi-byte integer
//! is little-endian, every text field is prefixed by its 32-bit length, and a
//! campaign record is the concatenation
//! `admin (32 bytes) . name . description . image_link . amount_donated (8 bytes)`.
//! A byte sequence is a valid record only if it is consumed exactly, with no
//! trailing bytes.

use vstd::prelude::*;
use vstd::bytes::*;
use crate::keys::Pubkey;
use crate::record::CampaignRecord;
use crate::record::CampaignRecordView;
use crate::record::WithdrawRequest;

verus! {

/// A length-prefixed text field: 4 little-endian length bytes, then the bytes.
pub open spec fn enc_str(s: Seq<u8>) -> Seq<u8> {
    spec_u32_to_le_bytes(s.len() as u32) + s
}

/// The encoding of a campaign record.
pub open spec fn enc_campaign(r: CampaignRecordView) -> Seq<u8> {
    r.admin + enc_str(r.name) + enc_str(r.description) + enc_str(r.image_link)
        + spec_u64_to_le_bytes(r.amount_donated)
}

/// The encoding of a withdraw request (its amount alone).
pub open spec fn enc_withdraw(amount: u64) -> Seq<u8> {
    spec_u64_to_le_bytes(amount)
}

/// Decodes a byte sequence as a campaign record; the whole sequence must be
/// consumed, exactly as the wire format demands.
pub open spec fn dec_campaign(b: Seq<u8>) -> Option<CampaignRecordView> {
    if b.len() < 36 {
        None
    } else {
        let admin = b.subrange(0, 32);
        let nlen = spec_u32_from_le_bytes(b.subrange(32, 36)) as int;
        if b.len() < 36 + nlen + 4 {
            None
        } else {
            let name = b.subrange(36, 36 + nlen);
            let dl_off = 36 + nlen;
            let dlen = spec_u32_from_le_bytes(b.subrange(dl_off, dl_off + 4)) as int;
            if b.len() < dl_off + 4 + dlen + 4 {
                None
            } else {
                let description = b.subrange(dl_off + 4, dl_off + 4 + dlen);
                let il_off = dl_off + 4 + dlen;
                let ilen = spec_u32_from_le_bytes(b.subrange(il_off, il_off + 4)) as int;
                if b.len() != il_off + 4 + ilen + 8 {
                    None
                } else {
                    let image_link = b.subrange(il_off + 4, il_off + 4 + ilen);
                    let amount_donated = spec_u64_from_le_bytes(
                        b.subrange(il_off + 4 + ilen, il_off + 4 + ilen + 8),
                    );
                    Some(
                        CampaignRecordView {
                            admin,
                            name,
                            description,
                            image_link,
                            amount_donated,
                        },
                    )
                }
            }
        }
    }
}

/// Decodes a byte sequence as a withdraw request: exactly 8 bytes.
pub open spec fn dec_withdraw(b: Seq<u8>) -> Option<u64> {
    if b.len() == 8 {
        Some(spec_u64_from_le_bytes(b))
    } else {
        None
    }
}

/// The encoded size of a record: the fixed 52 bytes of key, three length
/// prefixes and counter, plus the text bytes.
pub proof fn lemma_enc_campaign_len(r: CampaignRecordView)
    ensures
        enc_campaign(r).len() == r.admin.len() + 20 + r.name.len() + r.description.len()
            + r.image_link.len(),
{
    lemma_auto_spec_u32_to_from_le_bytes();
    lemma_auto_spec_u64_to_from_le_bytes();
}

/// Decoding inverts encoding: every well-formed record comes back from its
/// own encoding unchanged, in all fields.
pub proof fn lemma_campaign_codec_round_trip(r: CampaignRecordView)
    requires
        r.wf(),
    ensures
        dec_campaign(enc_campaign(r)) == Some(r),
{
    lemma_auto_spec_u32_to_from_le_bytes();
    lemma_auto_spec_u64_to_from_le_bytes();
    let b = enc_campaign(r);
    let n = r.name.len() as int;
    let d = r.description.len() as int;
    let i = r.image_link.len() as int;
    lemma_enc_campaign_len(r);
    assert(b.len() == 52 + n + d + i);
    assert(b.subrange(0, 32) =~= r.admin);
    assert(b.subrange(32, 36) =~= spec_u32_to_le_bytes(r.name.len() as u32));
    assert(spec_u32_from_le_bytes(b.subrange(32, 36)) == r.name.len() as u32);
    assert(spec_u32_from_le_bytes(b.subrange(32, 36)) as int == n);
    assert(b.subrange(36, 36 + n) =~= r.name);
    let dl_off = 36 + n;
    assert(b.subrange(dl_off, dl_off + 4) =~= spec_u32_to_le_bytes(r.description.len() as u32));
    assert(spec_u32_from_le_bytes(b.subrange(dl_off, dl_off + 4)) as int == d);
    assert(b.subrange(dl_off + 4, dl_off + 4 + d) =~= r.description);
    let il_off = dl_off + 4 + d;
    assert(b.subrange(il_off, il_off + 4) =~= spec_u32_to_le_bytes(r.image_link.len() as u32));
    assert(spec_u32_from_le_bytes(b.subrange(il_off, il_off + 4)) as int == i);
    assert(b.subrange(il_off + 4, il_off + 4 + i) =~= r.image_link);
    assert(b.subrange(il_off + 4 + i, il_off + 4 + i + 8) =~= spec_u64_to_le_bytes(
        r.amount_donated,
    ));
    assert(spec_u64_from_le_bytes(b.subrange(il_off + 4 + i, il_off + 4 + i + 8))
        == r.amount_donated);
    assert(dec_campaign(b) matches Some(rec) && rec =~= r);
}

/// Encoding inverts decoding: every byte sequence that decodes does so to a
/// well-formed record whose encoding is that very sequence.
pub proof fn lemma_campaign_codec_sound(b: Seq<u8>)
    requires
        dec_campaign(b) is Some,
    ensures
        dec_campaign(b).unwrap().wf(),
        enc_campaign(dec_campaign(b).unwrap()) == b,
{
    lemma_auto_spec_u32_to_from_le_bytes();
    lemma_auto_spec_u64_to_from_le_bytes();
    let r = dec_campaign(b).unwrap();
    let n = r.name.len() as int;
    let d = r.description.len() as int;
    let i = r.image_link.len() as int;
    assert(spec_u32_to_le_bytes(r.name.len() as u32) =~= b.subrange(32, 36));
    let dl_off = 36 + n;
    assert(spec_u32_to_le_bytes(r.description.len() as u32) =~= b.subrange(dl_off, dl_off + 4));
    let il_off = dl_off + 4 + d;
    assert(spec_u32_to_le_bytes(r.image_link.len() as u32) =~= b.subrange(il_off, il_off + 4));
    assert(spec_u64_to_le_bytes(r.amount_donated) =~= b.subrange(
        il_off + 4 + i,
        il_off + 4 + i + 8,
    ));
    assert(enc_campaign(r) =~= b);
}

/// Appends all of `src` to `dst`.
pub fn push_all(dst: &mut Vec<u8>, src: &Vec<u8>)
    ensures
        final(dst)@ == old(dst)@ + src@,
{
    let n = src.len();
    let mut i: usize = 0;
    while i < n
        invariant
            n == src@.len(),
            i <= n,
            dst@ == old(dst)@ + src@.subrange(0, i as int),
        decreases n - i,
    {
        dst.push(src[i]);
        assert(src@.subrange(0, i + 1) =~= src@.subrange(0, i as int).push(src@[i as int]));
        i += 1;
    }
    assert(src@.subrange(0, n as int) =~= src@);
}

/// Overwrites the front of `dst` with `src`, leaving the bytes beyond
/// `src.len()` as they were — the way a record is written into an account's
/// larger data buffer.
pub fn write_prefix(dst: &mut Vec<u8>, src: &Vec<u8>)
    requires
        src@.len() <= old(dst)@.len(),
    ensures
        final(dst)@ == src@ + old(dst)@.skip(src@.len() as int),
{
    let n = src.len();
    let mut i: usize = 0;
    while i < n
        invariant
            n == src@.len(),
            i <= n,
            n <= dst@.len(),
            dst@.len() == old(dst)@.len(),
            forall|j: int| 0 <= j < i ==> dst@[j] == src@[j],
            forall|j: int| i <= j < dst@.len() ==> dst@[j] == old(dst)@[j],
        decreases n - i,
    {
        let v = src[i];
        dst.set(i, v);
        i += 1;
    }
    assert(dst@ =~= src@ + old(dst)@.skip(src@.len() as int));
}

/// Encodes a record into fresh bytes, in the fixed layout.
pub fn encode_campaign(r: &CampaignRecord) -> (out: Vec<u8>)
    requires
        r.wf(),
    ensures
        out@ == enc_campaign(r@),
{
    let mut out: Vec<u8> = Vec::new();
    push_all(&mut out, &r.admin.bytes);
    let mut nl = u32_to_le_bytes(r.name.len() as u32);
    out.append(&mut nl);
    push_all(&mut out, &r.name);
    let mut dl = u32_to_le_bytes(r.description.len() as u32);
    out.append(&mut dl);
    push_all(&mut out, &r.description);
    let mut il = u32_to_le_bytes(r.image_link.len() as u32);
    out.append(&mut il);
    push_all(&mut out, &r.image_link);
    let mut ab = u64_to_le_bytes(r.amount_donated);
    out.append(&mut ab);
    assert(out@ =~= enc_campaign(r@));
    out
}

/// Encodes a withdraw request into fresh bytes.
pub fn encode_withdraw(w: &WithdrawRequest) -> (out: Vec<u8>)
    ensures
        out@ == enc_withdraw(w@),
{
    u64_to_le_bytes(w.amount)
}

/// Decodes a campaign record, exactly as the layout's mathematical decoder
/// does: `Some` only when the whole input is one valid record.
pub fn decode_campaign(b: &Vec<u8>) -> (r: Option<CampaignRecord>)
    ensures
        match r {
            Some(rec) => rec.wf() && dec_campaign(b@) == Some(rec@),
            None => dec_campaign(b@) is None,
        },
{
    proof {
        lemma_auto_spec_u32_to_from_le_bytes();
        lemma_auto_spec_u64_to_from_le_bytes();
    }
    if b.len() < 36 {
        return None;
    }
    let admin_bytes = vstd::slice::slice_to_vec(vstd::slice::slice_subrange(b.as_slice(), 0, 32));
    let nlen = u32_from_le_bytes(vstd::slice::slice_subrange(b.as_slice(), 32, 36)) as usize;
    if b.len() - 36 < nlen || b.len() - 36 - nlen < 4 {
        return None;
    }
    let name = vstd::slice::slice_to_vec(vstd::slice::slice_subrange(b.as_slice(), 36, 36 + nlen));
    let dl_off = 36 + nlen;
    let dlen = u32_from_le_bytes(vstd::slice::slice_subrange(b.as_slice(), dl_off, dl_off + 4))
        as usize;
    if b.len() - dl_off - 4 < dlen || b.len() - dl_off - 4 - dlen < 4 {
        return None;
    }
    let description = vstd::slice::slice_to_vec(
        vstd::slice::slice_subrange(b.as_slice(), dl_off + 4, dl_off + 4 + dlen),
    );
    let il_off = dl_off + 4 + dlen;
    let ilen = u32_from_le_bytes(vstd::slice::slice_subrange(b.as_slice(), il_off, il_off + 4))
        as usize;
    if b.len() - il_off - 4 < ilen || b.len() - il_off - 4 - ilen != 8 {
        return None;
    }
    let image_link = vstd::slice::slice_to_vec(
        vstd::slice::slice_subrange(b.as_slice(), il_off + 4, il_off + 4 + ilen),
    );
    let amt_off = il_off + 4 + ilen;
    let amount_donated = u64_from_le_bytes(
        vstd::slice::slice_subrange(b.as_slice(), amt_off, amt_off + 8),
    );
    let rec = CampaignRecord {
        admin: Pubkey { bytes: admin_bytes },
        name,
        description,
        image_link,
        amount_donated,
    };
    proof {
        let s = dec_campaign(b@).unwrap();
        assert(s.admin =~= rec@.admin);
        assert(s.name =~= rec@.name);
        assert(s.description =~= rec@.description);
        assert(s.image_link =~= rec@.image_link);
        assert(dec_campaign(b@) == Some(rec@));
    }
    Some(rec)
}

/// Decodes a withdraw request: `Some` only for exactly 8 bytes.
pub fn decode_withdraw(b: &Vec<u8>) -> (r: Option<WithdrawRequest>)
    ensures
        match r {
            Some(w) => dec_withdraw(b@) == Some(w@),
            None => dec_withdraw(b@) is None,
        },
{
    if b.len() == 8 {
        let amount = u64_from_le_bytes(b.as_slice());
        assert(b@.subrange(0, 8) =~= b@);
        Some(WithdrawRequest { amount })
    } else {
        None
    }
}

/// Round trip for withdraw requests, in both directions.
pub proof fn lemma_withdraw_codec_round_trip(amount: u64, b: Seq<u8>)
    ensures
        dec_withdraw(enc_withdraw(amount)) == Some(amount),
        dec_withdraw(b) is Some ==> enc_withdraw(dec_withdraw(b).unwrap()) == b,
{
    lemma_auto_spec_u64_to_from_le_bytes();
}

} // verus!
