use vstd::prelude::*;

use vstd::assert_seqs_equal;
use vstd::bytes::{
    lemma_auto_spec_u32_to_from_le_bytes, lemma_auto_spec_u64_to_from_le_bytes,
    spec_u32_to_le_bytes, spec_u64_from_le_bytes, spec_u64_to_le_bytes, u32_to_le_bytes,
    u64_from_le_bytes, u64_to_le_bytes,
};
use vstd::slice::{slice_index_get, slice_subrange};

use crate::address::Address;
use crate::error::CampaignError;

verus! {

pub const INITIALIZED_SIZE: usize = 1;

/// Four bytes store the byte length of the name, least significant first.
pub const NAME_LENGTH_SIZE: usize = 4;

pub const NAME_SIZE: usize = 256;

pub const INITIALIZER_PUBKEY_SIZE: usize = 32;

pub const GOAL_AMOUNT_SIZE: usize = 8;

pub const DEADLINE_SIZE: usize = 8;

pub const BUMP_SIZE: usize = 1;

/// Serialized size of a campaign record: fixed at 310 bytes, independent
/// of the actual name length.
pub const CROWDFUND_ACCOUNT_SIZE: usize = INITIALIZED_SIZE + NAME_LENGTH_SIZE + NAME_SIZE
    + INITIALIZER_PUBKEY_SIZE + GOAL_AMOUNT_SIZE + DEADLINE_SIZE + BUMP_SIZE;

/// The single persisted entity: one fund-raising campaign.
#[derive(Clone, Debug, PartialEq, Eq)]
pub struct Crowdfund {
    /// One-time creation guard.
    pub is_initialized: bool,
    /// The campaign name's UTF-8 bytes; at most 256 of them fit the record.
    pub name: Vec<u8>,
    /// The party that created the campaign; immutable after creation.
    pub initializer_pubkey: Address,
    pub goal_amount: u64,
    /// Seconds since the epoch; any value is allowed, including past ones.
    pub deadline: i64,
    /// Disambiguating value produced by address derivation, stored so
    /// later operations can re-derive signing authority for this record.
    pub bump: u8,
}

/// The byte that records the creation guard.
pub open spec fn spec_init_byte(b: bool) -> u8 {
    if b {
        1u8
    } else {
        0u8
    }
}

/// A run of `n` zero padding bytes.
pub open spec fn zero_pad(n: nat) -> Seq<u8> {
    Seq::new(n, |i: int| 0u8)
}

/// The fixed-offset 310-byte serialization of a record.
pub open spec fn spec_serialized(r: Crowdfund) -> Seq<u8>
    recommends
        r.name@.len() <= 256,
{
    seq![spec_init_byte(r.is_initialized)] + spec_u32_to_le_bytes(r.name@.len() as u32) + r.name@
        + zero_pad((256 - r.name@.len()) as nat) + r.initializer_pubkey@ + spec_u64_to_le_bytes(
        r.goal_amount,
    ) + spec_u64_to_le_bytes(r.deadline as u64) + seq![r.bump]
}

/// A buffer decodes successfully exactly when it is 310 bytes long and
/// its creation-guard byte is 0 or 1.
pub open spec fn record_bytes_ok(s: Seq<u8>) -> bool {
    &&& s.len() == 310
    &&& (s[0] == 0 || s[0] == 1)
}

/// `s` with its trailing zero bytes removed.
pub open spec fn trim_trailing_zeros(s: Seq<u8>) -> Seq<u8>
    decreases s.len(),
{
    if s.len() > 0 && s[s.len() - 1] == 0 {
        trim_trailing_zeros(s.drop_last())
    } else {
        s
    }
}

/// The record that a well-formed 310-byte buffer denotes, field by field.
/// The stored name length prefix is informational only: the name is read
/// from the fixed-width buffer, with trailing zero padding removed.
pub open spec fn decodes_to(r: Crowdfund, s: Seq<u8>) -> bool
    recommends
        s.len() == 310,
{
    &&& r.is_initialized == (s[0] == 1)
    &&& r.name@ == trim_trailing_zeros(s.subrange(5, 261))
    &&& r.initializer_pubkey@ == s.subrange(261, 293)
    &&& r.goal_amount == spec_u64_from_le_bytes(s.subrange(293, 301))
    &&& r.deadline == spec_u64_from_le_bytes(s.subrange(301, 309)) as i64
    &&& r.bump == s[309]
}

/// Removing an all-zero suffix is the same as cutting at its start.
pub proof fn lemma_trim_zero_suffix(s: Seq<u8>, j: int)
    requires
        0 <= j <= s.len(),
        forall|k: int| j <= k < s.len() ==> s[k] == 0,
        j > 0 ==> s[j - 1] != 0,
    ensures
        trim_trailing_zeros(s) == s.subrange(0, j),
    decreases s.len(),
{
    if s.len() == 0 {
        assert(s.subrange(0, 0) =~= s);
    } else if s[s.len() - 1] == 0 {
        assert(j < s.len());
        lemma_trim_zero_suffix(s.drop_last(), j);
        assert(s.drop_last().subrange(0, j) =~= s.subrange(0, j));
    } else {
        assert(j == s.len());
        assert(s.subrange(0, j) =~= s);
    }
}

impl Crowdfund {
    /// Whether the one-time creation guard is set.
    pub fn is_initialized(&self) -> (r: bool)
        ensures
            r == self.is_initialized,
    {
        self.is_initialized
    }

    /// Serializes the record into its fixed 310-byte layout. A name longer
    /// than the fixed 256-byte name field is rejected outright: it is never
    /// truncated and never overflows the buffer.
    pub fn encode(&self) -> (r: Result<Vec<u8>, CampaignError>)
        ensures
            self.name@.len() > 256 ==> r == Err::<Vec<u8>, CampaignError>(
                CampaignError::NameTooLong,
            ),
            self.name@.len() <= 256 ==> (r matches Ok(out) && out@ == spec_serialized(*self)),
            r matches Ok(out) ==> out@.len() == 310,
    {
        if self.name.len() > 256 {
            return Err(CampaignError::NameTooLong);
        }
        proof {
            lemma_auto_spec_u32_to_from_le_bytes();
            lemma_auto_spec_u64_to_from_le_bytes();
        }
        let mut out: Vec<u8> = Vec::new();
        if self.is_initialized {
            out.push(1);
        } else {
            out.push(0);
        }
        let mut len_bytes = u32_to_le_bytes(self.name.len() as u32);
        out.append(&mut len_bytes);
        let ghost header = seq![spec_init_byte(self.is_initialized)] + spec_u32_to_le_bytes(
            self.name@.len() as u32,
        );
        assert(out@ =~= header);
        let mut i: usize = 0;
        while i < self.name.len()
            invariant
                i <= self.name@.len(),
                out@ == header + self.name@.subrange(0, i as int),
            decreases self.name@.len() - i,
        {
            out.push(self.name[i]);
            assert(out@ =~= header + self.name@.subrange(0, i + 1));
            i = i + 1;
        }
        assert(self.name@.subrange(0, self.name@.len() as int) =~= self.name@);
        let name_len = self.name.len();
        let mut p: usize = 0;
        while p < 256 - name_len
            invariant
                p <= 256 - name_len,
                name_len == self.name@.len() <= 256,
                out@ == (header + self.name@) + zero_pad(p as nat),
            decreases 256 - name_len - p,
        {
            out.push(0);
            assert(out@ =~= (header + self.name@) + zero_pad((p + 1) as nat));
            p = p + 1;
        }
        let ghost with_pad = header + self.name@ + zero_pad((256 - self.name@.len()) as nat);
        assert(out@ =~= with_pad);
        let mut i: usize = 0;
        while i < 32
            invariant
                i <= 32,
                out@ == with_pad + self.initializer_pubkey@.subrange(0, i as int),
            decreases 32 - i,
        {
            out.push(self.initializer_pubkey.bytes[i]);
            assert(out@ =~= with_pad + self.initializer_pubkey@.subrange(0, i + 1));
            i = i + 1;
        }
        assert(self.initializer_pubkey@.subrange(0, 32) =~= self.initializer_pubkey@);
        let ghost with_key = with_pad + self.initializer_pubkey@;
        assert(out@ =~= with_key);
        let mut goal_bytes = u64_to_le_bytes(self.goal_amount);
        out.append(&mut goal_bytes);
        let mut deadline_bytes = u64_to_le_bytes(self.deadline as u64);
        out.append(&mut deadline_bytes);
        out.push(self.bump);
        proof {
            assert(out@ =~= spec_serialized(*self));
        }
        Ok(out)
    }

    /// Reads a record back from its fixed 310-byte layout. Decoding is
    /// total over well-formed 310-byte buffers: every bit pattern of the
    /// numeric fields decodes; only a wrong buffer length or a creation
    /// guard byte other than 0/1 is rejected, as corruption.
    pub fn decode(src: &[u8]) -> (r: Result<Crowdfund, CampaignError>)
        ensures
            r is Ok <==> record_bytes_ok(src@),
            r matches Ok(rec) ==> decodes_to(rec, src@),
            !record_bytes_ok(src@) ==> r == Err::<Crowdfund, CampaignError>(
                CampaignError::CorruptRecord,
            ),
    {
        if src.len() != 310 {
            return Err(CampaignError::CorruptRecord);
        }
        let flag = *slice_index_get(src, 0);
        let is_initialized = if flag == 0 {
            false
        } else if flag == 1 {
            true
        } else {
            return Err(CampaignError::CorruptRecord);
        };
        let ghost region = src@.subrange(5, 261);
        let mut end: usize = 0;
        let mut i: usize = 0;
        while i < 256
            invariant
                i <= 256,
                end <= i,
                src@.len() == 310,
                region == src@.subrange(5, 261),
                forall|k: int| end <= k < i ==> region[k] == 0,
                end > 0 ==> region[end - 1] != 0,
            decreases 256 - i,
        {
            if *slice_index_get(src, 5 + i) != 0 {
                assert(region[i as int] == src@[5 + i as int]);
                end = i + 1;
            } else {
                assert(region[i as int] == src@[5 + i as int]);
            }
            i = i + 1;
        }
        proof {
            lemma_trim_zero_suffix(region, end as int);
        }
        let mut name: Vec<u8> = Vec::new();
        let mut i: usize = 0;
        while i < end
            invariant
                i <= end <= 256,
                src@.len() == 310,
                region == src@.subrange(5, 261),
                name@ == region.subrange(0, i as int),
            decreases end - i,
        {
            name.push(*slice_index_get(src, 5 + i));
            assert(name@ =~= region.subrange(0, i + 1));
            i = i + 1;
        }
        assert(name@ == trim_trailing_zeros(region));
        let mut key_bytes: [u8; 32] = [0; 32];
        let mut i: usize = 0;
        while i < 32
            invariant
                i <= 32,
                src@.len() == 310,
                key_bytes@.len() == 32,
                forall|k: int| 0 <= k < i ==> key_bytes@[k] == src@[261 + k],
            decreases 32 - i,
        {
            key_bytes.set(i, *slice_index_get(src, 261 + i));
            i = i + 1;
        }
        let initializer_pubkey = Address::new(key_bytes);
        proof {
            assert(initializer_pubkey@ =~= src@.subrange(261, 293));
        }
        let goal_amount = u64_from_le_bytes(slice_subrange(src, 293, 301));
        let deadline_bits = u64_from_le_bytes(slice_subrange(src, 301, 309));
        let deadline = #[verifier::truncate] (deadline_bits as i64);
        let bump = *slice_index_get(src, 309);
        Ok(
            Crowdfund {
                is_initialized,
                name,
                initializer_pubkey,
                goal_amount,
                deadline,
                bump,
            },
        )
    }
}

/// Round trip: every record whose name fits the fixed name field, and does
/// not itself end in a zero byte, is recovered exactly by decoding its own
/// serialization, whatever its numeric fields and creation guard hold.
pub proof fn lemma_round_trip(r: Crowdfund)
    requires
        r.name@.len() <= 256,
        r.name@.len() > 0 ==> r.name@[r.name@.len() - 1] != 0,
    ensures
        record_bytes_ok(spec_serialized(r)),
        decodes_to(r, spec_serialized(r)),
{
    lemma_auto_spec_u32_to_from_le_bytes();
    lemma_auto_spec_u64_to_from_le_bytes();
    let s = spec_serialized(r);
    let n = r.name@.len() as int;
    assert(s.len() == 310);
    assert(s[0] == spec_init_byte(r.is_initialized));
    assert_seqs_equal!(s.subrange(5, 261) == r.name@ + zero_pad((256 - n) as nat));
    lemma_trim_zero_suffix(r.name@ + zero_pad((256 - n) as nat), n);
    assert((r.name@ + zero_pad((256 - n) as nat)).subrange(0, n) =~= r.name@);
    assert_seqs_equal!(s.subrange(261, 293) == r.initializer_pubkey@);
    assert_seqs_equal!(s.subrange(293, 301) == spec_u64_to_le_bytes(r.goal_amount));
    assert_seqs_equal!(s.subrange(301, 309) == spec_u64_to_le_bytes(r.deadline as u64));
    assert(s[309] == r.bump);
    let d = r.deadline;
    assert((d as u64) as i64 == d) by (bit_vector);
}

} // verus!
