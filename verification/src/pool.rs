//! The constant pool as a whole: a given number of records, one after another.

use vstd::prelude::*;
use crate::constant::{ConstEntry, ConstEntryView};
use crate::error::DecodeError;
use crate::model::agree_on_prefix;
use crate::record::{
    lemma_record_reads_own_bytes, lemma_record_truncated, parse_const, spec_parse_const,
};

verus! {

/// The views of the entries of `pool`, in order.
pub open spec fn pool_view(pool: Seq<ConstEntry>) -> Seq<ConstEntryView> {
    Seq::new(pool.len(), |i: int| pool[i]@)
}

/// Model of [`parse_pool`]: `count` records decoded from the front of `s`,
/// each starting where the one before it ended. The first record that fails
/// to decode fails the whole pool with its own error.
pub open spec fn spec_parse_pool(s: Seq<u8>, count: nat) -> Result<
    (int, Seq<ConstEntryView>),
    DecodeError,
>
    decreases count,
{
    if count == 0 {
        Ok((0, Seq::empty()))
    } else {
        match spec_parse_pool(s, (count - 1) as nat) {
            Err(e) => Err(e),
            Ok((used, entries)) => match spec_parse_const(s.skip(used)) {
                Err(e) => Err(e),
                Ok((more, entry)) => Ok((used + more, entries.push(entry))),
            },
        }
    }
}

/// A pool that decodes has used a part of its input and holds one entry per
/// record asked for.
pub proof fn lemma_pool_bounds(s: Seq<u8>, count: nat)
    ensures
        spec_parse_pool(s, count) matches Ok((used, entries)) ==> 0 <= used <= s.len()
            && entries.len() == count,
    decreases count,
{
    if count > 0 {
        lemma_pool_bounds(s, (count - 1) as nat);
    }
}

/// Once the first `failed` records cannot be decoded, no larger number of
/// records can, and the error stays that of the first record that failed.
pub proof fn lemma_pool_error_persists(s: Seq<u8>, failed: nat, count: nat)
    requires
        failed <= count,
        spec_parse_pool(s, failed) is Err,
    ensures
        spec_parse_pool(s, count) == spec_parse_pool(s, failed),
    decreases count,
{
    if failed < count {
        lemma_pool_error_persists(s, failed, (count - 1) as nat);
    }
}

/// Decoding a pool reads the bytes of its records and no others: input that
/// holds the same bytes up to the end of the last record decodes to the same pool.
pub proof fn lemma_pool_reads_own_bytes(a: Seq<u8>, b: Seq<u8>, count: nat)
    requires
        spec_parse_pool(a, count) matches Ok((used, _)) && agree_on_prefix(a, b, used),
    ensures
        spec_parse_pool(b, count) == spec_parse_pool(a, count),
    decreases count,
{
    if count > 0 {
        let before = (count - 1) as nat;
        lemma_pool_bounds(a, before);
        let used = spec_parse_pool(a, before)->Ok_0.0;
        let more = spec_parse_const(a.skip(used))->Ok_0.0;
        lemma_pool_reads_own_bytes(a, b, before);
        assert(agree_on_prefix(a.skip(used), b.skip(used), more));
        lemma_record_reads_own_bytes(a.skip(used), b.skip(used));
    }
}

/// A pool cut short fails as truncated: if `count` records decode from `s`,
/// they do not decode from any proper prefix of their bytes, and the error is
/// `Truncated`.
pub proof fn lemma_pool_truncated(s: Seq<u8>, count: nat, k: int)
    requires
        spec_parse_pool(s, count) matches Ok((used, _)) && 0 <= k < used,
    ensures
        spec_parse_pool(s.take(k), count) == Err::<(int, Seq<ConstEntryView>), DecodeError>(
            DecodeError::Truncated,
        ),
    decreases count,
{
    let before = (count - 1) as nat;
    lemma_pool_bounds(s, before);
    lemma_pool_bounds(s, count);
    let used = spec_parse_pool(s, before)->Ok_0.0;
    if k < used {
        lemma_pool_truncated(s, before, k);
    } else {
        lemma_pool_reads_own_bytes(s, s.take(k), before);
        lemma_record_truncated(s.skip(used), k - used);
    }
}

/// Decodes `count` records from the front of `input`, in order, and returns
/// them with the input that follows the last one. Stops at the first record
/// that fails, with that record's error; no part of the pool is returned then.
pub fn parse_pool<'a>(input: &'a [u8], count: usize) -> (r: Result<
    (&'a [u8], Vec<ConstEntry>),
    DecodeError,
>)
    ensures
        match spec_parse_pool(input@, count as nat) {
            Ok((used, entries)) => r matches Ok((rest, pool)) && rest@ == input@.skip(used)
                && pool_view(pool@) == entries,
            Err(e) => r matches Err(f) && f == e,
        },
        r matches Ok((_, pool)) ==> pool@.len() == count,
{
    let mut pool: Vec<ConstEntry> = Vec::new();
    let mut cursor = input;
    let mut done: usize = 0;
    while done < count
        invariant
            done <= count,
            pool@.len() == done,
            spec_parse_pool(input@, done as nat) matches Ok((used, entries)) && cursor@
                == input@.skip(used) && pool_view(pool@) == entries,
        decreases count - done,
    {
        proof {
            lemma_pool_bounds(input@, done as nat);
        }
        match parse_const(cursor) {
            Ok((rest, entry)) => {
                pool.push(entry);
                cursor = rest;
            },
            Err(e) => {
                proof {
                    lemma_pool_error_persists(input@, (done + 1) as nat, count as nat);
                }
                return Err(e);
            },
        }
        done = done + 1;
    }
    Ok((cursor, pool))
}

} // verus!
