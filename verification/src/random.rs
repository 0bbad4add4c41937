//! Client of the random-data service.
//!
//! The service answers each request "generate `n` bytes" with exactly `n`
//! bytes; a request can ask for at most 65535 bytes, so longer buffers are
//! filled by a sequence of requests, every one of the maximum size except
//! the last. The functions here compute the request plan for a buffer,
//! assemble the service's responses into the buffer, and decode fixed-width
//! little-endian integers from the raw bytes; issuing the requests is the
//! embedder's part.

use vstd::prelude::*;
use vstd::bytes::{
    spec_u128_from_le_bytes, spec_u16_from_le_bytes, spec_u32_from_le_bytes,
    spec_u64_from_le_bytes, u128_from_le_bytes, u16_from_le_bytes, u32_from_le_bytes,
    u64_from_le_bytes,
};

verus! {

/// The most bytes one request to the service may ask for.
pub const MAX_REQUEST_LEN: u16 = 65535;

/// The request lengths that fill a buffer of `len` bytes: maximum-size
/// requests until fewer than the maximum remain, then one request for the
/// rest.
pub open spec fn spec_request_plan(len: int) -> Seq<int>
    decreases len,
{
    if len <= 0 {
        Seq::empty()
    } else if len <= MAX_REQUEST_LEN as int {
        seq![len]
    } else {
        seq![MAX_REQUEST_LEN as int] + spec_request_plan(len - MAX_REQUEST_LEN as int)
    }
}

/// Whether the given responses answer, one for one, the requests that fill a
/// buffer of `len` bytes.
pub open spec fn responses_match_plan(chunks: Seq<Seq<u8>>, len: int) -> bool {
    chunks.map_values(|c: Seq<u8>| c.len() as int) == spec_request_plan(len)
}

/// Responses matching the plan for `len` hold `len` bytes in all.
pub proof fn lemma_plan_total(chunks: Seq<Seq<u8>>, len: int)
    requires
        len >= 0,
        responses_match_plan(chunks, len),
    ensures
        chunks.flatten().len() == len,
    decreases chunks.len(),
{
    let lens = chunks.map_values(|c: Seq<u8>| c.len() as int);
    if len == 0 {
        assert(chunks =~= Seq::empty());
        reveal_with_fuel(Seq::flatten, 1);
    } else {
        assert(chunks.len() == lens.len());
        assert(lens[0] == chunks[0].len() as int);
        assert(chunks.first() == chunks[0]);
        assert(chunks.flatten() == chunks.first() + chunks.drop_first().flatten());
        let rest = chunks.drop_first().map_values(|c: Seq<u8>| c.len() as int);
        assert forall|j: int| 0 <= j < rest.len() implies rest[j] == lens[j + 1] by {
            assert(chunks.drop_first()[j] == chunks[j + 1]);
        }
        if len <= MAX_REQUEST_LEN as int {
            assert(lens =~= seq![len]);
            assert(rest =~= Seq::<int>::empty());
            assert(rest =~= spec_request_plan(0));
            lemma_plan_total(chunks.drop_first(), 0);
        } else {
            assert(lens[0] == MAX_REQUEST_LEN as int);
            assert(rest =~= spec_request_plan(len - MAX_REQUEST_LEN as int));
            lemma_plan_total(chunks.drop_first(), len - MAX_REQUEST_LEN as int);
        }
    }
}

/// Computes the request lengths that fill a buffer of `len` bytes.
pub fn request_plan(len: usize) -> (r: Vec<u16>)
    ensures
        r@.map_values(|v: u16| v as int) == spec_request_plan(len as int),
{
    let mut plan: Vec<u16> = Vec::new();
    let mut remaining: usize = len;
    while remaining > 0
        invariant
            plan@.map_values(|v: u16| v as int) + spec_request_plan(remaining as int)
                == spec_request_plan(len as int),
        decreases remaining,
    {
        let ghost prefix = plan@.map_values(|v: u16| v as int);
        let ghost before: int = remaining as int;
        if remaining >= MAX_REQUEST_LEN as usize {
            plan.push(MAX_REQUEST_LEN);
            remaining = remaining - MAX_REQUEST_LEN as usize;
            proof {
                assert(spec_request_plan(before) =~= seq![MAX_REQUEST_LEN as int]
                    + spec_request_plan(before - MAX_REQUEST_LEN as int));
                assert(plan@.map_values(|v: u16| v as int) =~= prefix + seq![
                    MAX_REQUEST_LEN as int,
                ]);
                assert(plan@.map_values(|v: u16| v as int) + spec_request_plan(remaining as int)
                    =~= prefix + spec_request_plan(before));
            }
        } else {
            let last: u16 = remaining as u16;
            plan.push(last);
            remaining = 0;
            proof {
                assert(spec_request_plan(before) =~= seq![before]);
                assert(plan@.map_values(|v: u16| v as int) =~= prefix + seq![before]);
                assert(plan@.map_values(|v: u16| v as int) + spec_request_plan(0) =~= prefix
                    + spec_request_plan(before));
            }
        }
    }
    proof {
        assert(plan@.map_values(|v: u16| v as int) =~= plan@.map_values(|v: u16| v as int)
            + spec_request_plan(0));
    }
    plan
}

/// The byte sequences the given response buffers hold.
pub open spec fn chunk_views(chunks: Seq<Vec<u8>>) -> Seq<Seq<u8>> {
    chunks.map_values(|c: Vec<u8>| c@)
}

/// Fills `out` with the service's responses to the requests that the plan
/// for `out`'s length prescribes, one response per request.
///
/// Fails exactly when the responses do not answer that plan one for one; a
/// failed call leaves `out` unchanged, a successful one replaces its
/// contents with the responses' bytes in order.
pub fn generate_in(out: &mut Vec<u8>, chunks: &Vec<Vec<u8>>) -> (r: Result<(), ()>)
    ensures
        r is Ok <==> responses_match_plan(chunk_views(chunks@), old(out)@.len() as int),
        match r {
            Ok(()) => final(out)@ == chunk_views(chunks@).flatten() && final(out)@.len() == old(
                out,
            )@.len(),
            Err(()) => final(out)@ == old(out)@,
        },
{
    let ghost views = chunk_views(chunks@);
    let ghost target = spec_request_plan(out@.len() as int);
    let plan = request_plan(out.len());
    if chunks.len() != plan.len() {
        proof {
            assert(views.map_values(|c: Seq<u8>| c.len() as int).len() == chunks@.len());
            assert(target.len() == plan@.len());
        }
        return Err(());
    }
    let mut i: usize = 0;
    while i < plan.len()
        invariant
            i <= plan@.len() == chunks@.len(),
            views == chunk_views(chunks@),
            target == spec_request_plan(old(out)@.len() as int),
            plan@.map_values(|v: u16| v as int) == target,
            *out == *old(out),
            forall|j: int| 0 <= j < i ==> chunks@[j]@.len() == #[trigger] plan@[j] as int,
        decreases plan@.len() - i,
    {
        if chunks[i].len() != plan[i] as usize {
            proof {
                assert(views.map_values(|c: Seq<u8>| c.len() as int)[i as int] == chunks@[
                    i as int]@.len() as int);
                assert(target[i as int] == plan@[i as int] as int);
            }
            return Err(());
        }
        i += 1;
    }
    proof {
        assert(views.map_values(|c: Seq<u8>| c.len() as int) =~= target);
        lemma_plan_total(views, old(out)@.len() as int);
    }
    let mut acc: Vec<u8> = Vec::new();
    let mut i: usize = 0;
    while i < chunks.len()
        invariant
            i <= chunks@.len(),
            views == chunk_views(chunks@),
            acc@ == views.take(i as int).flatten(),
        decreases chunks@.len() - i,
    {
        let chunk = &chunks[i];
        let ghost flat_prefix = acc@;
        let mut j: usize = 0;
        while j < chunk.len()
            invariant
                j <= chunk@.len(),
                acc@ == flat_prefix + chunk@.subrange(0, j as int),
            decreases chunk@.len() - j,
        {
            acc.push(chunk[j]);
            proof {
                assert(acc@ =~= flat_prefix + chunk@.subrange(0, j + 1));
            }
            j += 1;
        }
        proof {
            views.take(i as int).lemma_flatten_push(views[i as int]);
            assert(views.take(i as int).push(views[i as int]) =~= views.take(i + 1));
            assert(chunk@.subrange(0, chunk@.len() as int) =~= views[i as int]);
            assert(acc@ =~= views.take(i + 1).flatten());
        }
        i += 1;
    }
    proof {
        assert(views.take(views.len() as int) =~= views);
    }
    *out = acc;
    Ok(())
}

/// Returns `len` bytes assembled from the service's responses to the
/// requests that the plan for `len` prescribes, one response per request.
///
/// Fails exactly when the responses do not answer that plan one for one.
pub fn generate(len: usize, chunks: &Vec<Vec<u8>>) -> (r: Result<Vec<u8>, ()>)
    ensures
        r is Ok <==> responses_match_plan(chunk_views(chunks@), len as int),
        match r {
            Ok(v) => v@ == chunk_views(chunks@).flatten() && v@.len() == len,
            Err(()) => true,
        },
{
    let mut out: Vec<u8> = Vec::new();
    let mut i: usize = 0;
    while i < len
        invariant
            i <= len,
            out@.len() == i,
        decreases len - i,
    {
        out.push(0);
        i += 1;
    }
    match generate_in(&mut out, chunks) {
        Ok(()) => Ok(out),
        Err(()) => Err(()),
    }
}

/// Decodes one byte of random data as a `u8`.
pub fn generate_u8(bytes: &[u8]) -> (r: u8)
    requires
        bytes@.len() == 1,
    ensures
        r == bytes@[0],
{
    bytes[0]
}

/// Decodes two bytes of random data as a little-endian `u16`.
pub fn generate_u16(bytes: &[u8]) -> (r: u16)
    requires
        bytes@.len() == 2,
    ensures
        r == spec_u16_from_le_bytes(bytes@),
{
    u16_from_le_bytes(bytes)
}

/// Decodes four bytes of random data as a little-endian `u32`.
pub fn generate_u32(bytes: &[u8]) -> (r: u32)
    requires
        bytes@.len() == 4,
    ensures
        r == spec_u32_from_le_bytes(bytes@),
{
    u32_from_le_bytes(bytes)
}

/// Decodes eight bytes of random data as a little-endian `u64`.
pub fn generate_u64(bytes: &[u8]) -> (r: u64)
    requires
        bytes@.len() == 8,
    ensures
        r == spec_u64_from_le_bytes(bytes@),
{
    u64_from_le_bytes(bytes)
}

/// Decodes sixteen bytes of random data as a little-endian `u128`.
pub fn generate_u128(bytes: &[u8]) -> (r: u128)
    requires
        bytes@.len() == 16,
    ensures
        r == spec_u128_from_le_bytes(bytes@),
{
    u128_from_le_bytes(bytes)
}

} // verus!
