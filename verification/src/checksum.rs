use vstd::prelude::*;

verus! {

/// The CRC-32-Castagnoli digest of a byte sequence. What the digest is takes
/// pages to state, so it is only named here; the trusted items below tie the
/// name to the `crc32c` crate's computation.
pub uninterp spec fn crc32c_of(data: Seq<u8>) -> u32;

/// The bytes of `chunks`, in order, as one sequence.
pub open spec fn concat_bytes(chunks: Seq<Seq<u8>>) -> Seq<u8>
    decreases chunks.len(),
{
    if chunks.len() == 0 {
        Seq::empty()
    } else {
        concat_bytes(chunks.drop_last()) + chunks.last()
    }
}

/// Relies on `crc32c::crc32c`: the CRC-32C digest of exactly the given bytes,
/// a function of those bytes alone.
#[verifier::external_body]
fn crc32c_whole(data: &[u8]) -> (r: u32)
    ensures
        r == crc32c_of(data@),
{
    crc32c::crc32c(data)
}

/// Relies on `crc32c::crc32c_append`: continuing from the digest of some
/// prefix yields the digest of the prefix followed by the given bytes.
#[verifier::external_body]
fn crc32c_extend(crc: u32, data: &[u8]) -> (r: u32)
    ensures
        forall|prefix: Seq<u8>| crc == crc32c_of(prefix) ==> r == crc32c_of(prefix + data@),
{
    crc32c::crc32c_append(crc, data)
}

/// Streams `chunks` through the CRC-32C hasher, chunk by chunk, and returns
/// the digest of their concatenation, widened to 64 bits as the hasher
/// interface reports it.
pub fn calculate_crc32c(chunks: &Vec<Vec<u8>>) -> (r: u64)
    ensures
        r == crc32c_of(concat_bytes(chunks@.map_values(|c: Vec<u8>| c@))) as u64,
{
    let ghost all: Seq<Seq<u8>> = chunks@.map_values(|c: Vec<u8>| c@);
    let empty: Vec<u8> = Vec::new();
    let mut crc: u32 = crc32c_whole(empty.as_slice());
    proof {
        assert(empty@ =~= Seq::<u8>::empty());
        assert(concat_bytes(all.take(0)) =~= Seq::<u8>::empty());
    }
    let mut i: usize = 0;
    while i < chunks.len()
        invariant
            all == chunks@.map_values(|c: Vec<u8>| c@),
            i <= chunks.len(),
            crc == crc32c_of(concat_bytes(all.take(i as int))),
        decreases chunks.len() - i,
    {
        let ghost done = concat_bytes(all.take(i as int));
        let next = crc32c_extend(crc, chunks[i].as_slice());
        proof {
            assert(next == crc32c_of(done + chunks@[i as int]@));
            assert(all.take(i + 1).drop_last() =~= all.take(i as int));
            assert(all.take(i + 1).last() == chunks@[i as int]@);
            assert(concat_bytes(all.take(i + 1)) == done + chunks@[i as int]@);
        }
        crc = next;
        i = i + 1;
    }
    proof {
        assert(all.take(chunks@.len() as int) =~= all);
    }
    crc as u64
}

} // verus!
