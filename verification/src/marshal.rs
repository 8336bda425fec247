//! Marshaling rules for arguments that cross the FFI boundary.
//!
//! String arguments cross the boundary as NUL-terminated byte buffers, so a
//! string that itself contains a NUL byte cannot be passed and is rejected as
//! a bad argument. Codec parameters cross as a flat array that interleaves
//! parameter identifiers with their values.

use vstd::prelude::*;
use crate::error::{CvError, STS_BAD_ARG};

verus! {

/// True when the byte sequence contains a NUL byte, which would end the
/// native string early.
pub open spec fn has_interior_nul(bytes: Seq<u8>) -> bool {
    exists|i: int| 0 <= i < bytes.len() && bytes[i] == 0u8
}

/// Builds the NUL-terminated buffer in which a string argument crosses the
/// boundary: the bytes themselves followed by a single terminating NUL.
/// A string with an interior NUL byte is rejected as a bad argument.
pub fn c_string_bytes(bytes: &[u8]) -> (r: Result<Vec<u8>, CvError>)
    ensures
        r is Ok <==> !has_interior_nul(bytes@),
        r matches Ok(out) ==> out@ == bytes@.push(0u8),
        r matches Err(e) ==> e.code == STS_BAD_ARG,
{
    let mut out: Vec<u8> = Vec::new();
    let mut i: usize = 0;
    while i < bytes.len()
        invariant
            0 <= i <= bytes@.len(),
            out@ == bytes@.take(i as int),
            forall|j: int| 0 <= j < i ==> bytes@[j] != 0u8,
        decreases bytes@.len() - i,
    {
        let b = bytes[i];
        if b == 0 {
            assert(has_interior_nul(bytes@));
            return Err(CvError { code: STS_BAD_ARG, message: String::new() });
        }
        out.push(b);
        assert(out@ == bytes@.take(i as int + 1));
        i = i + 1;
    }
    out.push(0);
    assert(bytes@.take(bytes@.len() as int) == bytes@);
    Ok(out)
}

/// Flattens codec parameters into the form the native encoders take: pairs
/// `(identifier, value)` laid out one after the other in a single array.
pub fn encode_params(pairs: &Vec<(i32, i32)>) -> (r: Vec<i32>)
    ensures
        r@.len() == 2 * pairs@.len(),
        forall|i: int|
            0 <= i < pairs@.len() ==> r@[2 * i] == pairs@[i].0 && r@[2 * i + 1] == pairs@[i].1,
{
    let mut out: Vec<i32> = Vec::new();
    let mut i: usize = 0;
    while i < pairs.len()
        invariant
            0 <= i <= pairs@.len(),
            out@.len() == 2 * i,
            forall|j: int|
                0 <= j < i ==> out@[2 * j] == pairs@[j].0 && out@[2 * j + 1] == pairs@[j].1,
        decreases pairs@.len() - i,
    {
        let (id, value) = pairs[i];
        out.push(id);
        out.push(value);
        i = i + 1;
    }
    out
}

/// Reads an interleaved parameter array back into `(identifier, value)`
/// pairs. An array of odd length is malformed and yields nothing.
pub fn decode_params(flat: &Vec<i32>) -> (r: Option<Vec<(i32, i32)>>)
    ensures
        r is Some <==> flat@.len() % 2 == 0,
        r matches Some(pairs) ==> {
            &&& pairs@.len() * 2 == flat@.len()
            &&& forall|i: int|
                0 <= i < pairs@.len() ==> pairs@[i].0 == flat@[2 * i] && pairs@[i].1 == flat@[2
                    * i + 1]
        },
{
    if flat.len() % 2 != 0 {
        return None;
    }
    let flen: usize = flat.len();
    let n: usize = flen / 2;
    let mut pairs: Vec<(i32, i32)> = Vec::new();
    let mut i: usize = 0;
    while i < n
        invariant
            0 <= i <= n,
            2 * n == flen,
            flen == flat@.len(),
            pairs@.len() == i,
            forall|j: int|
                0 <= j < i ==> pairs@[j].0 == flat@[2 * j] && pairs@[j].1 == flat@[2 * j + 1],
        decreases n - i,
    {
        let id = flat[2 * i];
        let value = flat[2 * i + 1];
        pairs.push((id, value));
        i = i + 1;
    }
    Some(pairs)
}

/// Flattening parameter pairs and reading them back yields the pairs
/// unchanged: the interleaved layout loses nothing.
pub proof fn lemma_params_round_trip(pairs: Seq<(i32, i32)>, flat: Seq<i32>, back: Seq<(i32, i32)>)
    requires
        flat.len() == 2 * pairs.len(),
        forall|i: int|
            0 <= i < pairs.len() ==> flat[2 * i] == pairs[i].0 && flat[2 * i + 1] == pairs[i].1,
        back.len() * 2 == flat.len(),
        forall|i: int|
            0 <= i < back.len() ==> back[i].0 == flat[2 * i] && back[i].1 == flat[2 * i + 1],
    ensures
        back == pairs,
{
    assert(back.len() == pairs.len());
    assert forall|i: int| 0 <= i < pairs.len() implies back[i] == pairs[i] by {
        assert(back[i].0 == pairs[i].0);
        assert(back[i].1 == pairs[i].1);
    }
    assert(back =~= pairs);
}

} // verus!
