//! LZ4 block decompression of mipmap payloads. The decompressor itself is the
//! `lz4_flex` crate; this module decides when to call it and what to accept
//! of its answer.

use crate::error::TexError;
use vstd::prelude::*;

verus! {

/// The error of `lz4_flex`'s block decompressor. Nothing is read from it:
/// one is a failure, whatever it says.
#[verifier::external_type_specification]
#[verifier::external_body]
pub struct ExDecompressError(lz4_flex::block::DecompressError);

/// What `lz4_flex::block::decompress` makes of the block `input` when told
/// that it holds at most `size` bytes: the decompressed bytes, or `None`
/// where it reports an error.
pub uninterp spec fn lz4_block(input: Seq<u8>, size: usize) -> Option<Seq<u8>>;

/// The length of a run of `0xFF` bytes that a block may not reach. A length
/// in an LZ4 block is a sum of bytes that goes on while they are `0xFF`. The
/// decompressor keeps that sum in 32 bits, which a run of 16,843,009 bytes
/// can overflow; and it adds the sum to a position in its output, which on a
/// machine with 32-bit addresses a run of 8,421,504 bytes can overflow.
pub open spec fn lz4_run_limit() -> int {
    if usize::MAX > 0xffff_ffff {
        16_843_009
    } else {
        8_421_504
    }
}

/// The number of `0xFF` bytes that stand directly before offset `end`.
pub open spec fn ff_run(input: Seq<u8>, end: int) -> nat
    decreases end,
{
    if 0 < end <= input.len() && input[end - 1] == 0xFF {
        ff_run(input, end - 1) + 1
    } else {
        0
    }
}

/// Whether the decompressor can work with every length that it may read
/// from `input`: no run of `0xFF` bytes reaches `lz4_run_limit()`.
pub open spec fn lz4_lengths_fit(input: Seq<u8>) -> bool {
    forall|end: int| 0 <= end <= input.len() ==> #[trigger] ff_run(input, end) < lz4_run_limit()
}

/// What the decoder takes from the decompressor: an answer of exactly
/// `expected` bytes, and nothing else.
pub open spec fn spec_accept_decompressed(outcome: Option<Seq<u8>>, expected: usize) -> Result<
    Seq<u8>,
    TexError,
> {
    match outcome {
        Some(bytes) if bytes.len() == expected => Ok(bytes),
        _ => Err(TexError::DecompressionFailure),
    }
}

/// The payload that a compressed mipmap stands for: `input` decompressed,
/// where that yields exactly `expected` bytes. There is none where `input`
/// holds a length that the decompressor cannot work with, or `expected` is
/// more than a vector can hold.
pub open spec fn spec_decompress_payload(input: Seq<u8>, expected: usize) -> Result<
    Seq<u8>,
    TexError,
> {
    if lz4_lengths_fit(input) && expected <= isize::MAX {
        spec_accept_decompressed(lz4_block(input, expected), expected)
    } else {
        Err(TexError::DecompressionFailure)
    }
}

/// Calls `lz4_flex::block::decompress` with `size` as the room for the
/// output. Nothing is claimed of the bytes that come back but that they are
/// what the crate computes from these arguments. Two kinds of argument are
/// left out, on which the call can panic: an input with an `0xFF` run of
/// `lz4_run_limit()` bytes, where the crate's arithmetic on lengths can
/// overflow, and a `size` that no vector can have.
#[verifier::external_body]
fn lz4_decompress(input: &[u8], size: usize) -> (r: Result<
    Vec<u8>,
    lz4_flex::block::DecompressError,
>)
    requires
        lz4_lengths_fit(input@),
        size <= isize::MAX,
    ensures
        match r {
            Ok(out) => lz4_block(input@, size) == Some(out@),
            Err(_) => lz4_block(input@, size) is None,
        },
{
    lz4_flex::block::decompress(input, size)
}

/// A run that ends at `end` is no longer than `end`, nor than the input.
proof fn lemma_ff_run_bounded(input: Seq<u8>, end: int)
    ensures
        ff_run(input, end) <= end || end < 0,
        ff_run(input, end) <= input.len(),
    decreases end,
{
    if 0 < end <= input.len() && input[end - 1] == 0xFF {
        lemma_ff_run_bounded(input, end - 1);
    }
}

/// Tests `lz4_lengths_fit` in one pass over the input.
pub fn lengths_fit(input: &[u8]) -> (fit: bool)
    ensures
        fit == lz4_lengths_fit(input@),
{
    let limit: usize = if usize::MAX > 0xffff_ffff {
        16_843_009
    } else {
        8_421_504
    };
    if input.len() < limit {
        proof {
            assert forall|end: int| 0 <= end <= input@.len() implies #[trigger] ff_run(
                input@,
                end,
            ) < lz4_run_limit() by {
                lemma_ff_run_bounded(input@, end);
            }
        }
        return true;
    }
    let mut run: usize = 0;
    let mut i: usize = 0;
    while i < input.len()
        invariant
            i <= input.len(),
            limit == lz4_run_limit(),
            run == ff_run(input@, i as int),
            forall|end: int| 0 <= end <= i ==> #[trigger] ff_run(input@, end) < lz4_run_limit(),
        decreases input.len() - i,
    {
        if input[i] == 0xFF {
            run = run + 1;
            if run >= limit {
                assert(ff_run(input@, i + 1) == run);
                return false;
            }
        } else {
            run = 0;
        }
        i = i + 1;
    }
    true
}

/// Decides what becomes of the decompressor's answer: `outcome` is `None`
/// where it failed. Only an answer of exactly `expected` bytes is taken.
pub fn accept_decompressed(outcome: Option<Vec<u8>>, expected: usize) -> (r: Result<
    Vec<u8>,
    TexError,
>)
    ensures
        match spec_accept_decompressed(
            match outcome {
                Some(v) => Some(v@),
                None => None,
            },
            expected,
        ) {
            Ok(bytes) => r matches Ok(v) && v@ == bytes,
            Err(e) => r == Err::<Vec<u8>, TexError>(e),
        },
{
    match outcome {
        Some(bytes) => {
            if bytes.len() == expected {
                Ok(bytes)
            } else {
                Err(TexError::DecompressionFailure)
            }
        },
        None => Err(TexError::DecompressionFailure),
    }
}

/// Decompresses the payload of a compressed mipmap, which must come to
/// exactly `expected` bytes.
pub fn decompress_payload(input: &[u8], expected: usize) -> (r: Result<Vec<u8>, TexError>)
    ensures
        match spec_decompress_payload(input@, expected) {
            Ok(bytes) => r matches Ok(v) && v@ == bytes,
            Err(e) => r == Err::<Vec<u8>, TexError>(e),
        },
        r matches Ok(v) ==> v@.len() == expected,
{
    if !lengths_fit(input) || expected > isize::MAX as usize {
        return Err(TexError::DecompressionFailure);
    }
    let outcome = match lz4_decompress(input, expected) {
        Ok(out) => Some(out),
        Err(_) => None,
    };
    accept_decompressed(outcome, expected)
}

} // verus!
