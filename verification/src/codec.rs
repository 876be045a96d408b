//! The streaming decompressor: one LZ4 frame, decoded block by block.
//!
//! The decoding itself is the work of the `lz4` crate. This module states
//! what the library relies on from it and wraps it in [`FrameDecoder`], which
//! hands the payload out in blocks of bounded size.

use vstd::prelude::*;
use vstd::slice::*;

verus! {

/// The most that one block holds.
pub const BLOCK_SIZE: usize = 32768;

/// `lz4::Decoder`, the frame decoder of the `lz4` crate. Nothing of its inside is used.
#[verifier::external_type_specification]
#[verifier::external_body]
#[verifier::reject_recursive_types(R)]
pub struct ExDecoder<R>(lz4::Decoder<R>);

/// `std::io::Cursor`, through which the decoder reads bytes held in memory.
#[verifier::external_type_specification]
#[verifier::external_body]
#[verifier::reject_recursive_types(T)]
pub struct ExCursor<T>(std::io::Cursor<T>);

/// `std::io::Error`, the error of the decoder's calls.
#[verifier::external_type_specification]
#[verifier::external_body]
pub struct ExIoError(std::io::Error);

/// The payload of the LZ4 frame with which `compressed` begins: the bytes
/// that `lz4::Decoder` hands out when it reads `compressed` until a read gives
/// nothing more, provided that no read fails and that the decoder has then
/// seen the end of the frame. `None` where a read fails or the input stops
/// before the frame does: where `compressed` is not a sound frame.
pub uninterp spec fn lz4_frame_payload(compressed: Seq<u8>) -> Option<Seq<u8>>;

/// What a decoder still holds: the part of its frame's payload that it has
/// not handed out yet, or `None` where its input is not a sound frame.
pub uninterp spec fn decoder_rest(decoder: lz4::Decoder<std::io::Cursor<Vec<u8>>>) -> Option<
    Seq<u8>,
>;

/// Whether a decoder has read the end of its frame: whether it expects no
/// more input.
pub uninterp spec fn decoder_at_end(decoder: lz4::Decoder<std::io::Cursor<Vec<u8>>>) -> bool;

/// Whether a decoder is intact: none of its reads has failed. What a decoder
/// does after a failed read is not relied upon.
pub uninterp spec fn decoder_intact(decoder: lz4::Decoder<std::io::Cursor<Vec<u8>>>) -> bool;

/// `lz4::Decoder::new`, on a `std::io::Cursor` over `compressed`.
///
/// Claimed: a decoder that was made is intact and holds the payload of the
/// frame in `compressed`. Nothing is claimed of when the call fails: it does
/// where the decompression context cannot be allocated.
#[verifier::external_body]
fn open_decoder(compressed: Vec<u8>) -> (opened: Result<
    lz4::Decoder<std::io::Cursor<Vec<u8>>>,
    std::io::Error,
>)
    ensures
        opened matches Ok(decoder) ==> decoder_intact(decoder) && decoder_rest(decoder)
            == lz4_frame_payload(compressed@),
{
    lz4::Decoder::new(std::io::Cursor::new(compressed))
}

/// `read` of `lz4::Decoder`, its implementation of `std::io::Read`, on an
/// intact decoder and a block with room.
///
/// Claimed, of a decoder on a sound frame: the call succeeds and copies the
/// next bytes of the payload to the front of `block`, at least one while any
/// are left; when it copies none, the decoder has read the end of the frame.
/// Of a decoder on other input: it stays one, and a call that succeeds does
/// not leave it at the end of a frame. A call that succeeds leaves the decoder
/// intact, and its count fits the block, whose length never changes.
#[verifier::external_body]
fn read_block(decoder: &mut lz4::Decoder<std::io::Cursor<Vec<u8>>>, block: &mut Vec<u8>) -> (count:
    Result<usize, std::io::Error>)
    requires
        decoder_intact(*old(decoder)),
        old(block)@.len() > 0,
    ensures
        final(block)@.len() == old(block)@.len(),
        count matches Ok(n) ==> n <= old(block)@.len() && decoder_intact(*final(decoder)),
        decoder_rest(*old(decoder)) matches Some(rest) ==> {
            &&& count matches Ok(n)
            &&& n <= rest.len()
            &&& (n == 0 <==> rest.len() == 0)
            &&& final(block)@.take(n as int) == rest.take(n as int)
            &&& decoder_rest(*final(decoder)) == Some(rest.skip(n as int))
            &&& (n == 0 ==> decoder_at_end(*final(decoder)))
        },
        decoder_rest(*old(decoder)) is None ==> {
            &&& decoder_rest(*final(decoder)) is None
            &&& (count is Ok ==> !decoder_at_end(*final(decoder)))
        },
{
    std::io::Read::read(decoder, block.as_mut_slice())
}

/// `lz4::Decoder::finish`, of which only the verdict is kept.
///
/// Claimed: the call succeeds exactly when the decoder has read the end of
/// its frame.
#[verifier::external_body]
fn close_decoder(decoder: lz4::Decoder<std::io::Cursor<Vec<u8>>>) -> (closed: Result<
    (),
    std::io::Error,
>)
    ensures
        closed is Ok <==> decoder_at_end(decoder),
{
    decoder.finish().1
}

/// `to_string` of `std::io::Error`: the error in words. Nothing is claimed of the text.
#[verifier::external_body]
fn cause_of(error: &std::io::Error) -> (cause: String) {
    error.to_string()
}

/// A decoder over one compressed target, held in memory.
pub struct FrameDecoder {
    inner: lz4::Decoder<std::io::Cursor<Vec<u8>>>,
    block: Vec<u8>,
}

impl FrameDecoder {
    /// The decoder is intact and its scratch block has its full size.
    pub closed spec fn wf(&self) -> bool {
        &&& decoder_intact(self.inner)
        &&& self.block@.len() == BLOCK_SIZE
    }

    /// The part of the payload that has not been handed out yet, or `None`
    /// where the input is not a sound frame.
    pub closed spec fn rest(&self) -> Option<Seq<u8>> {
        decoder_rest(self.inner)
    }

    /// Whether the end of the frame has been read.
    pub closed spec fn at_end(&self) -> bool {
        decoder_at_end(self.inner)
    }

    /// What becomes of the answer of `lz4::Decoder::new`: a decoder that was
    /// made is held as it is, beside a scratch block of full size; where none
    /// was made, the error is given in words.
    fn holding(made: Result<lz4::Decoder<std::io::Cursor<Vec<u8>>>, std::io::Error>) -> (held:
        Result<FrameDecoder, String>)
        ensures
            held is Ok <==> made is Ok,
            made matches Ok(inner) ==> {
                &&& held matches Ok(decoder)
                &&& decoder.rest() == decoder_rest(inner)
                &&& decoder.at_end() == decoder_at_end(inner)
                &&& decoder.wf() == decoder_intact(inner)
            },
    {
        match made {
            Ok(inner) => Ok(FrameDecoder { inner, block: vec![0u8; BLOCK_SIZE] }),
            Err(error) => Err(cause_of(&error)),
        }
    }

    /// A decoder over `compressed`, or the cause for which none could be set up.
    ///
    /// Whether one can be set up is not a matter of `compressed`: it is the
    /// allocation of the decompression context that can fail, and an unsound
    /// frame shows only when it is read.
    pub fn open(compressed: Vec<u8>) -> (opened: Result<FrameDecoder, String>)
        ensures
            opened matches Ok(decoder) ==> decoder.wf() && decoder.rest() == lz4_frame_payload(
                compressed@,
            ),
    {
        Self::holding(open_decoder(compressed))
    }

    /// The next block of the payload, empty once the payload is exhausted; or
    /// the cause for which the frame cannot be decoded further, after which
    /// the decoder is of no more use.
    ///
    /// On a sound frame this never fails, and a block is empty only when
    /// nothing is left: the end of the frame has then been read. On other
    /// input it may give blocks before it fails or runs dry, but never reads
    /// the end of a frame.
    pub fn next_block(&mut self) -> (next: Result<Vec<u8>, String>)
        requires
            old(self).wf(),
        ensures
            next matches Ok(block) ==> final(self).wf() && block@.len() <= BLOCK_SIZE,
            old(self).rest() matches Some(rest) ==> {
                &&& next matches Ok(block)
                &&& block@.is_prefix_of(rest)
                &&& (block@.len() == 0 <==> rest.len() == 0)
                &&& final(self).rest() == Some(rest.skip(block@.len() as int))
                &&& (block@.len() == 0 ==> final(self).at_end())
            },
            old(self).rest() is None ==> {
                &&& final(self).rest() is None
                &&& (next is Ok ==> !final(self).at_end())
            },
    {
        match read_block(&mut self.inner, &mut self.block) {
            Ok(n) => Ok(slice_to_vec(slice_subrange(self.block.as_slice(), 0, n))),
            Err(error) => Err(cause_of(&error)),
        }
    }

    /// Ends the decoding: `Ok` exactly when the end of the frame has been read.
    pub fn finish(self) -> (finished: Result<(), String>)
        ensures
            finished is Ok <==> self.at_end(),
    {
        match close_decoder(self.inner) {
            Ok(()) => Ok(()),
            Err(error) => Err(cause_of(&error)),
        }
    }
}

} // verus!
