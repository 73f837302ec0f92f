//! What a sandbox keeps of the output of a command.
use vstd::prelude::*;

verus! {

/// Once this many bytes of a stream are kept, the rest of it is dropped (256 KB).
pub const MAX_OUTPUT_BYTES: usize = 262144;

/// A stream is read in pieces of at most this many bytes.
pub const READ_CHUNK_BYTES: usize = 4096;

/// The bytes kept after one more piece of the stream was read.
pub open spec fn retained(kept: Seq<u8>, chunk: Seq<u8>) -> Seq<u8> {
    if kept.len() < MAX_OUTPUT_BYTES {
        kept + chunk
    } else {
        kept
    }
}

/// The bytes kept of a stream that was read in the given pieces.
pub open spec fn retained_all(chunks: Seq<Seq<u8>>) -> Seq<u8>
    decreases chunks.len(),
{
    if chunks.len() == 0 {
        Seq::empty()
    } else {
        retained(retained_all(chunks.drop_last()), chunks.last())
    }
}

/// The whole stream that was read in the given pieces.
pub open spec fn stream_of(chunks: Seq<Seq<u8>>) -> Seq<u8>
    decreases chunks.len(),
{
    if chunks.len() == 0 {
        Seq::empty()
    } else {
        stream_of(chunks.drop_last()) + chunks.last()
    }
}

/// The bytes of one output stream, kept up to the limit.
pub struct OutputBuffer {
    bytes: Vec<u8>,
}

impl View for OutputBuffer {
    type V = Seq<u8>;

    closed spec fn view(&self) -> Seq<u8> {
        self.bytes@
    }
}

impl OutputBuffer {
    /// A stream of which nothing was read yet.
    pub fn new() -> (buffer: OutputBuffer)
        ensures
            buffer@ == Seq::<u8>::empty(),
    {
        OutputBuffer { bytes: Vec::new() }
    }

    /// Takes in a piece of the stream: the whole piece while fewer bytes than the limit
    /// are kept, nothing of it after that.
    pub fn absorb(&mut self, chunk: Vec<u8>)
        ensures
            final(self)@ == retained(old(self)@, chunk@),
    {
        if self.bytes.len() < MAX_OUTPUT_BYTES {
            let mut chunk = chunk;
            self.bytes.append(&mut chunk);
        }
    }

    /// Whether as much is kept as ever will be.
    pub fn is_full(&self) -> (full: bool)
        ensures
            full == (self@.len() >= MAX_OUTPUT_BYTES),
    {
        self.bytes.len() >= MAX_OUTPUT_BYTES
    }

    /// The kept bytes as text: what is not UTF-8 is replaced.
    pub fn text(&self) -> (text: String)
        ensures
            text@ == lossy_text(self@),
            vstd::utf8::valid_utf8(self@) ==> text@ == vstd::utf8::decode_utf8(self@),
            !vstd::utf8::valid_utf8(self@) ==> text@.contains('\u{FFFD}'),
    {
        decode_lossy(self.bytes.as_slice())
    }
}

/// What `String::from_utf8_lossy` makes of some bytes.
pub uninterp spec fn lossy_text(bytes: Seq<u8>) -> Seq<char>;

/// Calls `String::from_utf8_lossy`. The text is a function of the bytes alone, named
/// `lossy_text`; bytes that are valid UTF-8 are decoded as they stand, and otherwise the
/// replacement character stands in the text. How much of an invalid sequence one
/// replacement character stands for is left to the name.
#[verifier::external_body]
fn decode_lossy(bytes: &[u8]) -> (text: String)
    ensures
        text@ == lossy_text(bytes@),
        vstd::utf8::valid_utf8(bytes@) ==> text@ == vstd::utf8::decode_utf8(bytes@),
        !vstd::utf8::valid_utf8(bytes@) ==> text@.contains('\u{FFFD}'),
{
    String::from_utf8_lossy(bytes).to_string()
}

/// A stream shorter than the limit is kept whole; of a longer one a prefix is kept that
/// reaches the limit.
pub proof fn law_a_prefix_of_the_stream_is_kept(chunks: Seq<Seq<u8>>)
    ensures
        retained_all(chunks).is_prefix_of(stream_of(chunks)),
        stream_of(chunks).len() < MAX_OUTPUT_BYTES ==> retained_all(chunks) == stream_of(chunks),
        stream_of(chunks).len() >= MAX_OUTPUT_BYTES ==> retained_all(chunks).len()
            >= MAX_OUTPUT_BYTES,
    decreases chunks.len(),
{
    if chunks.len() > 0 {
        law_a_prefix_of_the_stream_is_kept(chunks.drop_last());
        let kept = retained_all(chunks.drop_last());
        let read = stream_of(chunks.drop_last());
        if read.len() < MAX_OUTPUT_BYTES {
            assert(retained_all(chunks) =~= stream_of(chunks));
        } else {
            assert(kept.is_prefix_of(read + chunks.last()));
        }
    }
}

/// The kept bytes pass the limit by less than one piece.
pub proof fn law_kept_output_is_bounded(chunks: Seq<Seq<u8>>)
    requires
        forall|i: int| 0 <= i < chunks.len() ==> (#[trigger] chunks[i]).len() <= READ_CHUNK_BYTES,
    ensures
        retained_all(chunks).len() < MAX_OUTPUT_BYTES + READ_CHUNK_BYTES,
    decreases chunks.len(),
{
    if chunks.len() > 0 {
        let before = chunks.drop_last();
        assert forall|i: int| 0 <= i < before.len() implies (#[trigger] before[i]).len()
            <= READ_CHUNK_BYTES by {
            assert(before[i] == chunks[i]);
        }
        law_kept_output_is_bounded(before);
        assert(chunks.last() == chunks[chunks.len() - 1]);
    }
}

/// The limits on output: 256 KB of each stream are kept, read 4 KB at a time.
pub proof fn law_output_limits()
    ensures
        MAX_OUTPUT_BYTES == 256 * 1024,
        READ_CHUNK_BYTES == 4 * 1024,
{
}

/// A piece of a stream is kept whole or not at all, and what was kept before stays as it
/// is: while fewer than 256 KB are kept, the piece follows them; after that, it is dropped.
pub proof fn law_piece_is_kept_whole_or_dropped(kept: Seq<u8>, chunk: Seq<u8>)
    ensures
        kept.is_prefix_of(retained(kept, chunk)),
        kept.len() < 262144 ==> {
            &&& retained(kept, chunk).len() == kept.len() + chunk.len()
            &&& retained(kept, chunk).skip(kept.len() as int) == chunk
        },
        kept.len() >= 262144 ==> retained(kept, chunk) == kept,
{
    if kept.len() < 262144 {
        assert(retained(kept, chunk).skip(kept.len() as int) =~= chunk);
    }
}

/// What is kept of a stream, however it is cut into pieces, begins as the stream does; it
/// is the whole stream if that is shorter than 256 KB, and at least 256 KB of it if not.
pub proof fn law_kept_output_is_the_beginning(chunks: Seq<Seq<u8>>)
    ensures
        retained_all(chunks).is_prefix_of(chunks.flatten()),
        chunks.flatten().len() < 262144 ==> retained_all(chunks) == chunks.flatten(),
        chunks.flatten().len() >= 262144 ==> retained_all(chunks).len() >= 262144,
{
    lemma_stream_is_all_pieces(chunks);
    law_a_prefix_of_the_stream_is_kept(chunks);
}

/// A stream is its pieces, one after the other.
proof fn lemma_stream_is_all_pieces(chunks: Seq<Seq<u8>>)
    ensures
        stream_of(chunks) == chunks.flatten(),
    decreases chunks.len(),
{
    if chunks.len() == 0 {
        assert(chunks.flatten() =~= Seq::<u8>::empty());
    } else {
        let before = chunks.drop_last();
        lemma_stream_is_all_pieces(before);
        before.lemma_flatten_push(chunks.last());
        assert(before.push(chunks.last()) =~= chunks);
    }
}

} // verus!
