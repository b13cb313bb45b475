//! What holds of every reader, whatever it is fed: it only moves forward,
//! keeps what it found, loses no byte, and finds the same image however the
//! source cuts the stream into reads.

use vstd::prelude::*;
use crate::codec::header_dimensions;
use crate::error::WebpError;
use crate::frame::{decoding, DecodedView};
use crate::reader::{ReaderView, READER_READ_UNIT};
use crate::source::{lemma_read_advances, SourceView};

verus! {

impl ReaderView {
    /// `self` is a later state of the reader that was `earlier`: the same
    /// layout, a stage that is no earlier, the same dimensions and image where
    /// there were any, and a buffer that begins with the earlier buffer.
    pub open spec fn follows(self, earlier: ReaderView) -> bool {
        &&& self.colortype == earlier.colortype
        &&& self.stage.rank() >= earlier.stage.rank()
        &&& earlier.info is Some ==> self.info == earlier.info
        &&& earlier.data is Some ==> self.data == earlier.data
        &&& earlier.buf.is_prefix_of(self.buf)
    }
}

/// The codec's verdict on the header never changes once it is favourable:
/// if it recognises a header in `buf` followed by some beginning of `rest`,
/// it reads the same dimensions from every longer beginning.
pub open spec fn header_is_stable(buf: Seq<u8>, rest: Seq<u8>) -> bool {
    forall|i: int, j: int|
        0 <= i <= j <= rest.len() && (#[trigger] header_dimensions(buf + rest.take(i))) is Some
            ==> (#[trigger] header_dimensions(buf + rest.take(j))) == header_dimensions(
            buf + rest.take(i),
        )
}

/// The codec recognises no header in `buf` followed by any beginning of
/// `rest`.
pub open spec fn header_never_found(buf: Seq<u8>, rest: Seq<u8>) -> bool {
    forall|k: int|
        0 <= k <= rest.len() ==> (#[trigger] header_dimensions(buf + rest.take(k))) is None
}

/// Recording a probe keeps a valid reader valid and moves it forward only.
pub proof fn lemma_probe_follows(reader: ReaderView, probe: Option<(u32, u32)>, read_len: nat)
    requires
        reader.valid(),
    ensures
        reader.after_probe(probe, read_len).0.valid(),
        reader.after_probe(probe, read_len).0.follows(reader),
        reader.after_probe(probe, read_len).0.buf == reader.buf,
        reader.after_probe(probe, read_len).0.data == reader.data,
{
}

/// A round of probing keeps a valid reader valid, moves it forward only, and
/// adds to the buffer the chunk and nothing else, unless the dimensions were
/// known, in which case the chunk is not looked at.
pub proof fn lemma_chunk_follows(reader: ReaderView, chunk: Seq<u8>)
    requires
        reader.valid(),
    ensures
        reader.after_chunk(chunk).0.valid(),
        reader.after_chunk(chunk).0.follows(reader),
        reader.info is None ==> reader.after_chunk(chunk).0.buf == reader.buf + chunk,
        reader.info is Some ==> reader.after_chunk(chunk) == (reader, Ok::<(), WebpError>(())),
        reader.after_chunk(chunk).0.data == reader.data,
{
}

/// Recording a decoding keeps a valid reader valid and moves it forward only.
pub proof fn lemma_decoding_follows(reader: ReaderView, image: Option<DecodedView>)
    requires
        reader.valid(),
        image matches Some(image) ==> image.framed(),
    ensures
        reader.after_decoding(image).0.valid(),
        reader.after_decoding(image).0.follows(reader),
        reader.after_decoding(image).0.buf == reader.buf,
{
}

/// Probing a source keeps a valid reader valid and moves it forward only. It
/// succeeds exactly when it ends with the dimensions known, and fails only
/// for want of a header, with the source exhausted. No byte is lost or read
/// twice: the buffer and what the source has left make up, in order, what
/// they made up before.
pub proof fn lemma_read_info_follows(reader: ReaderView, source: SourceView)
    requires
        reader.valid(),
    ensures
        ({
            let (next, left, outcome) = reader.after_read_info(source);
            &&& next.valid()
            &&& next.follows(reader)
            &&& next.data == reader.data
            &&& next.buf + left.rest == reader.buf + source.rest
            &&& outcome is Ok <==> next.info is Some
            &&& outcome is Err ==> outcome == Err::<(), WebpError>(WebpError::Header)
                && left.rest.len() == 0
        }),
    decreases source.rest.len(),
{
    if reader.info is None {
        let chunk = source.next_chunk(READER_READ_UNIT);
        let left = source.after_read(READER_READ_UNIT);
        let (next, outcome) = reader.after_chunk(chunk);
        lemma_read_advances(source, READER_READ_UNIT);
        lemma_chunk_follows(reader, chunk);
        if outcome is Ok && next.info is None && chunk.len() > 0 {
            lemma_read_info_follows(next, left);
        }
    }
}

/// A reader that succeeded in probing does nothing when asked to probe again:
/// it stays as it is, keeps its dimensions, and reads nothing from the source.
pub proof fn lemma_read_info_twice(reader: ReaderView, source: SourceView)
    requires
        reader.valid(),
        reader.after_read_info(source).2 is Ok,
    ensures
        ({
            let (next, left, outcome) = reader.after_read_info(source);
            next.after_read_info(left) == (next, left, outcome)
        }),
{
    lemma_read_info_follows(reader, source);
    lemma_outcome_of_probing(reader, source);
}

/// Decoding from a source keeps a valid reader valid and moves it forward
/// only. It succeeds exactly when it ends with an image, and no byte is lost
/// or read twice.
pub proof fn lemma_read_data_follows(reader: ReaderView, source: SourceView)
    requires
        reader.valid(),
    ensures
        ({
            let (next, left, outcome) = reader.after_read_data(source);
            &&& next.valid()
            &&& next.follows(reader)
            &&& next.buf + left.rest == reader.buf + source.rest
            &&& outcome is Ok <==> next.data is Some
            &&& outcome is Err ==> left.rest.len() == 0
        }),
{
    lemma_read_info_follows(reader, source);
    let (probed, left, outcome) = reader.after_read_info(source);
    if outcome is Ok && probed.data is None {
        let grown = probed.with_chunk(left.rest);
        lemma_decoding_follows(grown, decoding(grown.colortype, grown.buf));
    }
}

/// A reader that succeeded in decoding does nothing when asked to decode
/// again: it stays as it is, keeps its image, and reads nothing from the
/// source.
pub proof fn lemma_read_data_twice(reader: ReaderView, source: SourceView)
    requires
        reader.valid(),
        reader.after_read_data(source).2 is Ok,
    ensures
        ({
            let (next, left, outcome) = reader.after_read_data(source);
            next.after_read_data(left) == (next, left, outcome)
        }),
{
    lemma_read_data_follows(reader, source);
    let (next, left, _) = reader.after_read_data(source);
    lemma_read_info_follows(next, left);
    lemma_outcome_of_probing(next, left);
    lemma_outcome_of_probing(reader, source);
}

/// Where the codec recognises no header in any beginning of the stream,
/// probing ends, with the whole stream read and the failure that says that
/// the header is missing.
pub proof fn lemma_missing_header_fails(reader: ReaderView, source: SourceView)
    requires
        reader.info is None,
        header_never_found(reader.buf, source.rest),
    ensures
        ({
            let (next, left, outcome) = reader.after_read_info(source);
            &&& outcome == Err::<(), WebpError>(WebpError::Header)
            &&& next.info is None
            &&& next.buf == reader.buf + source.rest
            &&& left.rest.len() == 0
        }),
    decreases source.rest.len(),
{
    let chunk = source.next_chunk(READER_READ_UNIT);
    let left = source.after_read(READER_READ_UNIT);
    let n = source.next_len(READER_READ_UNIT) as int;
    let (next, _) = reader.after_chunk(chunk);
    lemma_read_advances(source, READER_READ_UNIT);
    if chunk.len() > 0 {
        assert forall|k: int| 0 <= k <= left.rest.len() implies (#[trigger] header_dimensions(
            next.buf + left.rest.take(k),
        )) is None by {
            assert(next.buf + left.rest.take(k) =~= reader.buf + source.rest.take(n + k));
        }
        lemma_missing_header_fails(next, left);
    }
}

/// Where the codec's verdict on the header is stable along the stream,
/// probing finds what the codec reads from the whole stream, whatever the
/// sizes of the reads: the dimensions where the codec recognises a header in
/// the whole, the failure for a missing header where it does not.
pub proof fn lemma_probing_finds_the_header(reader: ReaderView, source: SourceView)
    requires
        reader.info is None,
        header_is_stable(reader.buf, source.rest),
    ensures
        ({
            let (next, _, outcome) = reader.after_read_info(source);
            &&& next.info == header_dimensions(reader.buf + source.rest)
            &&& outcome is Ok <==> next.info is Some
        }),
    decreases source.rest.len(),
{
    let chunk = source.next_chunk(READER_READ_UNIT);
    let left = source.after_read(READER_READ_UNIT);
    let n = source.next_len(READER_READ_UNIT) as int;
    let (next, _) = reader.after_chunk(chunk);
    lemma_read_advances(source, READER_READ_UNIT);
    assert(reader.buf + source.rest.take(source.rest.len() as int) =~= reader.buf + source.rest);
    if next.info is None && chunk.len() > 0 {
        assert forall|i: int, j: int|
            0 <= i <= j <= left.rest.len() && (#[trigger] header_dimensions(
                next.buf + left.rest.take(i),
            )) is Some implies (#[trigger] header_dimensions(next.buf + left.rest.take(j)))
            == header_dimensions(next.buf + left.rest.take(i)) by {
            assert(next.buf + left.rest.take(i) =~= reader.buf + source.rest.take(n + i));
            assert(next.buf + left.rest.take(j) =~= reader.buf + source.rest.take(n + j));
        }
        lemma_probing_finds_the_header(next, left);
        assert(next.buf + left.rest =~= reader.buf + source.rest);
    }
}

/// The dimensions that probing finds do not depend on how the source cuts
/// the stream into reads, where the codec's verdict on the header is stable
/// along the stream: two sources that deliver the same bytes in reads of
/// whatever sizes lead the same reader to the same dimensions, or both to the
/// same failure.
pub proof fn lemma_fragmentation_is_immaterial(
    reader: ReaderView,
    rest: Seq<u8>,
    sizes: Seq<usize>,
    other_sizes: Seq<usize>,
)
    requires
        header_is_stable(reader.buf, rest),
    ensures
        ({
            let one = reader.after_read_info(SourceView { rest, sizes });
            let other = reader.after_read_info(SourceView { rest, sizes: other_sizes });
            &&& one.0.info == other.0.info
            &&& one.2 == other.2
        }),
{
    let source = SourceView { rest, sizes };
    let other = SourceView { rest, sizes: other_sizes };
    if reader.info is None {
        lemma_probing_finds_the_header(reader, source);
        lemma_probing_finds_the_header(reader, other);
    }
    lemma_outcome_of_probing(reader, source);
    lemma_outcome_of_probing(reader, other);
}

/// Nothing of what decoding from a source leaves in the reader depends on how
/// the source cuts the stream into reads, where the codec's verdict on the
/// header is stable along the stream: two sources that deliver the same bytes
/// in reads of whatever sizes leave the same reader in the same state, with
/// the same image or the same failure.
pub proof fn lemma_decoding_ignores_the_fragments(
    reader: ReaderView,
    rest: Seq<u8>,
    sizes: Seq<usize>,
    other_sizes: Seq<usize>,
)
    requires
        reader.valid(),
        header_is_stable(reader.buf, rest),
    ensures
        ({
            let one = reader.after_read_data(SourceView { rest, sizes });
            let other = reader.after_read_data(SourceView { rest, sizes: other_sizes });
            &&& one.2 is Ok ==> one.0 == other.0
            &&& one.0.info == other.0.info
            &&& one.0.data == other.0.data
            &&& one.2 == other.2
        }),
{
    let source = SourceView { rest, sizes };
    let other = SourceView { rest, sizes: other_sizes };
    lemma_fragmentation_is_immaterial(reader, rest, sizes, other_sizes);
    lemma_read_info_follows(reader, source);
    lemma_read_info_follows(reader, other);
}

/// Probing fails in one way only: for want of a header.
pub proof fn lemma_outcome_of_probing(reader: ReaderView, source: SourceView)
    ensures
        ({
            let (next, _, outcome) = reader.after_read_info(source);
            outcome == (if next.info is Some {
                Ok::<(), WebpError>(())
            } else {
                Err::<(), WebpError>(WebpError::Header)
            })
        }),
    decreases source.rest.len(),
{
    if reader.info is None {
        let chunk = source.next_chunk(READER_READ_UNIT);
        let left = source.after_read(READER_READ_UNIT);
        let (next, outcome) = reader.after_chunk(chunk);
        lemma_read_advances(source, READER_READ_UNIT);
        if outcome is Ok && next.info is None && chunk.len() > 0 {
            lemma_outcome_of_probing(next, left);
        }
    }
}

/// The dimensions that probing settles are those that the codec reads from
/// the buffer as it stands when probing ends; where probing fails, the codec
/// recognises no header in that buffer.
pub proof fn lemma_info_is_the_header_of_the_buffer(reader: ReaderView, source: SourceView)
    requires
        reader.info is None,
    ensures
        ({
            let (next, _, _) = reader.after_read_info(source);
            next.info == header_dimensions(next.buf)
        }),
    decreases source.rest.len(),
{
    let chunk = source.next_chunk(READER_READ_UNIT);
    let (next, outcome) = reader.after_chunk(chunk);
    lemma_read_advances(source, READER_READ_UNIT);
    if outcome is Ok && next.info is None && chunk.len() > 0 {
        lemma_info_is_the_header_of_the_buffer(next, source.after_read(READER_READ_UNIT));
    }
}

/// The image that a reader decodes does not depend on how the source cuts the
/// stream into reads: where decoding succeeds, the buffer holds the whole
/// stream, and the image is what the codec makes of the whole stream in the
/// reader's layout.
pub proof fn lemma_image_of_the_whole_stream(reader: ReaderView, source: SourceView)
    requires
        reader.valid(),
        reader.data is None,
        reader.after_read_data(source).2 is Ok,
    ensures
        ({
            let (next, left, _) = reader.after_read_data(source);
            &&& next.buf == reader.buf + source.rest
            &&& left.rest.len() == 0
            &&& next.data == decoding(reader.colortype, reader.buf + source.rest)
        }),
{
    lemma_read_info_follows(reader, source);
    lemma_read_data_follows(reader, source);
}

} // verus!
