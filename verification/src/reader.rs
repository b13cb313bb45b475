//! The incremental reader: it grows a buffer chunk by chunk until the codec
//! recognises a header in it, later takes the rest of the stream into the same
//! buffer, and decodes the whole.
//!
//! The reader never touches a byte source of the outside world. It says what
//! it needs next (`Demand`), and takes the bytes that its caller read
//! (`probe_chunk`, `decode_rest`). For a source held in memory it runs the
//! reads itself (`read_info`, `read_data`).

use vstd::prelude::*;
use crate::codec::header_dimensions;
use crate::color::WebpColor;
use crate::error::WebpError;
use crate::frame::{decoding, view_of, DecodedImage, DecodedView};
use crate::source::{lemma_read_advances, ByteSource, SourceView};

verus! {

/// The number of bytes asked of the source for each attempt at the header.
pub const READER_READ_UNIT: usize = 1024;

/// How far a reader has come. A reader only ever moves forward through these.
#[derive(Clone, Copy, Debug, PartialEq, Eq, Structural)]
pub enum Stage {
    /// Nothing was read yet.
    Fresh,
    /// Bytes were read, and the codec has not recognised a header in them.
    ProbingHeader,
    /// The dimensions are known.
    HeaderKnown,
    /// The pixels are decoded.
    DataDecoded,
}

impl Stage {
    /// The place of a stage in the order in which a reader passes them.
    pub open spec fn rank(self) -> nat {
        match self {
            Stage::Fresh => 0,
            Stage::ProbingHeader => 1,
            Stage::HeaderKnown => 2,
            Stage::DataDecoded => 3,
        }
    }
}

/// What a reader needs from its byte source before it can go on.
#[derive(Clone, Copy, Debug, PartialEq, Eq, Structural)]
pub enum Demand {
    /// Nothing: no read is to be made.
    Nothing,
    /// The result of one read of up to this many bytes, for `probe_chunk`.
    Chunk(usize),
    /// Everything that the source still has, for `decode_rest`.
    Remainder,
}

/// A reader as a value.
pub struct ReaderView {
    /// The layout in which the pixels are decoded.
    pub colortype: WebpColor,
    /// Every byte taken from the source so far, in order.
    pub buf: Seq<u8>,
    pub stage: Stage,
    /// The dimensions, once the codec recognised a header.
    pub info: Option<(u32, u32)>,
    /// The decoded image, once there is one.
    pub data: Option<DecodedView>,
}

impl ReaderView {
    /// A reader that has read nothing.
    pub open spec fn fresh(colortype: WebpColor) -> ReaderView {
        ReaderView { colortype, buf: Seq::empty(), stage: Stage::Fresh, info: None, data: None }
    }

    /// The stage fits what is known: dimensions from `HeaderKnown` on, an
    /// image in `DataDecoded` and only there, an empty buffer while `Fresh`.
    /// The image is in the reader's layout and framed in unpadded rows.
    pub open spec fn valid(self) -> bool {
        match self.stage {
            Stage::Fresh => self.buf.len() == 0 && self.info is None && self.data is None,
            Stage::ProbingHeader => self.info is None && self.data is None,
            Stage::HeaderKnown => self.info is Some && self.data is None,
            Stage::DataDecoded => {
                &&& self.info is Some
                &&& self.data matches Some(image) && image.framed() && image.layout
                    == self.colortype
            },
        }
    }

    /// What is to be read before the dimensions are known.
    pub open spec fn info_demand(self) -> Demand {
        if self.info is Some {
            Demand::Nothing
        } else {
            Demand::Chunk(READER_READ_UNIT)
        }
    }

    /// What is to be read before the image is decoded.
    pub open spec fn data_demand(self) -> Demand {
        if self.data is Some {
            Demand::Nothing
        } else if self.info is Some {
            Demand::Remainder
        } else {
            Demand::Chunk(READER_READ_UNIT)
        }
    }

    /// The reader after `chunk` joined its buffer.
    pub open spec fn with_chunk(self, chunk: Seq<u8>) -> ReaderView {
        ReaderView {
            buf: self.buf + chunk,
            stage: if self.stage is Fresh {
                Stage::ProbingHeader
            } else {
                self.stage
            },
            ..self
        }
    }

    /// The reader after one attempt at the header, and what the attempt
    /// comes to. `probe` is what the codec made of the buffer, `read_len` the
    /// number of bytes that the read before it delivered. Dimensions that are
    /// known stay as they are. A recognised header settles them. Without one,
    /// the attempt fails if the read delivered nothing, for then the source
    /// is exhausted; else more bytes may help.
    pub open spec fn after_probe(self, probe: Option<(u32, u32)>, read_len: nat) -> (
        ReaderView,
        Result<(), WebpError>,
    ) {
        if self.info is Some {
            (self, Ok(()))
        } else {
            match probe {
                Some(d) => (
                    ReaderView { stage: Stage::HeaderKnown, info: Some(d), ..self },
                    Ok(()),
                ),
                None => (
                    ReaderView { stage: Stage::ProbingHeader, ..self },
                    if read_len == 0 {
                        Err(WebpError::Header)
                    } else {
                        Ok(())
                    },
                ),
            }
        }
    }

    /// The reader after one round of probing on the chunk that a read
    /// delivered: with the dimensions known nothing happens; else the chunk
    /// joins the buffer and the codec is asked for the header of the whole
    /// buffer.
    pub open spec fn after_chunk(self, chunk: Seq<u8>) -> (ReaderView, Result<(), WebpError>) {
        if self.info is Some {
            (self, Ok(()))
        } else {
            let grown = self.with_chunk(chunk);
            grown.after_probe(header_dimensions(grown.buf), chunk.len())
        }
    }

    /// The reader after an attempt to decode, and what the attempt comes to.
    /// `image` is what the codec made of the buffer. An image that was
    /// decoded before stays. Without dimensions there is nothing to decode
    /// for. An image in the reader's layout is kept; anything else is a
    /// failure of the payload.
    pub open spec fn after_decoding(self, image: Option<DecodedView>) -> (
        ReaderView,
        Result<(), WebpError>,
    ) {
        if self.data is Some {
            (self, Ok(()))
        } else if self.info is None {
            (self, Err(WebpError::Header))
        } else {
            match image {
                Some(image) if image.layout == self.colortype => (
                    ReaderView { stage: Stage::DataDecoded, data: Some(image), ..self },
                    Ok(()),
                ),
                _ => (self, Err(WebpError::Data)),
            }
        }
    }

    /// The reader after it was handed everything that the source still had.
    /// With an image decoded nothing happens. Without dimensions, `rest` is
    /// the last chunk to probe on, and the source is exhausted after it. With
    /// dimensions, `rest` joins the buffer and the whole buffer is decoded.
    pub open spec fn after_rest(self, rest: Seq<u8>) -> (ReaderView, Result<(), WebpError>) {
        if self.data is Some {
            (self, Ok(()))
        } else {
            let grown = self.with_chunk(rest);
            let probed = if self.info is Some {
                grown
            } else {
                grown.after_probe(header_dimensions(grown.buf), 0).0
            };
            probed.after_decoding(decoding(probed.colortype, probed.buf))
        }
    }

    /// The reader and the source after the reader probed for the header,
    /// reading up to `READER_READ_UNIT` bytes at a time until the codec
    /// recognises a header or a read delivers nothing.
    pub open spec fn after_read_info(self, source: SourceView) -> (
        ReaderView,
        SourceView,
        Result<(), WebpError>,
    )
        decreases source.rest.len(),
    {
        if self.info is Some {
            (self, source, Ok(()))
        } else {
            let chunk = source.next_chunk(READER_READ_UNIT);
            let left = source.after_read(READER_READ_UNIT);
            let (next, outcome) = self.after_chunk(chunk);
            if outcome is Ok && next.info is None && chunk.len() > 0 {
                next.after_read_info(left)
            } else {
                (next, left, outcome)
            }
        }
    }

    /// The reader and the source after the reader decoded the image: it
    /// probes for the header first, then takes all that the source has left.
    pub open spec fn after_read_data(self, source: SourceView) -> (
        ReaderView,
        SourceView,
        Result<(), WebpError>,
    ) {
        let (probed, left, outcome) = self.after_read_info(source);
        if outcome is Err || probed.data is Some {
            (probed, left, outcome)
        } else {
            let (decoded, outcome) = probed.after_rest(left.rest);
            (decoded, left.drained(), outcome)
        }
    }
}

#[derive(Debug)]
enum State {
    Fresh,
    ProbingHeader,
    HeaderKnown { info: (u32, u32) },
    DataDecoded { info: (u32, u32), image: DecodedImage },
}

/// The incremental reader.
#[derive(Debug)]
pub struct Reader {
    colortype: WebpColor,
    buf: Vec<u8>,
    state: State,
}

impl View for Reader {
    type V = ReaderView;

    closed spec fn view(&self) -> ReaderView {
        ReaderView {
            colortype: self.colortype,
            buf: self.buf@,
            stage: match self.state {
                State::Fresh => Stage::Fresh,
                State::ProbingHeader => Stage::ProbingHeader,
                State::HeaderKnown { .. } => Stage::HeaderKnown,
                State::DataDecoded { .. } => Stage::DataDecoded,
            },
            info: match self.state {
                State::HeaderKnown { info } => Some(info),
                State::DataDecoded { info, .. } => Some(info),
                _ => None,
            },
            data: match self.state {
                State::DataDecoded { image, .. } => Some(image@),
                _ => None,
            },
        }
    }
}

impl Reader {
    /// The reader's value is valid.
    pub open spec fn wf(&self) -> bool {
        self@.valid()
    }

    /// A reader that will decode to `colortype` and has read nothing.
    pub fn new(colortype: WebpColor) -> (reader: Reader)
        ensures
            reader.wf(),
            reader@ == ReaderView::fresh(colortype),
    {
        Reader { colortype, buf: Vec::new(), state: State::Fresh }
    }

    /// The layout in which the pixels are decoded.
    pub fn colortype(&self) -> (colortype: WebpColor)
        ensures
            colortype == self@.colortype,
    {
        self.colortype
    }

    /// How far the reader has come.
    pub fn stage(&self) -> (stage: Stage)
        ensures
            stage == self@.stage,
    {
        match &self.state {
            State::Fresh => Stage::Fresh,
            State::ProbingHeader => Stage::ProbingHeader,
            State::HeaderKnown { .. } => Stage::HeaderKnown,
            State::DataDecoded { .. } => Stage::DataDecoded,
        }
    }

    /// Width and height, once the codec recognised a header.
    pub fn info(&self) -> (info: Option<(u32, u32)>)
        ensures
            info == self@.info,
    {
        match &self.state {
            State::HeaderKnown { info } => Some(*info),
            State::DataDecoded { info, .. } => Some(*info),
            _ => None,
        }
    }

    /// Width, height, row stride and pixels of the decoded image, once there
    /// is one.
    pub fn data(&self) -> (data: Option<(u32, u32, u32, &[u8])>)
        ensures
            data is Some <==> self@.data is Some,
            data matches Some((width, height, stride, pixels)) ==> width
                == self@.data.unwrap().width && height == self@.data.unwrap().height && stride
                == self@.data.unwrap().stride && pixels@ == self@.data.unwrap().pixels,
    {
        match &self.state {
            State::DataDecoded { image, .. } => Some(
                (image.width(), image.height(), image.stride(), image.pixels()),
            ),
            _ => None,
        }
    }

    /// Every byte taken from the source so far.
    pub fn buffered(&self) -> (buf: &[u8])
        ensures
            buf@ == self@.buf,
    {
        self.buf.as_slice()
    }

    /// What is to be read before the dimensions are known.
    pub fn info_demand(&self) -> (demand: Demand)
        ensures
            demand == self@.info_demand(),
    {
        match &self.state {
            State::Fresh | State::ProbingHeader => Demand::Chunk(READER_READ_UNIT),
            _ => Demand::Nothing,
        }
    }

    /// What is to be read before the image is decoded.
    pub fn data_demand(&self) -> (demand: Demand)
        ensures
            demand == self@.data_demand(),
    {
        match &self.state {
            State::Fresh | State::ProbingHeader => Demand::Chunk(READER_READ_UNIT),
            State::HeaderKnown { .. } => Demand::Remainder,
            State::DataDecoded { .. } => Demand::Nothing,
        }
    }

    /// Appends to the buffer the bytes that a read delivered, and returns
    /// their number.
    fn read_into_buf(&mut self, chunk: &[u8]) -> (read_len: usize)
        requires
            old(self).wf(),
        ensures
            final(self).wf(),
            final(self)@ == old(self)@.with_chunk(chunk@),
            read_len == chunk@.len(),
    {
        self.buf.extend_from_slice(chunk);
        if let State::Fresh = &self.state {
            self.state = State::ProbingHeader;
        }
        assert(self.buf@ =~= old(self).buf@ + chunk@);
        chunk.len()
    }

    /// Records what the codec made of the buffer after a read that delivered
    /// `read_len` bytes.
    pub fn note_probe(&mut self, probe: Option<(u32, u32)>, read_len: usize) -> (r: Result<
        (),
        WebpError,
    >)
        requires
            old(self).wf(),
        ensures
            final(self).wf(),
            (final(self)@, r) == old(self)@.after_probe(probe, read_len as nat),
    {
        match &self.state {
            State::Fresh | State::ProbingHeader => {
                match probe {
                    Some(info) => {
                        self.state = State::HeaderKnown { info };
                        Ok(())
                    },
                    None => {
                        self.state = State::ProbingHeader;
                        if read_len == 0 {
                            Err(WebpError::Header)
                        } else {
                            Ok(())
                        }
                    },
                }
            },
            _ => Ok(()),
        }
    }

    /// One round of probing, on the chunk that a read of up to
    /// `READER_READ_UNIT` bytes delivered; an empty chunk says that the source
    /// is exhausted.
    pub fn probe_chunk(&mut self, chunk: &[u8]) -> (r: Result<(), WebpError>)
        requires
            old(self).wf(),
        ensures
            final(self).wf(),
            (final(self)@, r) == old(self)@.after_chunk(chunk@),
    {
        if self.info().is_some() {
            return Ok(());
        }
        let read_len = self.read_into_buf(chunk);
        let probe = match libwebp::WebPGetInfo(self.buf.as_slice()) {
            Ok(info) => Some(info),
            Err(_) => None,
        };
        self.note_probe(probe, read_len)
    }

    /// Records what the codec made of the whole buffer.
    pub fn note_decoding(&mut self, image: Option<DecodedImage>) -> (r: Result<(), WebpError>)
        requires
            old(self).wf(),
            image matches Some(image) ==> image.wf(),
        ensures
            final(self).wf(),
            (final(self)@, r) == old(self)@.after_decoding(view_of(image)),
    {
        match &self.state {
            State::Fresh | State::ProbingHeader => Err(WebpError::Header),
            State::DataDecoded { .. } => Ok(()),
            State::HeaderKnown { info } => {
                let info = *info;
                match image {
                    Some(image) => {
                        if image.layout() == self.colortype {
                            self.state = State::DataDecoded { info, image };
                            Ok(())
                        } else {
                            Err(WebpError::Data)
                        }
                    },
                    None => Err(WebpError::Data),
                }
            },
        }
    }

    /// Takes everything that the source still had, and decodes the whole
    /// buffer.
    pub fn decode_rest(&mut self, rest: &[u8]) -> (r: Result<(), WebpError>)
        requires
            old(self).wf(),
        ensures
            final(self).wf(),
            (final(self)@, r) == old(self)@.after_rest(rest@),
    {
        if self.data().is_some() {
            return Ok(());
        }
        let known = self.info().is_some();
        self.read_into_buf(rest);
        if !known {
            let probe = match libwebp::WebPGetInfo(self.buf.as_slice()) {
                Ok(info) => Some(info),
                Err(_) => None,
            };
            let probed = self.note_probe(probe, 0);
            if probed.is_err() {
                return probed;
            }
        }
        let image = DecodedImage::decode(self.colortype, self.buf.as_slice());
        self.note_decoding(image)
    }

    /// Probes `source` for the header: reads up to `READER_READ_UNIT` bytes
    /// at a time until the codec recognises a header in what was read, and
    /// fails when the source is exhausted before that. With the dimensions
    /// known already, nothing is read.
    pub fn read_info(&mut self, source: &mut ByteSource) -> (r: Result<(), WebpError>)
        requires
            old(self).wf(),
            old(source).wf(),
        ensures
            final(self).wf(),
            final(source).wf(),
            (final(self)@, final(source)@, r) == old(self)@.after_read_info(old(source)@),
            old(self)@.info is Some ==> r is Ok && final(self)@ == old(self)@ && final(source)@
                == old(source)@,
    {
        loop
            invariant
                self.wf(),
                source.wf(),
                self@.after_read_info(source@) == old(self)@.after_read_info(old(source)@),
            decreases source@.rest.len(),
        {
            if self.info().is_some() {
                return Ok(());
            }
            proof {
                lemma_read_advances(source@, READER_READ_UNIT);
            }
            let chunk = source.read(READER_READ_UNIT);
            let outcome = self.probe_chunk(chunk.as_slice());
            if outcome.is_err() || self.info().is_some() || chunk.len() == 0 {
                return outcome;
            }
        }
    }

    /// Decodes the image from `source`: probes for the header if that is
    /// still to do, then takes all that the source has left and decodes the
    /// whole. With the image decoded already, nothing is read.
    pub fn read_data(&mut self, source: &mut ByteSource) -> (r: Result<(), WebpError>)
        requires
            old(self).wf(),
            old(source).wf(),
        ensures
            final(self).wf(),
            final(source).wf(),
            (final(self)@, final(source)@, r) == old(self)@.after_read_data(old(source)@),
            old(self)@.data is Some ==> r is Ok && final(self)@ == old(self)@ && final(source)@
                == old(source)@,
    {
        let probed = self.read_info(source);
        if probed.is_err() {
            return probed;
        }
        if self.data().is_some() {
            return probed;
        }
        let rest = source.read_to_end();
        self.decode_rest(rest.as_slice())
    }
}

} // verus!
