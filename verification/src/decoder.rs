//! The decoder over a byte source, and the stream of decoded bytes that it
//! turns into.

use vstd::prelude::*;
use crate::buffer::{tagged, DynamicImage};
use crate::color::{ColorType, WebpColor};
use crate::error::WebpError;
use crate::frame::{decoding, DecodedImage};
use crate::reader::{Reader, ReaderView};
use crate::source::{ByteSource, SourceView};

verus! {

/// A decoder as a value: its reader and what its source has left.
pub struct DecoderView {
    pub reader: ReaderView,
    pub source: SourceView,
}

/// A decoder over a byte source. It exists only once the codec has recognised
/// a header in what the source delivered, so its dimensions are always known.
#[derive(Debug)]
pub struct WebpDecoder {
    source: ByteSource,
    reader: Reader,
}

impl View for WebpDecoder {
    type V = DecoderView;

    closed spec fn view(&self) -> DecoderView {
        DecoderView { reader: self.reader@, source: self.source@ }
    }
}

impl WebpDecoder {
    /// Reader and source are in order, and the dimensions are known.
    pub closed spec fn wf(&self) -> bool {
        &&& self.source.wf()
        &&& self.reader.wf()
        &&& self.reader@.info is Some
    }

    /// A decoder that holds its invariant has valid dimensions to give.
    pub proof fn lemma_wf(&self)
        requires
            self.wf(),
        ensures
            self@.reader.valid(),
            self@.reader.info is Some,
    {
    }

    /// A decoder to RGBA.
    pub fn new(source: ByteSource) -> (r: Result<WebpDecoder, WebpError>)
        requires
            source.wf(),
        ensures
            opened(r, WebpColor::RGBA, source@),
    {
        WebpDecoder::new_inner(source, WebpColor::RGBA)
    }

    /// A decoder to RGBA.
    pub fn new_rgba(source: ByteSource) -> (r: Result<WebpDecoder, WebpError>)
        requires
            source.wf(),
        ensures
            opened(r, WebpColor::RGBA, source@),
    {
        WebpDecoder::new_inner(source, WebpColor::RGBA)
    }

    /// A decoder to RGB: alpha, where the image has it, is dropped.
    pub fn new_rgb(source: ByteSource) -> (r: Result<WebpDecoder, WebpError>)
        requires
            source.wf(),
        ensures
            opened(r, WebpColor::RGB, source@),
    {
        WebpDecoder::new_inner(source, WebpColor::RGB)
    }

    /// A decoder to BGRA.
    pub fn new_bgra(source: ByteSource) -> (r: Result<WebpDecoder, WebpError>)
        requires
            source.wf(),
        ensures
            opened(r, WebpColor::BGRA, source@),
    {
        WebpDecoder::new_inner(source, WebpColor::BGRA)
    }

    /// A decoder to BGR: alpha, where the image has it, is dropped.
    pub fn new_bgr(source: ByteSource) -> (r: Result<WebpDecoder, WebpError>)
        requires
            source.wf(),
        ensures
            opened(r, WebpColor::BGR, source@),
    {
        WebpDecoder::new_inner(source, WebpColor::BGR)
    }

    /// Probes `source` for the header at once, and fails if there is none.
    fn new_inner(source: ByteSource, colortype: WebpColor) -> (r: Result<WebpDecoder, WebpError>)
        requires
            source.wf(),
        ensures
            opened(r, colortype, source@),
    {
        let mut source = source;
        let mut reader = Reader::new(colortype);
        proof {
            crate::laws::lemma_read_info_follows(reader@, source@);
        }
        match reader.read_info(&mut source) {
            Ok(()) => Ok(WebpDecoder { source, reader }),
            Err(e) => Err(e),
        }
    }

    /// Width and height of the image.
    pub fn dimensions(&self) -> (d: (u32, u32))
        requires
            self.wf(),
        ensures
            self@.reader.info == Some(d),
    {
        self.reader.info().unwrap()
    }

    /// The tag of the pixels that this decoder produces.
    pub fn color_type(&self) -> (c: ColorType)
        ensures
            c == self@.reader.colortype.tag(),
    {
        self.reader.colortype().color_type()
    }

    /// Decodes the image at once, and turns the decoder into the stream of
    /// the decoded bytes. Fails if the payload cannot be decoded.
    pub fn into_reader(self) -> (r: Result<WebpReader, WebpError>)
        requires
            self.wf(),
        ensures
            streamed(r, self@),
    {
        let mut decoder = self;
        proof {
            crate::laws::lemma_read_data_follows(decoder.reader@, decoder.source@);
            crate::laws::lemma_read_info_follows(decoder.reader@, decoder.source@);
        }
        match decoder.reader.read_data(&mut decoder.source) {
            Ok(()) => Ok(WebpReader::new(decoder.reader)),
            Err(e) => Err(e),
        }
    }
}

/// `r` is what opening a decoder to `colortype` on `source` comes to: a
/// decoder whose fresh reader probed the source with success, so that it
/// knows the dimensions and has decoded nothing yet; or the failure of that
/// probing, which is the want of a header.
pub open spec fn opened(r: Result<WebpDecoder, WebpError>, colortype: WebpColor, source: SourceView)
    -> bool {
    let (reader, left, outcome) = ReaderView::fresh(colortype).after_read_info(source);
    match r {
        Ok(decoder) => {
            &&& decoder.wf()
            &&& outcome is Ok
            &&& decoder@ == (DecoderView { reader, source: left })
            &&& reader.colortype == colortype
            &&& reader.info is Some
            &&& reader.data is None
        },
        Err(e) => outcome == Err::<(), WebpError>(e) && e == WebpError::Header,
    }
}

/// `r` is what turning `decoder` into a stream comes to: a stream at the
/// start of the image that its reader decoded, in the decoder's layout; or
/// the failure of that decoding, which is a failure of the payload, the
/// header being known.
pub open spec fn streamed(r: Result<WebpReader, WebpError>, decoder: DecoderView) -> bool {
    let (reader, _, outcome) = decoder.reader.after_read_data(decoder.source);
    match r {
        Ok(stream) => {
            &&& stream.wf()
            &&& outcome is Ok
            &&& reader.data matches Some(image) && stream@ == (StreamView {
                pixels: image.pixels,
                index: 0,
            }) && image.layout == decoder.reader.colortype && image.framed()
        },
        Err(e) => outcome == Err::<(), WebpError>(e) && e == WebpError::Data,
    }
}

/// A stream of decoded bytes as a value: the bytes, and how many of them were
/// read.
pub struct StreamView {
    pub pixels: Seq<u8>,
    pub index: nat,
}

impl StreamView {
    /// The number of bytes that a read into a buffer of `len` bytes copies:
    /// as many as the buffer takes and the stream has left.
    pub open spec fn served_len(self, len: nat) -> nat {
        if self.index + len <= self.pixels.len() {
            len
        } else if self.index <= self.pixels.len() {
            (self.pixels.len() - self.index) as nat
        } else {
            0
        }
    }

    /// The bytes that a read into a buffer of `len` bytes copies.
    pub open spec fn served(self, len: nat) -> Seq<u8> {
        self.pixels.subrange(self.index as int, (self.index + self.served_len(len)) as int)
    }

    /// The stream after a read into a buffer of `len` bytes.
    pub open spec fn after_read(self, len: nat) -> StreamView {
        StreamView { index: self.index + self.served_len(len), ..self }
    }

    /// The bytes that reads into buffers of the lengths `lens`, one after
    /// another, copy in all.
    pub open spec fn served_in_turn(self, lens: Seq<nat>) -> Seq<u8>
        decreases lens.len(),
    {
        if lens.len() == 0 {
            Seq::empty()
        } else {
            self.served(lens[0]) + self.after_read(lens[0]).served_in_turn(lens.drop_first())
        }
    }
}

/// The sum of the lengths in `lens`.
pub open spec fn total(lens: Seq<nat>) -> nat
    decreases lens.len(),
{
    if lens.len() == 0 {
        0
    } else {
        lens[0] + total(lens.drop_first())
    }
}

/// The decoded image as a stream of bytes with a read position.
#[derive(Debug)]
pub struct WebpReader {
    reader: Reader,
    index: usize,
}

impl View for WebpReader {
    type V = StreamView;

    closed spec fn view(&self) -> StreamView {
        StreamView {
            pixels: match self.reader@.data {
                Some(image) => image.pixels,
                None => Seq::empty(),
            },
            index: self.index as nat,
        }
    }
}

impl WebpReader {
    /// The reader holds a decoded image, and the position lies within it.
    pub closed spec fn wf(&self) -> bool {
        &&& self.reader.wf()
        &&& self.reader@.data is Some
        &&& self.index <= self@.pixels.len()
    }

    /// A stream that holds its invariant has not read past its end.
    pub proof fn lemma_wf(&self)
        requires
            self.wf(),
        ensures
            self@.index <= self@.pixels.len(),
    {
    }

    /// The stream of the image that `reader` decoded, at its start. A reader
    /// without an image has no stream.
    pub fn new(reader: Reader) -> (stream: WebpReader)
        requires
            reader.wf(),
            reader@.data is Some,
        ensures
            stream.wf(),
            stream@ == (StreamView { pixels: reader@.data.unwrap().pixels, index: 0 }),
    {
        WebpReader { reader, index: 0 }
    }

    /// Copies the next bytes of the image to the front of `buf`, as many as
    /// `buf` takes and the image has left, and returns their number; the rest
    /// of `buf` stays as it was. Zero says that the image is at its end,
    /// unless `buf` is empty.
    pub fn read(&mut self, buf: &mut [u8]) -> (n: usize)
        requires
            old(self).wf(),
        ensures
            final(self).wf(),
            n == old(self)@.served_len(old(buf)@.len()),
            final(self)@ == old(self)@.after_read(old(buf)@.len()),
            final(buf)@ == old(self)@.served(old(buf)@.len()) + old(buf)@.skip(n as int),
    {
        let (_, _, _, image_buf) = self.reader.data().unwrap();
        let start = self.index;
        let left = image_buf.len() - start;
        let n = if buf.len() <= left {
            buf.len()
        } else {
            left
        };
        let mut i: usize = 0;
        while i < n
            invariant
                i <= n,
                n <= buf@.len(),
                start + n <= image_buf@.len() <= usize::MAX,
                buf@.len() == old(buf)@.len(),
                forall|k: int| 0 <= k < i ==> buf@[k] == image_buf@[start + k],
                forall|k: int| i <= k < buf@.len() ==> buf@[k] == old(buf)@[k],
            decreases n - i,
        {
            buf[i] = image_buf[start + i];
            i = i + 1;
        }
        self.index = start + n;
        n
    }

    /// The number of bytes that are still to be read.
    pub fn remaining(&self) -> (n: usize)
        requires
            self.wf(),
        ensures
            n == self@.pixels.len() - self@.index,
    {
        let (_, _, _, image_buf) = self.reader.data().unwrap();
        image_buf.len() - self.index
    }
}

/// Two reads in a row copy what one read into a buffer as long as both
/// buffers together copies, and leave the stream where that one read leaves
/// it.
pub proof fn lemma_reads_join(stream: StreamView, first: nat, second: nat)
    requires
        stream.index <= stream.pixels.len(),
    ensures
        stream.served(first) + stream.after_read(first).served(second) == stream.served(
            first + second,
        ),
        stream.after_read(first).after_read(second) == stream.after_read(first + second),
        stream.after_read(first).index <= stream.pixels.len(),
{
}

/// Reads into buffers of whatever lengths copy, put together, exactly what
/// one read into a buffer of their total length copies: the stream hands out
/// every byte once and in order.
pub proof fn lemma_small_reads_rebuild(stream: StreamView, lens: Seq<nat>)
    requires
        stream.index <= stream.pixels.len(),
    ensures
        stream.served_in_turn(lens) == stream.served(total(lens)),
    decreases lens.len(),
{
    if lens.len() == 0 {
    } else {
        lemma_reads_join(stream, lens[0], total(lens.drop_first()));
        lemma_small_reads_rebuild(stream.after_read(lens[0]), lens.drop_first());
    }
}

/// A read at the end of the image copies nothing and moves nothing, and a
/// read into a buffer at least as long as what is left copies all of it.
pub proof fn lemma_read_at_the_end(stream: StreamView, len: nat)
    requires
        stream.index <= stream.pixels.len(),
    ensures
        stream.index == stream.pixels.len() ==> stream.served_len(len) == 0 && stream.after_read(
            len,
        ) == stream,
        len >= stream.pixels.len() - stream.index ==> stream.served(len) == stream.pixels.skip(
            stream.index as int,
        ) && stream.after_read(len).index == stream.pixels.len(),
{
    if len >= stream.pixels.len() - stream.index {
    }
}

/// Decodes a payload held in memory to RGBA.
pub fn webp_load_rgba_from_memory(buf: &[u8]) -> (r: Result<DecodedImage, WebpError>)
    ensures
        loaded(r, WebpColor::RGBA, buf@),
{
    match DecodedImage::decode(WebpColor::RGBA, buf) {
        Some(image) => Ok(image),
        None => Err(WebpError::Decoding),
    }
}

/// Decodes a payload held in memory to RGB.
pub fn webp_load_rgb_from_memory(buf: &[u8]) -> (r: Result<DecodedImage, WebpError>)
    ensures
        loaded(r, WebpColor::RGB, buf@),
{
    match DecodedImage::decode(WebpColor::RGB, buf) {
        Some(image) => Ok(image),
        None => Err(WebpError::Decoding),
    }
}

/// Reads all of `r` and decodes it to RGBA.
pub fn webp_load_rgba(r: ByteSource) -> (image: Result<DecodedImage, WebpError>)
    requires
        r.wf(),
    ensures
        loaded(image, WebpColor::RGBA, r@.rest),
{
    let mut r = r;
    let buf = r.read_to_end();
    webp_load_rgba_from_memory(buf.as_slice())
}

/// Reads all of `r` and decodes it to RGB.
pub fn webp_load_rgb(r: ByteSource) -> (image: Result<DecodedImage, WebpError>)
    requires
        r.wf(),
    ensures
        loaded(image, WebpColor::RGB, r@.rest),
{
    let mut r = r;
    let buf = r.read_to_end();
    webp_load_rgb_from_memory(buf.as_slice())
}

/// Decodes a payload held in memory to a tagged image, in RGBA.
pub fn webp_load_from_memory(buf: &[u8]) -> (r: Result<DynamicImage, WebpError>)
    ensures
        loaded_tagged(r, buf@),
{
    match webp_load_rgba_from_memory(buf) {
        Ok(image) => Ok(DynamicImage::from_decoded(&image)),
        Err(e) => Err(e),
    }
}

/// Reads all of `r` and decodes it to a tagged image, in RGBA.
pub fn webp_load(r: ByteSource) -> (image: Result<DynamicImage, WebpError>)
    requires
        r.wf(),
    ensures
        loaded_tagged(image, r@.rest),
{
    match webp_load_rgba(r) {
        Ok(image) => Ok(DynamicImage::from_decoded(&image)),
        Err(e) => Err(e),
    }
}

/// `r` is what decoding `data` in one piece to a tagged image comes to: the
/// RGBA image that the codec makes of it, under the tag of RGBA, or the
/// failure to decode.
pub open spec fn loaded_tagged(r: Result<DynamicImage, WebpError>, data: Seq<u8>) -> bool {
    match r {
        Ok(image) => {
            &&& image.wf()
            &&& decoding(WebpColor::RGBA, data) matches Some(decoded) && image@ == tagged(decoded)
        },
        Err(e) => e == WebpError::Decoding && decoding(WebpColor::RGBA, data) is None,
    }
}

/// `r` is what decoding `data` in one piece to `layout` comes to: the image
/// that the codec makes of it, or the failure to decode.
pub open spec fn loaded(r: Result<DecodedImage, WebpError>, layout: WebpColor, data: Seq<u8>)
    -> bool {
    match r {
        Ok(image) => image.wf() && decoding(layout, data) == Some(image@),
        Err(e) => e == WebpError::Decoding && decoding(layout, data) is None,
    }
}

} // verus!
