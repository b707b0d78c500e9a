//! Content sniffing: telling SWF movies and still images apart by their
//! leading bytes.

use crate::action::Error;
use crate::der::{is_within_nesting, within_nesting};
use vstd::prelude::*;

verus! {

/// Image formats that can appear inside a bitmap tag.
#[derive(Clone, Copy, Debug, PartialEq, Eq, Structural)]
pub enum JpegTagFormat {
    Jpeg,
    Png,
    Gif,
    Unknown,
}

/// Enumeration of all content types that a movie load can handle.
///
/// This is a superset of `JpegTagFormat`.
#[derive(Clone, Copy, Debug, PartialEq, Eq, Structural)]
pub enum ContentType {
    Swf,
    Jpeg,
    Png,
    Gif,
    Unknown,
}

/// Whether `data` starts with the bytes of `prefix`.
pub open spec fn has_prefix(data: Seq<u8>, prefix: Seq<u8>) -> bool {
    prefix.len() <= data.len() && data.subrange(0, prefix.len() as int) == prefix
}

/// The image format announced by the magic number at the start of `data`.
///
/// A JPEG starts with the start-of-image marker `FF D8`, or with the
/// erroneous `FF D9 FF D8` that some authoring tools put in front of it. A
/// PNG starts with its eight-byte signature, a GIF with `GIF89a`.
pub open spec fn image_format_of(data: Seq<u8>) -> JpegTagFormat {
    if has_prefix(data, seq![0xffu8, 0xd8u8]) {
        JpegTagFormat::Jpeg
    } else if has_prefix(data, seq![0xffu8, 0xd9u8, 0xffu8, 0xd8u8]) {
        JpegTagFormat::Jpeg
    } else if has_prefix(
        data,
        seq![0x89u8, 0x50u8, 0x4eu8, 0x47u8, 0x0du8, 0x0au8, 0x1au8, 0x0au8],
    ) {
        JpegTagFormat::Png
    } else if has_prefix(data, seq![0x47u8, 0x49u8, 0x46u8, 0x38u8, 0x39u8, 0x61u8]) {
        JpegTagFormat::Gif
    } else {
        JpegTagFormat::Unknown
    }
}

/// Executable test for `has_prefix`.
fn starts_with(data: &[u8], prefix: &[u8]) -> (r: bool)
    ensures
        r == has_prefix(data@, prefix@),
{
    if prefix.len() > data.len() {
        return false;
    }
    let mut i: usize = 0;
    while i < prefix.len()
        invariant
            i <= prefix.len() <= data.len(),
            forall|j: int| 0 <= j < i ==> data@[j] == prefix@[j],
        decreases prefix.len() - i,
    {
        if data[i] != prefix[i] {
            assert(data@.subrange(0, prefix@.len() as int)[i as int] != prefix@[i as int]);
            return false;
        }
        i += 1;
    }
    assert(data@.subrange(0, prefix@.len() as int) =~= prefix@);
    true
}

/// Determines the format of the image data in `data` from its magic number.
pub fn determine_jpeg_tag_format(data: &[u8]) -> (format: JpegTagFormat)
    ensures
        format == image_format_of(data@),
{
    let jpeg: [u8; 2] = [0xff, 0xd8];
    let jpeg_erroneous: [u8; 4] = [0xff, 0xd9, 0xff, 0xd8];
    let png: [u8; 8] = [0x89, 0x50, 0x4e, 0x47, 0x0d, 0x0a, 0x1a, 0x0a];
    let gif: [u8; 6] = [0x47, 0x49, 0x46, 0x38, 0x39, 0x61];
    assert(jpeg@ =~= seq![0xffu8, 0xd8u8]);
    assert(jpeg_erroneous@ =~= seq![0xffu8, 0xd9u8, 0xffu8, 0xd8u8]);
    assert(png@ =~= seq![0x89u8, 0x50u8, 0x4eu8, 0x47u8, 0x0du8, 0x0au8, 0x1au8, 0x0au8]);
    assert(gif@ =~= seq![0x47u8, 0x49u8, 0x46u8, 0x38u8, 0x39u8, 0x61u8]);
    if starts_with(data, jpeg.as_slice()) {
        JpegTagFormat::Jpeg
    } else if starts_with(data, jpeg_erroneous.as_slice()) {
        JpegTagFormat::Jpeg
    } else if starts_with(data, png.as_slice()) {
        JpegTagFormat::Png
    } else if starts_with(data, gif.as_slice()) {
        JpegTagFormat::Gif
    } else {
        JpegTagFormat::Unknown
    }
}

/// Whether `data` opens with one of the five three-byte signatures of an SWF
/// container: `FWS` or `GFX` (stored), `CWS` or `CFX` (zlib), `ZWS` (LZMA).
pub open spec fn has_swf_signature(data: Seq<u8>) -> bool {
    ||| has_prefix(data, seq![0x46u8, 0x57u8, 0x53u8])
    ||| has_prefix(data, seq![0x47u8, 0x46u8, 0x58u8])
    ||| has_prefix(data, seq![0x43u8, 0x57u8, 0x53u8])
    ||| has_prefix(data, seq![0x43u8, 0x46u8, 0x58u8])
    ||| has_prefix(data, seq![0x5au8, 0x57u8, 0x53u8])
}

/// The SWF bytes that an SWZ container wraps, or `None` where `input` is no
/// such container. The container is a DER-encoded ASN.1 structure; this names
/// the outcome of decoding it and says nothing more about it.
pub uninterp spec fn swz_payload(input: Seq<u8>) -> Option<Seq<u8>>;

/// Calls `swf::read::read_compression_type` on a byte slice and reports
/// whether it succeeded. That function reads exactly three bytes and accepts
/// the signatures listed in `has_swf_signature`; a shorter input fails in the
/// read, any other signature is rejected as invalid data.
#[verifier::external_body]
fn recognizes_swf(data: &[u8]) -> (r: bool)
    ensures
        r == has_swf_signature(data@),
{
    swf::read::read_compression_type(data).is_ok()
}

/// Calls `swf::read::extract_swz`, which decodes the ASN.1 envelope of an SWZ
/// container and hands back the octet string inside it. The result depends on
/// the input bytes alone; the contract names it and drops the error value.
/// The decoder calls itself once for each level of nesting in the input and
/// counts no depth, so the input is kept to `MAX_NESTING` levels: the
/// decoder, and the release of what it built, then go no deeper than that
/// many calls into themselves.
#[verifier::external_body]
fn unwrap_swz(input: &[u8]) -> (r: Option<Vec<u8>>)
    requires
        within_nesting(input@),
    ensures
        match r {
            Some(bytes) => swz_payload(input@) == Some(bytes@),
            None => swz_payload(input@).is_none(),
        },
{
    match swf::read::extract_swz(input) {
        Ok(bytes) => Some(bytes),
        Err(_) => None,
    }
}

impl ContentType {
    /// The content type that stands for an image format.
    pub open spec fn of_image(format: JpegTagFormat) -> ContentType {
        match format {
            JpegTagFormat::Jpeg => ContentType::Jpeg,
            JpegTagFormat::Png => ContentType::Png,
            JpegTagFormat::Gif => ContentType::Gif,
            JpegTagFormat::Unknown => ContentType::Unknown,
        }
    }

    /// Converts an image format into the content type of the same name.
    pub fn from(jtf: JpegTagFormat) -> (content: ContentType)
        ensures
            content == Self::of_image(jtf),
    {
        match jtf {
            JpegTagFormat::Jpeg => ContentType::Jpeg,
            JpegTagFormat::Png => ContentType::Png,
            JpegTagFormat::Gif => ContentType::Gif,
            JpegTagFormat::Unknown => ContentType::Unknown,
        }
    }

    /// What `sniff` makes of a buffer: SWF where the container signature is
    /// there, else whatever the image magic number says.
    pub open spec fn of_bytes(data: Seq<u8>) -> ContentType {
        if has_swf_signature(data) {
            ContentType::Swf
        } else {
            Self::of_image(image_format_of(data))
        }
    }

    /// Classifies a buffer by its leading bytes. SWF recognition comes
    /// first; `Unknown` is returned only when no recognizer matches.
    pub fn sniff(data: &[u8]) -> (content: ContentType)
        ensures
            content == Self::of_bytes(data@),
    {
        if recognizes_swf(data) {
            ContentType::Swf
        } else {
            ContentType::from(determine_jpeg_tag_format(data))
        }
    }

    /// The name under which the content type is shown to users.
    pub fn name(self) -> (s: &'static str)
        ensures
            s@ == Self::name_of(self),
    {
        match self {
            ContentType::Swf => "SWF",
            ContentType::Jpeg => "JPEG",
            ContentType::Png => "PNG",
            ContentType::Gif => "GIF",
            ContentType::Unknown => "Unknown",
        }
    }

    /// The display name of each content type.
    pub open spec fn name_of(content: ContentType) -> Seq<char> {
        match content {
            ContentType::Swf => "SWF"@,
            ContentType::Jpeg => "JPEG"@,
            ContentType::Png => "PNG"@,
            ContentType::Gif => "GIF"@,
            ContentType::Unknown => "Unknown"@,
        }
    }

    /// Assert that content is of a given type, and error otherwise.
    pub fn expect(self, expected: ContentType) -> (r: Result<ContentType, Error>)
        ensures
            self == expected ==> r == Ok::<ContentType, Error>(self),
            self != expected ==> r == Err::<ContentType, Error>(
                Error::UnexpectedData(expected, self),
            ),
    {
        if self == expected {
            Ok(self)
        } else {
            Err(Error::UnexpectedData(expected, self))
        }
    }
}

/// The decoder that the host runs on the bytes of a body.
#[derive(Clone, Copy, Debug, PartialEq, Eq, Structural)]
pub enum Decoder {
    /// The SWF parser.
    Movie,
    /// The image decoder.
    Image,
    /// None: there is nothing to decode in unknown content.
    Nothing,
}

/// The body of a movie load after sniffing: what kind of content it is, how
/// long it is, and the bytes found inside where the body was an SWZ
/// container.
pub struct MovieBody {
    content: ContentType,
    length: usize,
    unwrapped: Option<Vec<u8>>,
}

impl MovieBody {
    /// The content type of the bytes that count: the body itself, or what an
    /// SWZ container held.
    pub closed spec fn content_type(&self) -> ContentType {
        self.content
    }

    /// The number of bytes that count.
    pub closed spec fn len(&self) -> usize {
        self.length
    }

    /// The content type of the body as it arrived: a body that had to be
    /// taken out of an SWZ container was itself unknown.
    pub open spec fn outer_content_type(&self) -> ContentType {
        if self.inner().is_some() {
            ContentType::Unknown
        } else {
            self.content_type()
        }
    }

    /// The bytes taken out of an SWZ container, if the body was one.
    pub closed spec fn inner(&self) -> Option<Seq<u8>> {
        match self.unwrapped {
            Some(bytes) => Some(bytes@),
            None => None,
        }
    }

    /// What a body is, given the outcome of taking it for an SWZ container.
    ///
    /// A body that a recognizer knows is taken as it is. A body that none
    /// knows, and that is an SWZ container, stands for the bytes inside; they
    /// are sniffed once and never unwrapped again.
    pub open spec fn describes(&self, data: Seq<u8>, swz: Option<Seq<u8>>) -> bool {
        if ContentType::of_bytes(data) == ContentType::Unknown && swz.is_some() {
            &&& self.content_type() == ContentType::of_bytes(swz.unwrap())
            &&& self.len() == swz.unwrap().len()
            &&& self.inner() == swz
        } else {
            &&& self.content_type() == ContentType::of_bytes(data)
            &&& self.len() == data.len()
            &&& self.inner().is_none()
        }
    }

    /// Classifies `data`, given what taking it out of an SWZ container
    /// yielded.
    pub fn resolve(data: &[u8], swz: Option<Vec<u8>>) -> (body: MovieBody)
        ensures
            body.describes(
                data@,
                match swz {
                    Some(bytes) => Some(bytes@),
                    None => None,
                },
            ),
    {
        let content = ContentType::sniff(data);
        if content == ContentType::Unknown {
            match swz {
                Some(bytes) => {
                    let inner_content = ContentType::sniff(bytes.as_slice());
                    let length = bytes.len();
                    return MovieBody { content: inner_content, length, unwrapped: Some(bytes) };
                },
                None => {},
            }
        }
        MovieBody { content, length: data.len(), unwrapped: None }
    }

    /// What is found inside a body when it is taken for an SWZ container:
    /// the payload of the container, and nothing for a body that is nested
    /// too deeply to be decoded, which is no container that anything made.
    pub open spec fn payload_of(data: Seq<u8>) -> Option<Seq<u8>> {
        if within_nesting(data) {
            swz_payload(data)
        } else {
            None
        }
    }

    /// Classifies the body of a movie load. An SWZ container is looked for
    /// only where no recognizer knows the body, and only in a body that is
    /// not nested too deeply; a deeper body stays unknown.
    pub fn sniff(data: &[u8]) -> (body: MovieBody)
        ensures
            body.describes(data@, Self::payload_of(data@)),
    {
        if ContentType::sniff(data) == ContentType::Unknown && is_within_nesting(data) {
            let swz = unwrap_swz(data);
            MovieBody::resolve(data, swz)
        } else {
            MovieBody::resolve(data, None)
        }
    }

    /// The decoder for each content type.
    pub open spec fn decoder_for(content: ContentType) -> Decoder {
        match content {
            ContentType::Swf => Decoder::Movie,
            ContentType::Jpeg => Decoder::Image,
            ContentType::Png => Decoder::Image,
            ContentType::Gif => Decoder::Image,
            ContentType::Unknown => Decoder::Nothing,
        }
    }

    /// The bytes that count of a body that arrived as `data`: what its SWZ
    /// container held, or `data` itself.
    pub open spec fn counted(&self, data: Seq<u8>) -> Seq<u8> {
        match self.inner() {
            Some(bytes) => bytes,
            None => data,
        }
    }

    /// The decoder that the host runs on the bytes that count.
    pub fn decoder(&self) -> (decoder: Decoder)
        ensures
            decoder == Self::decoder_for(self.content_type()),
    {
        match self.content {
            ContentType::Swf => Decoder::Movie,
            ContentType::Jpeg | ContentType::Png | ContentType::Gif => Decoder::Image,
            ContentType::Unknown => Decoder::Nothing,
        }
    }

    /// The bytes that the host decodes and hands on, for a body that arrived
    /// as `data`.
    pub fn bytes<'a>(&'a self, data: &'a [u8]) -> (bytes: &'a [u8])
        ensures
            bytes@ == self.counted(data@),
    {
        match &self.unwrapped {
            Some(inner) => inner.as_slice(),
            None => data,
        }
    }

    /// The content type of the bytes that count.
    pub fn content(&self) -> (content: ContentType)
        ensures
            content == self.content_type(),
    {
        self.content
    }

    /// The content type of the body as it arrived.
    pub fn outer_content(&self) -> (content: ContentType)
        ensures
            content == self.outer_content_type(),
    {
        if self.unwrapped.is_some() {
            ContentType::Unknown
        } else {
            self.content
        }
    }

    /// The number of bytes that count.
    pub fn length(&self) -> (length: usize)
        ensures
            length == self.len(),
    {
        self.length
    }

    /// The bytes taken out of an SWZ container, if the body was one; the
    /// host parses these in place of the body.
    pub fn unwrapped(&self) -> (bytes: Option<&Vec<u8>>)
        ensures
            match bytes {
                Some(b) => self.inner() == Some(b@),
                None => self.inner().is_none(),
            },
    {
        self.unwrapped.as_ref()
    }
}

} // verus!
