//! Turning emulator frames into a still image or an animation.
use vstd::prelude::*;

verus! {

/// Width of an emulator frame in pixels.
pub const FRAME_WIDTH: u32 = 256;

/// Height of an emulator frame in pixels.
pub const FRAME_HEIGHT: u32 = 240;

/// Bytes in one RGBA emulator frame.
pub const FRAME_BYTES: usize = 245760;

/// Quantizer speed of the animation encoder: the fastest it offers, so
/// that encoding keeps up with the frames that are captured.
pub const GIF_SPEED: i32 = 30;

#[verifier::external_type_specification]
#[verifier::external_body]
pub struct ExImageError(image::ImageError);

/// The PNG file that the image encoder writes for an RGBA buffer.
pub uninterp spec fn png_image(rgba: Seq<u8>, width: u32, height: u32) -> Seq<u8>;

/// The GIF file that the image encoder writes for a sequence of RGBA frames.
pub uninterp spec fn gif_animation(frames: Seq<Seq<u8>>, width: u32, height: u32, speed: i32) -> Seq<u8>;

/// The pixel bytes of each frame.
pub open spec fn frames_view(frames: Seq<Vec<u8>>) -> Seq<Seq<u8>> {
    frames.map_values(|f: Vec<u8>| f@)
}

/// Whether every frame holds exactly one RGBA emulator picture.
pub open spec fn frames_fit(frames: Seq<Vec<u8>>) -> bool {
    forall|i: int| 0 <= i < frames.len() ==> #[trigger] frames[i]@.len() == FRAME_BYTES
}

/// Relies on image::write_buffer_with_format with the PNG format: the bytes
/// written depend on the pixels and dimensions alone. It panics when the
/// buffer length is not width * height * 4, which `requires` excludes; for
/// 8-bit RGBA into memory its only errors are a zero width or height.
#[verifier::external_body]
fn encode_png(rgba: &[u8], width: u32, height: u32) -> (r: Result<Vec<u8>, image::ImageError>)
    requires
        rgba@.len() == width * height * 4,
    ensures
        r matches Ok(bytes) ==> bytes@ == png_image(rgba@, width, height),
        width > 0 && height > 0 ==> r is Ok,
{
    let mut out = std::io::Cursor::new(Vec::new());
    let format = image::ImageOutputFormat::Png;
    image::write_buffer_with_format(&mut out, rgba, width, height, image::ColorType::Rgba8, format)
        .map(|()| out.into_inner())
}

/// Relies on image's GifEncoder::new_with_speed and encode_frames: the file
/// depends on the frames, dimensions and speed alone, and the trailer is
/// written when the encoder is dropped. Both panic on a speed outside 1..=30
/// and the frame conversion on a frame shorter than width * height * 4.
/// For RGBA frames written into memory its only error is a side that does
/// not fit in 16 bits.
#[verifier::external_body]
fn encode_gif(frames: &Vec<Vec<u8>>, width: u32, height: u32, speed: i32) -> (r: Result<Vec<u8>, image::ImageError>)
    requires
        1 <= speed <= 30,
        forall|i: int| 0 <= i < frames@.len() ==> #[trigger] frames@[i]@.len() == width * height * 4,
    ensures
        r matches Ok(bytes) ==> bytes@ == gif_animation(frames_view(frames@), width, height, speed),
        width <= 65535 && height <= 65535 ==> r is Ok,
{
    let mut bytes = Vec::new();
    let result = image::codecs::gif::GifEncoder::new_with_speed(&mut bytes, speed).encode_frames(
        frames.iter().map(|f| image::Frame::new(image::RgbaImage::from_raw(width, height, f.clone()).unwrap())),
    );
    result.map(|()| bytes)
}

/// What kind of picture an artifact holds.
#[derive(Clone, Copy, Debug, PartialEq, Eq, Structural)]
pub enum ArtifactKind {
    /// One frame, as PNG.
    Still,
    /// A sequence of frames, as GIF.
    Animation,
}

/// The media type that tags an artifact of a kind.
pub open spec fn media_type_of(kind: ArtifactKind) -> Seq<char> {
    match kind {
        ArtifactKind::Still => "image/png"@,
        ArtifactKind::Animation => "image/gif"@,
    }
}

/// The file name under which an artifact of a kind is uploaded.
pub open spec fn file_name_of(kind: ArtifactKind) -> Seq<char> {
    match kind {
        ArtifactKind::Still => "frame.png"@,
        ArtifactKind::Animation => "frames.gif"@,
    }
}

/// An encoded picture ready to upload.
#[derive(Clone, Debug)]
pub struct Artifact {
    pub kind: ArtifactKind,
    pub name: String,
    pub media_type: String,
    pub data: Vec<u8>,
}

/// Whether `a` is the artifact of `kind` that carries `data`.
pub open spec fn is_artifact(a: Artifact, kind: ArtifactKind, data: Seq<u8>) -> bool {
    &&& a.kind == kind
    &&& a.name@ == file_name_of(kind)
    &&& a.media_type@ == media_type_of(kind)
    &&& a.data@ == data
}

/// Why encoding failed.
#[derive(Clone, Copy, Debug, PartialEq, Eq, Structural)]
pub enum RenderError {
    /// The image encoder reported an error.
    Encoding,
}

/// Wraps the encoder's output as an artifact of `kind`, or reports its error.
pub fn package(kind: ArtifactKind, encoded: Result<Vec<u8>, image::ImageError>) -> (r: Result<Artifact, RenderError>)
    ensures
        match encoded {
            Ok(bytes) => r matches Ok(a) && is_artifact(a, kind, bytes@),
            Err(_) => r == Err::<Artifact, RenderError>(RenderError::Encoding),
        },
{
    match encoded {
        Ok(data) => {
            let (name, media_type) = match kind {
                ArtifactKind::Still => ("frame.png".to_owned(), "image/png".to_owned()),
                ArtifactKind::Animation => ("frames.gif".to_owned(), "image/gif".to_owned()),
            };
            Ok(Artifact { kind, name, media_type, data })
        },
        Err(_) => Err(RenderError::Encoding),
    }
}

/// Encodes one RGBA frame as a PNG artifact.
pub fn as_png(frame: &Vec<u8>) -> (r: Result<Artifact, RenderError>)
    requires
        frame@.len() == FRAME_BYTES,
    ensures
        r matches Ok(a) && is_artifact(a, ArtifactKind::Still, png_image(frame@, FRAME_WIDTH, FRAME_HEIGHT)),
{
    let encoded = encode_png(frame.as_slice(), FRAME_WIDTH, FRAME_HEIGHT);
    package(ArtifactKind::Still, encoded)
}

/// Encodes a sequence of RGBA frames, in order, as a GIF artifact.
pub fn as_gif(frames: &Vec<Vec<u8>>) -> (r: Result<Artifact, RenderError>)
    requires
        frames_fit(frames@),
    ensures
        r matches Ok(a) && is_artifact(
            a,
            ArtifactKind::Animation,
            gif_animation(frames_view(frames@), FRAME_WIDTH, FRAME_HEIGHT, GIF_SPEED),
        ),
{
    let encoded = encode_gif(frames, FRAME_WIDTH, FRAME_HEIGHT, GIF_SPEED);
    package(ArtifactKind::Animation, encoded)
}

} // verus!
