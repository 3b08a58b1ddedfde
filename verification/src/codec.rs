use vstd::prelude::*;

verus! {

/// A raw RGBA pixel buffer as read from or written to the clipboard:
/// row-major, four bytes per pixel.
pub struct RawImage {
    pub width: usize,
    pub height: usize,
    pub rgba: Vec<u8>,
}

impl RawImage {
    /// A well-formed image has positive dimensions and exactly four bytes
    /// per pixel.
    pub open spec fn wf(&self) -> bool {
        &&& 0 < self.width
        &&& 0 < self.height
        &&& self.rgba@.len() == 4 * self.width * self.height
    }

    /// A well-formed image whose dimensions the container format can carry.
    pub open spec fn encodable(&self) -> bool {
        self.wf() && self.width <= u32::MAX && self.height <= u32::MAX
    }
}

/// Failure of an explicit image read/write operation; surfaced to the caller,
/// never silently dropped.
#[derive(Clone, Copy, Debug, PartialEq, Eq, Structural)]
pub enum EncodingError {
    /// The pixel buffer does not describe a positive-size RGBA image.
    BadDimensions,
    /// The text is not valid standard-alphabet unpadded base64.
    BadBase64,
    /// The bytes are not a decodable image container.
    BadContainer,
}

/// The bytes of the lossless container (PNG) holding the given RGBA pixel
/// grid; a function of the dimensions and pixel data alone.
pub uninterp spec fn png_of(width: nat, height: nat, rgba: Seq<u8>) -> Seq<u8>;

/// The base64 text (standard alphabet, no padding) of the given bytes; a
/// function of the bytes alone.
pub uninterp spec fn b64_of(bytes: Seq<u8>) -> Seq<char>;

/// Relies on image's PNG encoder (`PngEncoder::write_image` at RGBA, 8-bit):
/// writing a well-formed, nonzero-size RGBA buffer into an in-memory vector
/// always succeeds, and the bytes produced are a function of the dimensions
/// and pixel data alone.
#[verifier::external_body]
fn png_encode_rgba(img: &RawImage) -> (r: Vec<u8>)
    requires
        img.encodable(),
    ensures
        r@ == png_of(img.width as nat, img.height as nat, img.rgba@),
{
    let mut out: Vec<u8> = Vec::new();
    let enc = image::codecs::png::PngEncoder::new(&mut out);
    image::ImageEncoder::write_image(
        enc,
        &img.rgba,
        img.width as u32,
        img.height as u32,
        image::ExtendedColorType::Rgba8,
    ).unwrap();
    out
}

/// What the image decoder makes of a byte sequence: the width, height and
/// row-major RGBA bytes of the image the container holds, or nothing when
/// the bytes are not a decodable container. A function of the bytes alone.
pub uninterp spec fn png_parse_of(bytes: Seq<u8>) -> Option<(nat, nat, Seq<u8>)>;

/// The decoder inverts the encoder: whenever the input bytes are the
/// container of some representable RGBA grid, the result is exactly that
/// grid.
pub open spec fn png_decode_inverts(bytes: Seq<u8>, r: Result<RawImage, EncodingError>) -> bool {
    forall|w: nat, h: nat, px: Seq<u8>|
        0 < w <= u32::MAX && 0 < h <= u32::MAX && px.len() == 4 * w * h && px.len() <= usize::MAX
            && bytes == #[trigger] png_of(w, h, px) ==> (r matches Ok(img) && img.width == w
            && img.height == h && img.rgba@ == px)
}

/// Relies on `image::ImageReader` (decoding with its resource limits
/// disabled, so no size cap turns a valid container into an error) and
/// `DynamicImage::into_rgba8`: what the bytes decode to is a function of the
/// bytes alone, the container's compression is lossless, so the container
/// built from an RGBA grid decodes back to exactly that grid, and bytes the
/// decoder rejects come back as an error.
#[verifier::external_body]
fn png_decode_rgba(bytes: &Vec<u8>) -> (r: Result<RawImage, EncodingError>)
    ensures
        r matches Ok(img) ==> img.encodable() && png_parse_of(bytes@) == Some(
            (img.width as nat, img.height as nat, img.rgba@),
        ),
        r matches Err(e) ==> e == EncodingError::BadContainer && png_parse_of(bytes@) is None,
        png_decode_inverts(bytes@, r),
{
    let mut reader = image::ImageReader::new(std::io::Cursor::new(bytes));
    reader.no_limits();
    let loaded = reader
        .with_guessed_format()
        .map_err(|_| EncodingError::BadContainer)?
        .decode()
        .map_err(|_| EncodingError::BadContainer)?;
    let width = loaded.width() as usize;
    let height = loaded.height() as usize;
    let rgba = loaded.into_rgba8().into_raw();
    Ok(RawImage { width, height, rgba })
}

/// Relies on base64's standard-alphabet, no-padding engine: encoding never
/// fails and the text produced is a function of the input bytes alone.
#[verifier::external_body]
fn base64_encode(bytes: &Vec<u8>) -> (r: String)
    ensures
        r@ == b64_of(bytes@),
{
    base64::Engine::encode(&base64::engine::general_purpose::STANDARD_NO_PAD, bytes)
}

/// The decoder inverts the encoder: whenever the text is the base64 form of
/// some byte sequence, the result is exactly that sequence.
pub open spec fn b64_decode_inverts(s: Seq<char>, r: Result<Vec<u8>, EncodingError>) -> bool {
    forall|b: Seq<u8>| s == #[trigger] b64_of(b) ==> (r matches Ok(v) && v@ == b)
}

/// Relies on base64's decode with the same engine: it inverts the encoder,
/// and — the engine requiring the unpadded form and rejecting set trailing
/// bits — it accepts exactly the canonical encodings, so every accepted text
/// is the encoding of the bytes returned. Anything else comes back as an
/// error.
#[verifier::external_body]
fn base64_decode(s: &str) -> (r: Result<Vec<u8>, EncodingError>)
    ensures
        b64_decode_inverts(s@, r),
        r matches Ok(v) ==> s@ == b64_of(v@),
        r matches Err(e) ==> e == EncodingError::BadBase64,
{
    match base64::Engine::decode(&base64::engine::general_purpose::STANDARD_NO_PAD, s) {
        Ok(v) => Ok(v),
        Err(_) => Err(EncodingError::BadBase64),
    }
}

/// Whether the buffer length matches the dimensions, checked without
/// overflowing.
fn check_dimensions(img: &RawImage) -> (r: bool)
    ensures
        r == img.encodable(),
{
    if img.width == 0 || img.height == 0 {
        return false;
    }
    if !(img.width <= u32::MAX as usize && img.height <= u32::MAX as usize) {
        return false;
    }
    let blen = img.rgba.len();
    match img.width.checked_mul(img.height) {
        Some(area) => match area.checked_mul(4) {
            Some(total) => {
                proof {
                    assert(total == 4 * img.width * img.height) by (nonlinear_arith)
                        requires
                            area == img.width * img.height,
                            total == area * 4,
                    ;
                }
                total == blen
            },
            None => {
                proof {
                    assert(4 * img.width * img.height > usize::MAX) by (nonlinear_arith)
                        requires
                            area == img.width * img.height,
                            area * 4 > usize::MAX,
                    ;
                }
                false
            },
        },
        None => {
            proof {
                assert(4 * img.width * img.height > usize::MAX) by (nonlinear_arith)
                    requires
                        img.width * img.height > usize::MAX,
                        img.width >= 1,
                        img.height >= 1,
                ;
            }
            false
        },
    }
}

/// Re-encode a raw RGBA buffer as the lossless image container, as done when
/// a caller asks for the clipboard image in binary container form.
pub fn encode_image_png(img: &RawImage) -> (r: Result<Vec<u8>, EncodingError>)
    ensures
        img.encodable() ==> (r matches Ok(b) && b@ == png_of(
            img.width as nat,
            img.height as nat,
            img.rgba@,
        )),
        !img.encodable() ==> r == Result::<Vec<u8>, EncodingError>::Err(
            EncodingError::BadDimensions,
        ),
{
    if !check_dimensions(img) {
        return Err(EncodingError::BadDimensions);
    }
    Ok(png_encode_rgba(img))
}

/// Re-encode a raw RGBA buffer as the container wrapped in base64 text, the
/// string-safe form handed across transport boundaries.
pub fn encode_image_base64(img: &RawImage) -> (r: Result<String, EncodingError>)
    ensures
        img.encodable() ==> (r matches Ok(s) && s@ == b64_of(
            png_of(img.width as nat, img.height as nat, img.rgba@),
        )),
        !img.encodable() ==> r == Result::<String, EncodingError>::Err(
            EncodingError::BadDimensions,
        ),
{
    if !check_dimensions(img) {
        return Err(EncodingError::BadDimensions);
    }
    let bytes = png_encode_rgba(img);
    Ok(base64_encode(&bytes))
}

/// The decode result round-trips every encoding: whenever the text is the
/// base64 form of the container of a representable RGBA grid, the result is
/// exactly that grid.
pub open spec fn decode_round_trips(s: Seq<char>, r: Result<RawImage, EncodingError>) -> bool {
    forall|w: nat, h: nat, px: Seq<u8>|
        0 < w <= u32::MAX && 0 < h <= u32::MAX && px.len() == 4 * w * h && px.len() <= usize::MAX
            && s == b64_of(#[trigger] png_of(w, h, px)) ==> (r matches Ok(img) && img.width == w
            && img.height == h && img.rgba@ == px)
}

/// Decode base64 container text back to the raw RGBA buffer. Accepts exactly
/// what `encode_image_base64` produces and round-trips it losslessly: text
/// encoding the container of an RGBA grid decodes to that grid. Failure is
/// pinned down too: `BadBase64` exactly when the text is not the base64 form
/// of any byte sequence, and `BadContainer` exactly when it is, but those
/// bytes are not a decodable container.
pub fn decode_image_base64(s: &str) -> (r: Result<RawImage, EncodingError>)
    ensures
        r matches Ok(img) ==> img.encodable(),
        decode_round_trips(s@, r),
        r matches Err(e) ==> (e == EncodingError::BadBase64 || e == EncodingError::BadContainer),
        (r matches Err(EncodingError::BadBase64)) <==> !(exists|b: Seq<u8>|
            s@ == #[trigger] b64_of(b)),
        forall|b: Seq<u8>|
            s@ == #[trigger] b64_of(b) ==> (match png_parse_of(b) {
                Some(g) => r matches Ok(img) && img.width == g.0 && img.height == g.1
                    && img.rgba@ == g.2,
                None => r matches Err(EncodingError::BadContainer),
            }),
{
    let bytes = match base64_decode(s) {
        Ok(b) => b,
        Err(e) => {
            return Err(e);
        },
    };
    png_decode_rgba(&bytes)
}

/// LAW — lossless image round trip: decoding the base64 container text that
/// `encode_image_base64` owes for a well-formed image yields exactly that
/// image's dimensions and pixel bytes.
pub proof fn lemma_image_round_trip(
    img: RawImage,
    s: Seq<char>,
    r: Result<RawImage, EncodingError>,
)
    requires
        img.encodable(),
        img.rgba@.len() <= usize::MAX,
        s == b64_of(png_of(img.width as nat, img.height as nat, img.rgba@)),
        decode_round_trips(s, r),
    ensures
        r matches Ok(back) && back.width == img.width && back.height == img.height && back.rgba@
            == img.rgba@,
{
    assert(s == b64_of(png_of(img.width as nat, img.height as nat, img.rgba@)));
}

} // verus!
