use vstd::prelude::*;

verus! {

#[verifier::external_type_specification]
#[verifier::external_body]
pub struct ExConfig(overtls::Config);

#[verifier::external_type_specification]
#[verifier::external_body]
pub struct ExError(overtls::Error);

/// `overtls::Config::from_json_str` accepts the text.
pub uninterp spec fn node_json_accepts(text: Seq<char>) -> bool;

/// `overtls::Config::from_ssr_url` accepts the text.
pub uninterp spec fn node_url_accepts(text: Seq<char>) -> bool;

/// The grayscale bytes (one per pixel) that the image crate makes of an
/// RGBA image of the given size.
pub uninterp spec fn luma_of(width: nat, height: nat, rgba: Seq<u8>) -> Seq<u8>;

/// What scanning a grayscale image of the given size for a QR code gives:
/// `None` where no code is found, `Some(None)` where the first code found
/// cannot be decoded, else the text it holds.
pub uninterp spec fn qr_scan_of(width: nat, height: nat, luma: Seq<u8>) -> Option<Option<Seq<char>>>;

/// Relies on `overtls::Config::from_json_str`, a serde_json parse: whether it
/// succeeds depends on the text alone.
#[verifier::external_body]
fn parse_node_json(text: &str) -> (r: Result<overtls::Config, overtls::Error>)
    ensures
        r.is_ok() == node_json_accepts(text@),
{
    overtls::Config::from_json_str(text)
}

/// Relies on `overtls::Config::from_ssr_url`, which decodes an `ssr://` URL:
/// whether it succeeds depends on the text alone.
#[verifier::external_body]
fn parse_node_url(text: &str) -> (r: Result<overtls::Config, overtls::Error>)
    ensures
        r.is_ok() == node_url_accepts(text@),
{
    overtls::Config::from_ssr_url(text)
}

/// Why no profile could be imported.
#[derive(Clone, Copy, Debug, PartialEq, Eq, Structural)]
pub enum ImportError {
    /// The text is neither a profile in JSON nor a profile URL.
    NotAConfig,
    /// The pixel buffer is smaller than the image's size asks for.
    BadImage,
    /// No QR code was found in the image.
    NoQrCode,
    /// A QR code was found but could not be decoded.
    QrUndecodable,
    /// The QR code's text is not a profile URL.
    BadUrl,
}

impl ImportError {
    pub fn message(&self) -> (r: &'static str) {
        match self {
            ImportError::NotAConfig => "No valid configuration found.",
            ImportError::BadImage => "Failed to create RGBA image from screenshot",
            ImportError::NoQrCode => "Failed to get QR code grid",
            ImportError::QrUndecodable => "Failed to decode QR code",
            ImportError::BadUrl => "Failed to parse the QR code's text as a node URL",
        }
    }
}

/// The RGBA buffer can hold no image of `width` by `height` pixels.
pub open spec fn too_small(width: u32, height: u32, len: nat) -> bool {
    4 * (width as int) * (height as int) > len
}

/// What decoding the QR code in an RGBA image gives, where `scan` is what
/// the scan of its grayscale pixels found.
pub open spec fn qr_outcome(
    width: u32,
    height: u32,
    len: nat,
    scan: Option<Option<Seq<char>>>,
) -> Result<Seq<char>, ImportError> {
    if too_small(width, height, len) {
        Err(ImportError::BadImage)
    } else {
        scan_result(scan)
    }
}

/// What a scan's finding gives: the text, or why there is none.
pub open spec fn scan_result(scan: Option<Option<Seq<char>>>) -> Result<Seq<char>, ImportError> {
    match scan {
        None => Err(ImportError::NoQrCode),
        Some(None) => Err(ImportError::QrUndecodable),
        Some(Some(t)) => Ok(t),
    }
}

/// What the scan of an RGBA image's grayscale pixels finds.
pub open spec fn image_scan(width: u32, height: u32, rgba: Seq<u8>) -> Option<Option<Seq<char>>> {
    qr_scan_of(width as nat, height as nat, luma_of(width as nat, height as nat, rgba))
}

/// A decoding result as the contracts see it.
pub open spec fn text_result(r: Result<String, ImportError>) -> Result<Seq<char>, ImportError> {
    match r {
        Ok(s) => Ok(s@),
        Err(e) => Err(e),
    }
}

/// Relies on `image::RgbaImage::from_raw` (None where the buffer is smaller
/// than four bytes per pixel), then `DynamicImage::to_luma8` and `into_raw`,
/// which give one byte per pixel and depend on the pixels alone.
#[verifier::external_body]
fn to_luma(width: u32, height: u32, rgba: Vec<u8>) -> (r: Option<Vec<u8>>)
    ensures
        r is None <==> too_small(width, height, rgba@.len()),
        r matches Some(l) ==> l@ == luma_of(width as nat, height as nat, rgba@) && l@.len() == width
            * height,
{
    let img = image::RgbaImage::from_raw(width, height, rgba)?;
    Some(image::DynamicImage::ImageRgba8(img).to_luma8().into_raw())
}

/// The gray value of pixel (`x`, `y`) of a `width` pixels wide image; white
/// outside it.
pub fn luma_at(luma: &Vec<u8>, width: usize, x: usize, y: usize) -> (r: u8)
    ensures
        x < width && (y * width + x) < luma@.len() ==> r == luma@[y * width + x],
{
    let len = luma.len();
    if x >= width {
        return 255;
    }
    match y.checked_mul(width) {
        Some(row) => match row.checked_add(x) {
            Some(i) => if i < len {
                luma[i]
            } else {
                255
            },
            None => 255,
        },
        None => 255,
    }
}

/// Relies on rqrr's `PreparedImage::prepare_from_greyscale` (which panics only
/// where `width * height` overflows), `detect_grids` and `Grid::decode` on the
/// first grid found; all of them depend on the pixels alone.
#[verifier::external_body]
fn scan_qr(width: usize, height: usize, luma: &Vec<u8>) -> (r: Result<String, ImportError>)
    requires
        luma@.len() == width * height,
    ensures
        text_result(r) == scan_result(qr_scan_of(width as nat, height as nat, luma@)),
{
    let mut prepared = rqrr::PreparedImage::prepare_from_greyscale(width, height, |x, y| luma_at(luma, width, x, y));
    let grids = prepared.detect_grids();
    let grid = grids.first().ok_or(ImportError::NoQrCode)?;
    grid.decode().map(|(_meta, text)| text).map_err(|_e| ImportError::QrUndecodable)
}

/// The text of the QR code that an RGBA image shows.
pub fn decode_qr(width: u32, height: u32, rgba: Vec<u8>) -> (r: Result<String, ImportError>)
    ensures
        text_result(r) == qr_outcome(width, height, rgba@.len(), image_scan(width, height, rgba@)),
{
    match to_luma(width, height, rgba) {
        None => Err(ImportError::BadImage),
        Some(luma) => scan_qr(width as usize, height as usize, &luma),
    }
}

/// The profile in pasted text: JSON first, then a profile URL.
pub fn node_from_text(text: &str) -> (r: Result<overtls::Config, ImportError>)
    ensures
        r.is_ok() == (node_json_accepts(text@) || node_url_accepts(text@)),
        r.is_err() ==> r == Err::<overtls::Config, ImportError>(ImportError::NotAConfig),
{
    match parse_node_json(text) {
        Ok(c) => Ok(c),
        Err(_) => match parse_node_url(text) {
            Ok(c) => Ok(c),
            Err(_) => Err(ImportError::NotAConfig),
        },
    }
}

/// The outcome of importing a profile from an RGBA image.
pub open spec fn image_import_ok(width: u32, height: u32, rgba: Seq<u8>) -> bool {
    !too_small(width, height, rgba.len()) && match image_scan(width, height, rgba) {
        Some(Some(t)) => node_url_accepts(t),
        _ => false,
    }
}

/// The error of a failed import from an RGBA image.
pub open spec fn image_import_error(width: u32, height: u32, rgba: Seq<u8>) -> ImportError {
    if too_small(width, height, rgba.len()) {
        ImportError::BadImage
    } else {
        match image_scan(width, height, rgba) {
            None => ImportError::NoQrCode,
            Some(None) => ImportError::QrUndecodable,
            Some(Some(_)) => ImportError::BadUrl,
        }
    }
}

/// The profile in the QR code that an RGBA image shows.
pub fn config_from_image(width: u32, height: u32, rgba: Vec<u8>) -> (r: Result<overtls::Config, ImportError>)
    ensures
        r.is_ok() == image_import_ok(width, height, rgba@),
        r.is_err() ==> r == Err::<overtls::Config, ImportError>(image_import_error(width, height, rgba@)),
{
    let text = decode_qr(width, height, rgba)?;
    match parse_node_url(text.as_str()) {
        Ok(c) => Ok(c),
        Err(_) => Err(ImportError::BadUrl),
    }
}

/// The RGBA bytes of the pixels of `data` from byte `start` on: one pixel per
/// `pixel_width` bytes, of which the first four are blue, green, red and
/// alpha; a pixel of fewer than four bytes is left out.
pub open spec fn rgba_from(data: Seq<u8>, pixel_width: nat, start: nat) -> Seq<u8>
    decreases if start <= data.len() {
        data.len() - start
    } else {
        0
    },
{
    if pixel_width < 4 || start + 4 > data.len() {
        Seq::empty()
    } else {
        seq![data[start + 2int], data[start + 1int], data[start as int], data[start + 3int]] + rgba_from(
            data,
            pixel_width,
            start + pixel_width,
        )
    }
}

/// Turns screenshot pixels (BGRA, `pixel_width` bytes each) into RGBA bytes.
pub fn bgra_to_rgba(data: &Vec<u8>, pixel_width: usize) -> (r: Vec<u8>)
    ensures
        r@ == rgba_from(data@, pixel_width as nat, 0),
{
    let mut out: Vec<u8> = Vec::new();
    if pixel_width < 4 {
        return out;
    }
    let len = data.len();
    let mut start: usize = 0;
    while start <= len && len - start >= 4
        invariant
            len == data@.len(),
            pixel_width >= 4,
            out@ + rgba_from(data@, pixel_width as nat, start as nat) == rgba_from(
                data@,
                pixel_width as nat,
                0,
            ),
        decreases len - start,
    {
        let ghost before = out@;
        out.push(data[start + 2]);
        out.push(data[start + 1]);
        out.push(data[start]);
        out.push(data[start + 3]);
        proof {
            let d = data@;
            let rest = rgba_from(d, pixel_width as nat, (start + pixel_width) as nat);
            assert(rgba_from(d, pixel_width as nat, start as nat) == seq![
                d[start + 2],
                d[start + 1],
                d[start as int],
                d[start + 3],
            ] + rest);
            assert(out@ =~= before + seq![d[start + 2], d[start + 1], d[start as int], d[start + 3]]);
            assert(out@ + rest =~= before + rgba_from(d, pixel_width as nat, start as nat));
        }
        if len - start < pixel_width {
            proof {
                assert(rgba_from(data@, pixel_width as nat, (start + pixel_width) as nat)
                    =~= Seq::empty());
                assert(out@ =~= out@ + rgba_from(data@, pixel_width as nat, (start + pixel_width) as nat));
            }
            return out;
        }
        start = start + pixel_width;
    }
    proof {
        assert(rgba_from(data@, pixel_width as nat, start as nat) =~= Seq::empty());
        assert(out@ + rgba_from(data@, pixel_width as nat, start as nat) =~= out@);
    }
    out
}

/// Imports the profile in the QR code that a screenshot shows; the screenshot
/// is `width` by `height` pixels of `pixel_width` BGRA bytes each.
pub fn screenshot_qr_import(width: u32, height: u32, pixel_width: usize, data: &Vec<u8>) -> (r: Result<
    overtls::Config,
    ImportError,
>)
    ensures
        r.is_ok() == image_import_ok(width, height, rgba_from(data@, pixel_width as nat, 0)),
        r.is_err() ==> r == Err::<overtls::Config, ImportError>(
            image_import_error(width, height, rgba_from(data@, pixel_width as nat, 0)),
        ),
{
    let rgba = bgra_to_rgba(data, pixel_width);
    config_from_image(width, height, rgba)
}

} // verus!
