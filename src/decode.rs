//! Decoding an image file's bytes into upright RGBA pixels.
//!
//! The pixels come from the `image` crate and the EXIF entries from `rexif`;
//! finding the orientation among the entries, reading its value and turning
//! the picture are verified here.
use crate::pixels::{apply_orientation, oriented, Orientation, PixelBuffer, PixelGrid};
use vstd::prelude::*;

verus! {

/// The EXIF tag number of the orientation entry.
pub const ORIENTATION_TAG: u32 = 0x0112;

/// One EXIF entry as the decoder reads it: its tag number, and its values when
/// they are 16-bit unsigned integers.
pub type ExifField = (u32, Option<Vec<u16>>);

/// What an EXIF entry holds, as the proofs see it.
pub open spec fn field_view(f: ExifField) -> (u32, Option<Seq<u16>>) {
    (
        f.0,
        match f.1 {
            Some(v) => Some(v@),
            None => None,
        },
    )
}

/// What a list of EXIF entries holds.
pub open spec fn fields_view(fs: Seq<ExifField>) -> Seq<(u32, Option<Seq<u16>>)> {
    fs.map_values(|f: ExifField| field_view(f))
}

/// The EXIF entries that `rexif` reads from a file's bytes, or `None` where it
/// finds none it can read.
pub uninterp spec fn exif_fields(bytes: Seq<u8>) -> Option<Seq<(u32, Option<Seq<u16>>)>>;

/// The picture that the `image` crate decodes from a file's bytes, as its width
/// and its rows of RGBA pixels, or `None` where it cannot decode them.
pub uninterp spec fn decoded_rgba(bytes: Seq<u8>) -> Option<(nat, Seq<Seq<[u8; 4]>>)>;

/// The values of the first orientation entry, when it is one of 16-bit values.
pub open spec fn orientation_values(fs: Seq<(u32, Option<Seq<u16>>)>) -> Option<Seq<u16>>
    decreases fs.len(),
{
    if fs.len() == 0 {
        None
    } else if fs[0].0 == ORIENTATION_TAG {
        fs[0].1
    } else {
        orientation_values(fs.skip(1))
    }
}

/// The orientation that EXIF values name: a single value from 1 to 8.
pub open spec fn orientation_named(v: Seq<u16>) -> Option<Orientation> {
    if v.len() != 1 {
        None
    } else {
        match v[0] {
            1 => Some(Orientation::Normal),
            2 => Some(Orientation::MirrorHorizontal),
            3 => Some(Orientation::Rotate180),
            4 => Some(Orientation::MirrorVertical),
            5 => Some(Orientation::MirrorHorizontalRotate270),
            6 => Some(Orientation::Rotate90),
            7 => Some(Orientation::MirrorHorizontalRotate90),
            8 => Some(Orientation::Rotate270),
            _ => None,
        }
    }
}

/// What a file's EXIF data says of its orientation.
pub enum ExifOrientation {
    /// No orientation entry of 16-bit values, or no readable EXIF data.
    Absent,
    /// A recognised orientation.
    Known(Orientation),
    /// An orientation entry whose values name no orientation; it is shown as
    /// stored, and the values are kept so that a caller can warn of them.
    Unrecognized(Vec<u16>),
}

/// The orientation that a picture is turned by for `e`: none unless recognised.
pub open spec fn effective(e: ExifOrientation) -> Orientation {
    match e {
        ExifOrientation::Known(o) => o,
        _ => Orientation::Normal,
    }
}

/// `e` is what the orientation values `v` say.
pub open spec fn reads_as(e: ExifOrientation, v: Option<Seq<u16>>) -> bool {
    match v {
        None => e is Absent,
        Some(s) => match orientation_named(s) {
            Some(o) => e == ExifOrientation::Known(o),
            None => e matches ExifOrientation::Unrecognized(w) && w@ == s,
        },
    }
}

/// Why a file could not be decoded.
#[derive(Clone, Copy, Debug, PartialEq, Eq)]
pub enum DecodeError {
    /// The file could not be read.
    Io,
    /// The bytes are no image that can be decoded.
    Format,
}

/// A decoded picture, turned upright, with what its EXIF data said.
pub struct DecodedImage {
    pub image: PixelBuffer,
    pub orientation: ExifOrientation,
}

#[verifier::external_type_specification]
#[verifier::external_body]
pub struct ExImageError(image::ImageError);

/// Relies on `rexif::parse_buffer_quiet`: the EXIF entries of a JPEG or TIFF
/// file's bytes, each given as its tag number and its values when they are
/// 16-bit unsigned integers; `None` where the parse fails.
#[verifier::external_body]
fn parse_exif(bytes: &[u8]) -> (r: Option<Vec<ExifField>>)
    ensures
        match r {
            Some(fs) => exif_fields(bytes@) == Some(fields_view(fs@)),
            None => exif_fields(bytes@) is None,
        },
{
    match rexif::parse_buffer_quiet(bytes).0 {
        Ok(data) => Some(
            data.entries.into_iter().map(
                |e| (e.tag as u32, match e.value {
                    rexif::TagValue::U16(v) => Some(v),
                    _ => None,
                }),
            ).collect(),
        ),
        Err(_) => None,
    }
}

/// Relies on `image::load_from_memory` and `DynamicImage::to_rgba8`: the
/// picture decoded from a file's bytes, as its width and its rows of RGBA pixels,
/// each row as wide as the picture.
#[verifier::external_body]
fn decode_rgba(bytes: &[u8]) -> (r: Result<(usize, Vec<Vec<[u8; 4]>>), image::ImageError>)
    ensures
        match r {
            Ok((w, rows)) => {
                &&& decoded_rgba(bytes@) == Some(
                    (w as nat, rows@.map_values(|row: Vec<[u8; 4]>| row@)),
                )
                &&& forall|y: int| 0 <= y < rows@.len() ==> (#[trigger] rows@[y])@.len() == w
            },
            Err(_) => decoded_rgba(bytes@) is None,
        },
{
    let img = image::load_from_memory(bytes)?.to_rgba8();
    let rows = img.rows().map(|row| row.map(|p| p.0).collect()).collect();
    Ok((img.width() as usize, rows))
}

/// The values of the first orientation entry among `fields`, when they are
/// 16-bit values.
pub fn find_orientation(fields: &Vec<ExifField>) -> (r: Option<&Vec<u16>>)
    ensures
        match r {
            Some(v) => orientation_values(fields_view(fields@)) == Some(v@),
            None => orientation_values(fields_view(fields@)) is None,
        },
{
    let ghost all = fields_view(fields@);
    let mut i: usize = 0;
    assert(all.skip(0) =~= all);
    while i < fields.len()
        invariant
            i <= fields@.len(),
            all == fields_view(fields@),
            orientation_values(all) == orientation_values(all.skip(i as int)),
        decreases fields@.len() - i,
    {
        let ghost rest = all.skip(i as int);
        assert(rest[0] == field_view(fields@[i as int]));
        assert(rest.skip(1) =~= all.skip(i + 1));
        if fields[i].0 == ORIENTATION_TAG {
            return match &fields[i].1 {
                Some(v) => Some(v),
                None => None,
            };
        }
        i = i + 1;
    }
    assert(all.skip(i as int).len() == 0);
    None
}

/// What the orientation values `v` say.
pub fn read_orientation(v: Option<&Vec<u16>>) -> (r: ExifOrientation)
    ensures
        reads_as(
            r,
            match v {
                Some(s) => Some(s@),
                None => None,
            },
        ),
{
    match v {
        None => ExifOrientation::Absent,
        Some(s) => {
            if s.len() == 1 {
                match s[0] {
                    1 => ExifOrientation::Known(Orientation::Normal),
                    2 => ExifOrientation::Known(Orientation::MirrorHorizontal),
                    3 => ExifOrientation::Known(Orientation::Rotate180),
                    4 => ExifOrientation::Known(Orientation::MirrorVertical),
                    5 => ExifOrientation::Known(Orientation::MirrorHorizontalRotate270),
                    6 => ExifOrientation::Known(Orientation::Rotate90),
                    7 => ExifOrientation::Known(Orientation::MirrorHorizontalRotate90),
                    8 => ExifOrientation::Known(Orientation::Rotate270),
                    _ => ExifOrientation::Unrecognized(s.clone()),
                }
            } else {
                ExifOrientation::Unrecognized(s.clone())
            }
        },
    }
}

/// The orientation values of EXIF entries that may be missing.
pub open spec fn exif_orientation_values(fields: Option<Seq<(u32, Option<Seq<u16>>)>>) -> Option<
    Seq<u16>,
> {
    match fields {
        Some(fs) => orientation_values(fs),
        None => None,
    }
}

/// Turns a decoded picture upright as its EXIF entries (if any were read) say.
pub fn orient_decoded(pixels: PixelBuffer, fields: Option<&Vec<ExifField>>) -> (r: DecodedImage)
    requires
        pixels.wf(),
    ensures
        reads_as(
            r.orientation,
            exif_orientation_values(
                match fields {
                    Some(fs) => Some(fields_view(fs@)),
                    None => None,
                },
            ),
        ),
        r.image.wf(),
        r.image.grid() == oriented(pixels.grid(), effective(r.orientation)),
{
    let values = match fields {
        Some(fs) => find_orientation(fs),
        None => None,
    };
    let orientation = read_orientation(values);
    let o = match &orientation {
        ExifOrientation::Known(o) => *o,
        _ => Orientation::Normal,
    };
    DecodedImage { image: apply_orientation(pixels, o), orientation }
}

/// Decodes an image file's bytes into RGBA pixels and turns the picture upright
/// as its EXIF orientation says.
///
/// Fails with [`DecodeError::Format`] exactly when the bytes are no picture the
/// `image` crate decodes. Missing or unreadable EXIF data is no failure: the
/// picture is then shown as stored.
pub fn load_image_from_bytes(bytes: &[u8]) -> (r: Result<DecodedImage, DecodeError>)
    ensures
        r is Ok <==> decoded_rgba(bytes@) is Some,
        r matches Err(e) ==> e == DecodeError::Format,
        r matches Ok(d) ==> {
            let (width, rows) = decoded_rgba(bytes@)->0;
            &&& reads_as(d.orientation, exif_orientation_values(exif_fields(bytes@)))
            &&& d.image.wf()
            &&& d.image.grid() == oriented(
                PixelGrid { width, rows },
                effective(d.orientation),
            )
        },
{
    let (width, rows) = match decode_rgba(bytes) {
        Ok(parts) => parts,
        Err(_) => return Err(DecodeError::Format),
    };
    let pixels = match PixelBuffer::from_rows(width, rows) {
        Some(p) => p,
        None => return Err(DecodeError::Format),
    };
    let fields = parse_exif(bytes);
    let fields_ref = match &fields {
        Some(fs) => Some(fs),
        None => None,
    };
    Ok(orient_decoded(pixels, fields_ref))
}

} // verus!
