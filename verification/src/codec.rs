//! The hash codec boundary: encoding a transformed RGBA buffer into a compact
//! hash string and decoding such a string back into a pixel buffer at a
//! requested resolution. Both directions are pure and synchronous.

use vstd::prelude::*;

verus! {

#[verifier::external_type_specification]
#[verifier::external_body]
pub struct ExBlurhashError(blurhash::Error);

/// What `blurhash::encode` returns for in-range component counts: a function
/// of the grid, the dimensions and the buffer alone.
pub uninterp spec fn spec_encode(
    components_x: int,
    components_y: int,
    width: int,
    height: int,
    pixels: Seq<u8>,
) -> Seq<char>;

/// What `blurhash::decode` with the neutral punch factor returns: `Some` of
/// the decoded buffer for a hash it accepts at the requested size, `None` for
/// one it rejects, a function of the hash and the size alone.
pub uninterp spec fn spec_decode(hash: Seq<char>, width: int, height: int) -> Option<Seq<u8>>;

/// Relies on `blurhash::encode`: it errs exactly when a component count lies
/// outside 1..=9, and otherwise the hash depends only on the arguments. The
/// length bounds keep its internal index arithmetic within `u32`.
///
/// The last clause relies on the two functions together: every hash `encode`
/// emits is well-formed by construction — base83 characters only (all ASCII),
/// a size flag naming its own grid, and exactly the length `decode` expects
/// for that grid — and `decode`'s acceptance checks read the hash alone,
/// never the requested size. So a freshly encoded hash decodes at every size.
#[verifier::external_body]
fn encode_rgba(
    components_x: u32,
    components_y: u32,
    width: u32,
    height: u32,
    pixels: &Vec<u8>,
) -> (r: Result<String, blurhash::Error>)
    requires
        width >= 1,
        height >= 1,
        pixels@.len() == 4 * width * height,
        4 * width * height <= u32::MAX,
    ensures
        r is Ok <==> (1 <= components_x <= 9 && 1 <= components_y <= 9),
        r matches Ok(hash) ==> hash@ == spec_encode(
            components_x as int,
            components_y as int,
            width as int,
            height as int,
            pixels@,
        ),
        r matches Ok(hash) ==> forall|w: int, h: int|
            (#[trigger] spec_decode(hash@, w, h)) is Some,
{
    blurhash::encode(components_x, components_y, width, height, pixels.as_slice())
}

/// Relies on `blurhash::decode` with a neutral punch factor of one: it errs
/// exactly on a hash it cannot parse for the requested size, and a decoded
/// buffer holds four bytes per requested pixel. The size bound keeps its
/// internal buffer arithmetic within `u32`.
#[verifier::external_body]
fn decode_rgba(hash: &String, width: u32, height: u32) -> (r: Result<Vec<u8>, blurhash::Error>)
    requires
        4 * width * height <= u32::MAX,
        4 * width <= u32::MAX,
    ensures
        match r {
            Ok(pixels) => spec_decode(hash@, width as int, height as int) == Some(pixels@)
                && pixels@.len() == 4 * width * height,
            Err(_) => spec_decode(hash@, width as int, height as int) is None,
        },
{
    blurhash::decode(hash.as_str(), width, height, 1u8.into())
}

/// Encodes a transformed buffer, surfacing the codec's rejection of an
/// out-of-range grid as this library's encode failure. A hash this returns
/// is well-formed and decodes at every size.
pub fn encode(
    components_x: u32,
    components_y: u32,
    width: u32,
    height: u32,
    pixels: &Vec<u8>,
) -> (r: Result<String, crate::error::ComputeError>)
    requires
        width >= 1,
        height >= 1,
        pixels@.len() == 4 * width * height,
        4 * width * height <= u32::MAX,
    ensures
        r is Ok <==> (1 <= components_x <= 9 && 1 <= components_y <= 9),
        r matches Ok(hash) ==> hash@ == spec_encode(
            components_x as int,
            components_y as int,
            width as int,
            height as int,
            pixels@,
        ),
        r matches Ok(hash) ==> forall|w: int, h: int|
            (#[trigger] spec_decode(hash@, w, h)) is Some,
        r matches Err(e) ==> e == crate::error::ComputeError::EncodeFailed,
{
    match encode_rgba(components_x, components_y, width, height, pixels) {
        Ok(hash) => Ok(hash),
        Err(_) => Err(crate::error::ComputeError::EncodeFailed),
    }
}

/// Decodes a hash to an RGBA buffer of the requested size with the neutral
/// punch factor, surfacing the codec's rejection as this library's decode
/// failure.
pub fn decode(hash: &String, width: u32, height: u32) -> (r: Result<
    Vec<u8>,
    crate::error::ComputeError,
>)
    requires
        4 * width * height <= u32::MAX,
        4 * width <= u32::MAX,
    ensures
        match r {
            Ok(pixels) => spec_decode(hash@, width as int, height as int) == Some(pixels@)
                && pixels@.len() == 4 * width * height,
            Err(e) => spec_decode(hash@, width as int, height as int) is None && e
                == crate::error::ComputeError::DecodeFailed,
        },
{
    match decode_rgba(hash, width, height) {
        Ok(pixels) => Ok(pixels),
        Err(_) => Err(crate::error::ComputeError::DecodeFailed),
    }
}

} // verus!
