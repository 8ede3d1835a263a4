//! Robot geometry: decoding the two base64 streams of a robot and copying
//! decoded cells into a caller's buffer.

use vstd::prelude::*;
use vstd::utf8::{decode_utf8, valid_utf8};
use crate::ctext::decode_text;
use crate::output::taken;

verus! {

/// One block of a robot: its kind, position, orientation and colour.
#[derive(Clone, Copy, Debug, PartialEq, Eq, Structural)]
pub struct CubeC {
    pub id: u32,
    /// Left to right.
    pub x: u8,
    /// Bottom to top.
    pub y: u8,
    /// Back to front.
    pub z: u8,
    pub orientation: u8,
    pub colour: u8,
}

/// Why the geometry streams of a robot could not be decoded.
#[derive(Clone, Copy, Debug, PartialEq, Eq, Structural)]
pub enum GeometryError {
    /// A stream is not valid UTF-8.
    InvalidUtf8,
    /// A stream is not standard base64.
    InvalidBase64,
}

/// What standard base64 decoding makes of a text: its bytes, or `None`
/// where the text is not standard base64.
pub uninterp spec fn base64_decoded(s: Seq<char>) -> Option<Seq<u8>>;

/// The bytes of an optional buffer.
pub open spec fn opt_seq(o: Option<Vec<u8>>) -> Option<Seq<u8>> {
    match o {
        Some(v) => Some(v@),
        None => None,
    }
}

/// Relies on base64::decode_config_buf with the STANDARD configuration:
/// into an empty buffer it decodes the text, or fails on text that is not
/// standard base64.
#[verifier::external_body]
fn decode_base64(s: &str) -> (r: Option<Vec<u8>>)
    ensures
        opt_seq(r) == base64_decoded(s@),
{
    let mut buf: Vec<u8> = Vec::new();
    match base64::decode_config_buf(s, base64::STANDARD, &mut buf) {
        Ok(()) => Some(buf),
        Err(_) => None,
    }
}

/// What one stream, given as the bytes of a C string, decodes to.
pub open spec fn stream_decoded(b: Seq<u8>) -> Result<Seq<u8>, GeometryError> {
    if !valid_utf8(b) {
        Err(GeometryError::InvalidUtf8)
    } else {
        match base64_decoded(decode_utf8(b)) {
            Some(d) => Ok(d),
            None => Err(GeometryError::InvalidBase64),
        }
    }
}

fn decode_stream(b: Vec<u8>) -> (r: Result<Vec<u8>, GeometryError>)
    ensures
        match stream_decoded(b@) {
            Ok(d) => r matches Ok(v) && v@ == d,
            Err(e) => r == Err::<Vec<u8>, GeometryError>(e),
        },
{
    match decode_text(b) {
        Some(s) => match decode_base64(s.as_str()) {
            Some(v) => Ok(v),
            None => Err(GeometryError::InvalidBase64),
        },
        None => Err(GeometryError::InvalidUtf8),
    }
}

/// Decodes the cube stream and the colour stream of a robot, each given as
/// the bytes of a C string without its terminator. The first stream that
/// fails decides the error.
pub fn decode_geometry(cube_data: Vec<u8>, colour_data: Vec<u8>) -> (r: Result<(Vec<u8>, Vec<u8>), GeometryError>)
    ensures
        match (stream_decoded(cube_data@), stream_decoded(colour_data@)) {
            (Ok(c), Ok(k)) => r matches Ok(p) && p.0@ == c && p.1@ == k,
            (Err(e), _) => r == Err::<(Vec<u8>, Vec<u8>), GeometryError>(e),
            (Ok(_), Err(e)) => r == Err::<(Vec<u8>, Vec<u8>), GeometryError>(e),
        },
{
    let cubes = decode_stream(cube_data)?;
    let colours = decode_stream(colour_data)?;
    Ok((cubes, colours))
}

/// The cells that a buffer of capacity `items` receives from the decoded
/// `cubes`: the first `min(items, K)` of them, in order, for positions
/// `0..min(items, K)`.
pub fn place_cubes(items: u32, cubes: &Vec<CubeC>) -> (r: Vec<CubeC>)
    ensures
        r@.len() == taken(items, cubes@.len()),
        r@ == cubes@.subrange(0, r@.len() as int),
        cubes@.len() <= items as nat ==> r@ == cubes@,
{
    let max: usize = if cubes.len() < items as usize { cubes.len() } else { items as usize };
    let mut placed: Vec<CubeC> = Vec::new();
    let mut i: usize = 0;
    while i < max
        invariant
            max == taken(items, cubes@.len()),
            max <= cubes@.len(),
            i <= max,
            placed@ == cubes@.subrange(0, i as int),
        decreases max - i,
    {
        placed.push(cubes[i]);
        i = i + 1;
        assert(placed@ =~= cubes@.subrange(0, i as int));
    }
    assert(cubes@.len() <= items as nat ==> placed@ =~= cubes@);
    placed
}

} // verus!
