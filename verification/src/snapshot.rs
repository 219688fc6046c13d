//! Screen snapshots: turning the captured pixels into a PNG, and carrying
//! the PNG between the agent and the service as Base64 text.
use vstd::prelude::*;

use crate::error::Error;
use crate::model::AgentCommandResponse;
use crate::secret::{base64_bytes, base64_decode, base64_encode, base64_text};

verus! {

/// RGBA pixels from BGRA pixels (the capture's layout), fully opaque.
pub open spec fn rgba_of(bgra: Seq<u8>) -> Seq<u8> {
    Seq::new(
        bgra.len(),
        |i: int|
            if i % 4 == 0 {
                bgra[i + 2]
            } else if i % 4 == 1 {
                bgra[i]
            } else if i % 4 == 2 {
                bgra[i - 2]
            } else {
                255u8
            },
    )
}

/// Reorders captured BGRA pixels into opaque RGBA pixels.
pub fn bgra_to_rgba(bgra: &[u8]) -> (r: Vec<u8>)
    requires
        bgra@.len() % 4 == 0,
    ensures
        r@ == rgba_of(bgra@),
{
    let n = bgra.len();
    let mut rgba: Vec<u8> = Vec::new();
    let mut i: usize = 0;
    while i < n
        invariant
            n == bgra@.len(),
            n % 4 == 0,
            i % 4 == 0,
            i <= n,
            rgba@.len() == i,
            forall|j: int| 0 <= j < i ==> rgba@[j] == #[trigger] rgba_of(bgra@)[j],
        decreases n - i,
    {
        rgba.push(bgra[i + 2]);
        rgba.push(bgra[i + 1]);
        rgba.push(bgra[i]);
        rgba.push(255);
        i = i + 4;
    }
    assert(rgba@ =~= rgba_of(bgra@));
    rgba
}

/// The PNG file for an 8-bit RGBA image, if the `png` encoder accepts it.
pub uninterp spec fn png_rgba8(width: u32, height: u32, rgba: Seq<u8>) -> Option<Seq<u8>>;

/// Encodes an 8-bit RGBA image as PNG with the `png` crate (`Encoder::new`,
/// `set_color(Rgba)`, `set_depth(Eight)`, `write_header`,
/// `write_image_data`) into memory. The buffer must hold exactly
/// `width * height` pixels of four bytes: `write_image_data` computes that
/// size without an overflow check, and with it the size fits. `write_header`
/// refuses only a zero width or height; `write_image_data` then refuses only a
/// buffer of another size, and writing into a `Vec` does not fail, so every
/// other image is encoded. The encoding is a function of its arguments and is
/// named; the encoder's error message is not stated.
#[verifier::external_body]
fn encode_png(width: u32, height: u32, rgba: &[u8]) -> (r: Result<Vec<u8>, String>)
    requires
        rgba@.len() == width * height * 4,
    ensures
        r is Ok <==> (width > 0 && height > 0),
        match r {
            Ok(v) => png_rgba8(width, height, rgba@) == Some(v@),
            Err(_) => png_rgba8(width, height, rgba@) is None,
        },
{
    let mut png = Vec::new();
    let mut encoder = png::Encoder::new(&mut png, width, height);
    encoder.set_color(png::ColorType::Rgba);
    encoder.set_depth(png::BitDepth::Eight);
    let mut writer = match encoder.write_header() {
        Ok(writer) => writer,
        Err(error) => return Err(error.to_string()),
    };
    if let Err(error) = writer.write_image_data(rgba) {
        return Err(error.to_string());
    }
    drop(writer);
    Ok(png)
}

/// The PNG of a captured screen: the BGRA pixels reordered into opaque RGBA
/// and encoded, or the encoder's message.
pub fn png_from_capture(width: u32, height: u32, bgra: &[u8]) -> (r: Result<Vec<u8>, String>)
    requires
        bgra@.len() == width * height * 4,
    ensures
        r is Ok <==> (width > 0 && height > 0),
        match r {
            Ok(v) => png_rgba8(width, height, rgba_of(bgra@)) == Some(v@),
            Err(_) => png_rgba8(width, height, rgba_of(bgra@)) is None,
        },
{
    assert(bgra@.len() % 4 == 0) by (nonlinear_arith)
        requires
            bgra@.len() == width * height * 4,
    ;
    let rgba = bgra_to_rgba(bgra);
    encode_png(width, height, rgba.as_slice())
}

/// The agent's answer to a snapshot command: the PNG as Base64 text (which
/// decodes back to the PNG), or the capture's error message.
pub fn snapshot_response(capture: Result<Vec<u8>, String>) -> (r: AgentCommandResponse)
    ensures
        match capture {
            Ok(png) => r matches AgentCommandResponse::Snapshot { png_base64 } && png_base64@
                == base64_text(png@) && base64_bytes(png_base64@) == Some(png@),
            Err(message) => r matches AgentCommandResponse::Error { message: m } && m == message,
        },
{
    match capture {
        Ok(png) => AgentCommandResponse::Snapshot { png_base64: base64_encode(png.as_slice()) },
        Err(message) => AgentCommandResponse::Error { message },
    }
}

/// The PNG that the agent's answer carries, or why there is none.
pub fn snapshot_bytes(response: AgentCommandResponse) -> (r: Result<Vec<u8>, Error>)
    ensures
        match response {
            AgentCommandResponse::Snapshot { png_base64 } => match base64_bytes(png_base64@) {
                Some(b) => r matches Ok(v) && v@ == b,
                None => r matches Err(Error::SnapshotUnavailable(_)),
            },
            AgentCommandResponse::Error { message } => r matches Err(
                Error::SnapshotUnavailable(m),
            ) && m == message,
        },
{
    match response {
        AgentCommandResponse::Snapshot { png_base64 } => match base64_decode(png_base64.as_str()) {
            Ok(bytes) => Ok(bytes),
            Err(message) => Err(Error::SnapshotUnavailable(message)),
        },
        AgentCommandResponse::Error { message } => Err(Error::SnapshotUnavailable(message)),
    }
}

} // verus!
