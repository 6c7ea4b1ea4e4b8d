//! Clipboard content resolver: classifies one clipboard snapshot and derives
//! the file name and exact bytes to persist, or an explicit "nothing to
//! save" outcome, or a per-activation failure. An activation never yields
//! more than one artifact.

use crate::formats::is_toml;
use crate::formats::json_pretty;
use crate::formats::spec_tier;
use crate::formats::text_payload_view;
use crate::formats::TextTier;
use crate::hashing::fnv1a;
use crate::hashing::fnv1a_of;
use crate::hashing::hex64;
use crate::hashing::hex64_string;
use crate::naming::name_stem;
use crate::naming::sanitized_prefix;
use crate::naming::tagged_name;
use vstd::prelude::*;

verus! {

/// A point-in-time snapshot of clipboard state: at most one of an image
/// payload (8-bit RGBA) or a text payload, or neither.
pub enum ClipboardSnapshot {
    Image { width: u32, height: u32, rgba: Vec<u8> },
    Text { text: String },
    Empty,
}

/// The exact content to write: text (persisted as its UTF-8 encoding) or raw
/// bytes.
pub enum Payload {
    Text(String),
    Binary(Vec<u8>),
}

/// The resolved decision for one activation: a file name (relative to the
/// fixed output directory) and the exact content to write there.
pub struct Artifact {
    pub file_name: String,
    pub payload: Payload,
}

/// A per-activation failure: the activation is reported and dropped, the
/// process keeps listening.
pub enum ResolveError {
    /// The image buffer does not hold width * height * 4 bytes.
    MalformedImage,
    /// The image encoder rejected the buffer (for instance a zero dimension).
    ImageEncode,
}

/// The outcome of one activation: exactly one artifact, or an explicit
/// "nothing to save", or a contained failure.
pub enum Outcome {
    Saved(Artifact),
    NothingToSave,
    Failed(ResolveError),
}

/// Whether an RGBA buffer matches its claimed dimensions: exactly
/// width * height * 4 bytes.
pub open spec fn well_formed_image(width: u32, height: u32, rgba: Seq<u8>) -> bool {
    rgba.len() == width * height * 4
}

/// The PNG encoding of an RGBA image, as the image crate's PNG encoder
/// produces it. The bytes depend on the dimensions and pixel bytes alone.
pub uninterp spec fn png_of(width: u32, height: u32, rgba: Seq<u8>) -> Seq<u8>;

/// The file name for an image payload: a fixed tag plus the hex FNV-1a
/// digest of the raw pixel bytes.
pub open spec fn image_file_name(rgba: Seq<u8>) -> Seq<char> {
    "Img_"@ + hex64(fnv1a_of(rgba)) + ".png"@
}

/// The file name for a text payload: the tier's tag and extension around the
/// sanitized stem of the text.
pub open spec fn text_file_name(t: Seq<char>) -> Seq<char> {
    match spec_tier(t) {
        TextTier::Json => "Json_"@ + name_stem(t) + ".json"@,
        TextTier::Toml => "Toml_"@ + name_stem(t) + ".toml"@,
        TextTier::Plain => "Text_"@ + name_stem(t) + ".txt"@,
    }
}

/// The outcome saved exactly the PNG artifact for this image snapshot.
pub open spec fn saved_image(out: Outcome, width: u32, height: u32, rgba: Seq<u8>) -> bool {
    &&& out matches Outcome::Saved(a)
    &&& a.file_name@ == image_file_name(rgba)
    &&& a.payload matches Payload::Binary(b) && b@ == png_of(width, height, rgba)
}

/// The outcome saved exactly the text artifact for this text snapshot.
pub open spec fn saved_text(out: Outcome, t: Seq<char>) -> bool {
    &&& out matches Outcome::Saved(a)
    &&& a.file_name@ == text_file_name(t)
    &&& a.payload matches Payload::Text(p) && p@ == text_payload_view(t)
}

/// The full contract of one activation: what outcome the resolver hands back
/// for each snapshot.
pub open spec fn resolves_to(snapshot: ClipboardSnapshot, out: Outcome) -> bool {
    match snapshot {
        ClipboardSnapshot::Image { width, height, rgba } => {
            if !well_formed_image(width, height, rgba@) {
                out == Outcome::Failed(ResolveError::MalformedImage)
            } else {
                saved_image(out, width, height, rgba@) || out == Outcome::Failed(
                    ResolveError::ImageEncode,
                )
            }
        },
        ClipboardSnapshot::Text { text } => saved_text(out, text@),
        ClipboardSnapshot::Empty => out == Outcome::NothingToSave,
    }
}

/// Relies on `image::RgbaImage::from_raw` (which accepts a buffer of exactly
/// width * height * 4 bytes) and `ImageBuffer::write_to` with
/// `ImageFormat::Png`: the encoded bytes depend on the dimensions and pixel
/// bytes alone.
#[verifier::external_body]
fn encode_png(width: u32, height: u32, rgba: Vec<u8>) -> (r: Option<Vec<u8>>)
    requires
        rgba@.len() == width * height * 4,
    ensures
        r is Some ==> r->0@ == png_of(width, height, rgba@),
{
    let img = match image::RgbaImage::from_raw(width, height, rgba) {
        Some(i) => i,
        None => return None,
    };
    let mut out = std::io::Cursor::new(Vec::new());
    match img.write_to(&mut out, image::ImageFormat::Png) {
        Ok(()) => Some(out.into_inner()),
        Err(_) => None,
    }
}

/// Resolves one clipboard snapshot into its activation outcome.
///
/// Classification order: an image payload wins, then text (JSON before TOML
/// before plain), and an empty snapshot yields the distinct "nothing to
/// save" outcome. The file name is a deterministic function of the content
/// (see the naming module), so identical content always maps to the same
/// name and a repeated activation overwrites the earlier file.
pub fn resolve(snapshot: ClipboardSnapshot) -> (out: Outcome)
    ensures
        resolves_to(snapshot, out),
{
    match snapshot {
        ClipboardSnapshot::Image { width, height, rgba } => {
            proof {
                vstd::arithmetic::mul::lemma_mul_upper_bound(
                    width as int,
                    0xffff_ffff as int,
                    height as int,
                    0xffff_ffff as int,
                );
            }
            let expected: u128 = (width as u128) * (height as u128) * 4;
            if (rgba.len() as u128) != expected {
                Outcome::Failed(ResolveError::MalformedImage)
            } else {
                let digest: u64 = fnv1a(&rgba);
                let hex = hex64_string(digest);
                let name = tagged_name("Img_", hex.as_str(), ".png");
                match encode_png(width, height, rgba) {
                    Some(bytes) => Outcome::Saved(
                        Artifact { file_name: name, payload: Payload::Binary(bytes) },
                    ),
                    None => Outcome::Failed(ResolveError::ImageEncode),
                }
            }
        },
        ClipboardSnapshot::Text { text } => {
            let stem = sanitized_prefix(text.as_str());
            match json_pretty(text.as_str()) {
                Some(pretty) => {
                    let name = tagged_name("Json_", stem.as_str(), ".json");
                    Outcome::Saved(Artifact { file_name: name, payload: Payload::Text(pretty) })
                },
                None => {
                    if is_toml(text.as_str()) {
                        let name = tagged_name("Toml_", stem.as_str(), ".toml");
                        Outcome::Saved(Artifact { file_name: name, payload: Payload::Text(text) })
                    } else {
                        let name = tagged_name("Text_", stem.as_str(), ".txt");
                        Outcome::Saved(Artifact { file_name: name, payload: Payload::Text(text) })
                    }
                },
            }
        },
        ClipboardSnapshot::Empty => Outcome::NothingToSave,
    }
}

/// Whether two snapshots carry identical clipboard content.
pub open spec fn snapshot_content_eq(a: ClipboardSnapshot, b: ClipboardSnapshot) -> bool {
    match (a, b) {
        (
            ClipboardSnapshot::Image { width: w1, height: h1, rgba: r1 },
            ClipboardSnapshot::Image { width: w2, height: h2, rgba: r2 },
        ) => w1 == w2 && h1 == h2 && r1@ == r2@,
        (
            ClipboardSnapshot::Text { text: t1 },
            ClipboardSnapshot::Text { text: t2 },
        ) => t1@ == t2@,
        (ClipboardSnapshot::Empty, ClipboardSnapshot::Empty) => true,
        _ => false,
    }
}

/// Whether two payloads hold the same content.
pub open spec fn payload_content_eq(p: Payload, q: Payload) -> bool {
    match (p, q) {
        (Payload::Text(s1), Payload::Text(s2)) => s1@ == s2@,
        (Payload::Binary(b1), Payload::Binary(b2)) => b1@ == b2@,
        _ => false,
    }
}

/// Naming-policy idempotence: two activations on identical clipboard content
/// resolve to the same file name, and, whenever both produce an artifact, to
/// the same content — so the later write overwrites the earlier file with
/// identical bytes, never scattering copies.
pub proof fn lemma_repeat_activation(
    a: ClipboardSnapshot,
    b: ClipboardSnapshot,
    out_a: Outcome,
    out_b: Outcome,
)
    requires
        snapshot_content_eq(a, b),
        resolves_to(a, out_a),
        resolves_to(b, out_b),
    ensures
        out_a matches Outcome::Saved(x) ==> out_b matches Outcome::Saved(y)
            ==> x.file_name@ == y.file_name@ && payload_content_eq(x.payload, y.payload),
{
}

} // verus!
