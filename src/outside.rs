//! The calls into outside crates that the logic makes, with what is assumed of
//! each.
use vstd::prelude::*;
use rustc_serialize::base64::ToBase64;

verus! {

#[verifier::external_type_specification]
#[verifier::external_body]
pub struct ExUrlParseError(url::ParseError);

#[verifier::external_type_specification]
#[verifier::external_body]
pub struct ExPngEncodingError(png::EncodingError);

/// The serialization of `s` parsed as an absolute URL, or `None` where it is
/// not one.
pub uninterp spec fn parsed_url(s: Seq<char>) -> Option<Seq<char>>;

/// The PNG file of an 8-bit RGB image, or `None` where the encoder refuses
/// the image.
pub uninterp spec fn png_rgb8(width: u32, height: u32, pixels: Seq<u8>) -> Option<Seq<u8>>;

pub open spec fn base64_alphabet() -> Seq<char> {
    "ABCDEFGHIJKLMNOPQRSTUVWXYZabcdefghijklmnopqrstuvwxyz0123456789+/"@
}

pub open spec fn sextet(v: int) -> char {
    base64_alphabet()[v]
}

/// Base64 of `b` in the standard alphabet, padded with `=`, on one line:
/// each group of three bytes gives four characters, a last group of one or
/// two bytes gives two or three, padded to four.
pub open spec fn base64_of(b: Seq<u8>) -> Seq<char>
    decreases b.len(),
{
    if b.len() == 0 {
        seq![]
    } else if b.len() == 1 {
        seq![sextet(b[0] as int / 4), sextet((b[0] as int % 4) * 16), '=', '=']
    } else if b.len() == 2 {
        seq![
            sextet(b[0] as int / 4),
            sextet((b[0] as int % 4) * 16 + b[1] as int / 16),
            sextet((b[1] as int % 16) * 4),
            '=',
        ]
    } else {
        seq![
            sextet(b[0] as int / 4),
            sextet((b[0] as int % 4) * 16 + b[1] as int / 16),
            sextet((b[1] as int % 16) * 4 + b[2] as int / 64),
            sextet(b[2] as int % 64),
        ] + base64_of(b.subrange(3, b.len() as int))
    }
}

/// Base64 text has four characters for each started group of three bytes,
/// each of them from the alphabet or the padding `=`.
pub proof fn lemma_base64_shape(b: Seq<u8>)
    ensures
        base64_of(b).len() == (b.len() + 2) / 3 * 4,
        forall|i: int| 0 <= i < base64_of(b).len() ==> #[trigger] base64_of(b)[i] == '='
            || base64_alphabet().contains(base64_of(b)[i]),
    decreases b.len(),
{
    reveal_strlit("ABCDEFGHIJKLMNOPQRSTUVWXYZabcdefghijklmnopqrstuvwxyz0123456789+/");
    assert(base64_alphabet().len() == 64);
    let s = base64_of(b);
    if b.len() >= 3 {
        let rest = b.subrange(3, b.len() as int);
        lemma_base64_shape(rest);
        assert forall|i: int| 0 <= i < s.len() implies #[trigger] s[i] == '=' || base64_alphabet().contains(s[i]) by {
            if i >= 4 {
                assert(s[i] == base64_of(rest)[i - 4]);
            } else if i == 0 {
                assert(base64_alphabet()[b[0] as int / 4] == s[i]);
            } else if i == 1 {
                assert(base64_alphabet()[(b[0] as int % 4) * 16 + b[1] as int / 16] == s[i]);
            } else if i == 2 {
                assert(base64_alphabet()[(b[1] as int % 16) * 4 + b[2] as int / 64] == s[i]);
            } else {
                assert(base64_alphabet()[b[2] as int % 64] == s[i]);
            }
        }
    } else if b.len() == 2 {
        assert(base64_alphabet()[b[0] as int / 4] == s[0]);
        assert(base64_alphabet()[(b[0] as int % 4) * 16 + b[1] as int / 16] == s[1]);
        assert(base64_alphabet()[(b[1] as int % 16) * 4] == s[2]);
    } else if b.len() == 1 {
        assert(base64_alphabet()[b[0] as int / 4] == s[0]);
        assert(base64_alphabet()[(b[0] as int % 4) * 16] == s[1]);
    }
}

/// Relies on url::Url::parse, and Url::as_str for the serialization of what
/// it parsed; parsing depends on the input alone.
#[verifier::external_body]
pub(crate) fn parse_url(s: &str) -> (r: Result<String, url::ParseError>)
    ensures
        r is Ok == parsed_url(s@) is Some,
        r is Ok ==> r->Ok_0@ == parsed_url(s@)->Some_0,
{
    url::Url::parse(s).map(|u| u.as_str().to_string())
}

/// Relies on png::Encoder (RGB, 8-bit depth) writing into memory: the file
/// depends on the image alone, and writing to a `Vec` cannot fail. The buffer
/// holds three bytes per pixel, so the encoder's size arithmetic stays within
/// the buffer's length.
#[verifier::external_body]
pub(crate) fn encode_png(width: u32, height: u32, pixels: &Vec<u8>) -> (r: Result<Vec<u8>, png::EncodingError>)
    requires
        pixels@.len() == 3 * (width * height),
    ensures
        r is Ok == png_rgb8(width, height, pixels@) is Some,
        r is Ok ==> r->Ok_0@ == png_rgb8(width, height, pixels@)->Some_0,
{
    let mut out = Vec::new();
    let mut encoder = png::Encoder::new(&mut out, width, height);
    encoder.set_color(png::ColorType::Rgb);
    encoder.set_depth(png::BitDepth::Eight);
    let mut writer = encoder.write_header()?;
    writer.write_image_data(pixels)?;
    writer.finish()?;
    Ok(out)
}

/// Relies on rustc_serialize's ToBase64 for byte slices, with the standard
/// alphabet, padding, LF newlines and no line wrapping.
#[verifier::external_body]
pub(crate) fn to_base64(bytes: &Vec<u8>) -> (r: String)
    ensures
        r@ == base64_of(bytes@),
{
    bytes[..].to_base64(rustc_serialize::base64::Config {
        char_set: rustc_serialize::base64::CharacterSet::Standard,
        newline: rustc_serialize::base64::Newline::LF,
        pad: true,
        line_length: None,
    })
}

pub open spec fn is_lower_hex(c: char) -> bool {
    ('0' <= c && c <= '9') || ('a' <= c && c <= 'f')
}

/// The hyphenated lowercase text of a version-4 (random) UUID of the
/// RFC 4122 variant.
pub open spec fn is_v4_uuid_text(s: Seq<char>) -> bool {
    &&& s.len() == 36
    &&& forall|i: int| 0 <= i < 36 ==> if i == 8 || i == 13 || i == 18 || i == 23 {
        s[i] == '-'
    } else {
        is_lower_hex(#[trigger] s[i])
    }
    &&& s[14] == '4'
    &&& s[19] == '8' || s[19] == '9' || s[19] == 'a' || s[19] == 'b'
}

/// Relies on uuid::Uuid::new_v4 for a random identifier with the version and
/// variant bits set, written by its `Display` in the hyphenated lowercase form.
#[verifier::external_body]
pub(crate) fn fresh_uuid() -> (r: String)
    ensures
        is_v4_uuid_text(r@),
{
    uuid::Uuid::new_v4().to_string()
}

} // verus!
