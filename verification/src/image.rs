//! Images attached to messages: which files are accepted and how their
//! bytes become a `data:` URL.
use vstd::prelude::*;
use base64::Engine;
use crate::domain::ImageContent;

verus! {

/// The text `str::to_lowercase` makes of a text (Unicode lowercase mapping).
pub uninterp spec fn lowercase(s: Seq<char>) -> Seq<char>;

/// Lowercases a text (`str::to_lowercase`); the Unicode mapping is left to the name.
#[verifier::external_body]
pub(crate) fn to_lowercase(s: &str) -> (r: String)
    ensures
        r@ == lowercase(s@),
{
    s.to_lowercase()
}

/// The digit of a 6-bit value in Base64's standard alphabet: `A`-`Z`,
/// `a`-`z`, `0`-`9`, `+`, `/`.
pub open spec fn base64_digit(v: int) -> char {
    if v < 26 {
        (65 + v) as char
    } else if v < 52 {
        (71 + v) as char
    } else if v < 62 {
        (v - 4) as char
    } else if v == 62 {
        '+'
    } else {
        '/'
    }
}

/// The 6-bit value of a digit of Base64's standard alphabet.
pub open spec fn base64_value(c: char) -> int {
    if 'A' <= c && c <= 'Z' {
        c as int - 65
    } else if 'a' <= c && c <= 'z' {
        c as int - 71
    } else if '0' <= c && c <= '9' {
        c as int + 4
    } else if c == '+' {
        62
    } else {
        63
    }
}

/// The standard (RFC 4648, padded) Base64 encoding of some bytes: each
/// group of three bytes becomes four digits of six bits each; a last group
/// of one or two bytes is filled with zero bits and padded with `=`.
pub open spec fn base64_standard(b: Seq<u8>) -> Seq<char>
    decreases b.len(),
{
    if b.len() == 0 {
        Seq::empty()
    } else {
        let x = b[0] as int;
        let y = if b.len() > 1 { b[1] as int } else { 0 };
        let z = if b.len() > 2 { b[2] as int } else { 0 };
        let first = base64_digit(x / 4);
        let second = base64_digit((x % 4) * 16 + y / 16);
        if b.len() == 1 {
            seq![first, second, '=', '=']
        } else if b.len() == 2 {
            seq![first, second, base64_digit((y % 16) * 4), '=']
        } else {
            seq![first, second, base64_digit((y % 16) * 4 + z / 64), base64_digit(z % 64)]
                + base64_standard(b.skip(3))
        }
    }
}

/// Decoding of padded Base64 text, four digits at a time: three bytes per
/// group, or fewer where the group ends in `=`.
pub open spec fn base64_decoded(t: Seq<char>) -> Seq<u8>
    decreases t.len(),
{
    if t.len() < 4 {
        Seq::empty()
    } else {
        let a = base64_value(t[0]);
        let b = base64_value(t[1]);
        let c = base64_value(t[2]);
        let d = base64_value(t[3]);
        let group = if t[2] == '=' {
            seq![(a * 4 + b / 16) as u8]
        } else if t[3] == '=' {
            seq![(a * 4 + b / 16) as u8, ((b % 16) * 16 + c / 4) as u8]
        } else {
            seq![(a * 4 + b / 16) as u8, ((b % 16) * 16 + c / 4) as u8, ((c % 4) * 64 + d) as u8]
        };
        group + base64_decoded(t.skip(4))
    }
}

proof fn lemma_digit_round_trip(v: int)
    requires
        0 <= v < 64,
    ensures
        base64_value(base64_digit(v)) == v,
        base64_digit(v) != '=',
{
}

proof fn lemma_group_bits(x: int, y: int, z: int)
    by (nonlinear_arith)
    requires
        0 <= x < 256,
        0 <= y < 256,
        0 <= z < 256,
    ensures
        0 <= x / 4 < 64,
        0 <= (x % 4) * 16 + y / 16 < 64,
        0 <= (y % 16) * 4 + z / 64 < 64,
        0 <= z % 64 < 64,
        (x / 4) * 4 + ((x % 4) * 16 + y / 16) / 16 == x,
        (((x % 4) * 16 + y / 16) % 16) * 16 + ((y % 16) * 4 + z / 64) / 4 == y,
        (((y % 16) * 4 + z / 64) % 4) * 64 + z % 64 == z,
{
}

/// Law: Base64 text made by the standard encoding decodes back to the
/// bytes it was made of.
pub proof fn lemma_base64_round_trip(b: Seq<u8>)
    ensures
        base64_decoded(base64_standard(b)) == b,
    decreases b.len(),
{
    if b.len() > 0 {
        let x = b[0] as int;
        let y = if b.len() > 1 { b[1] as int } else { 0 };
        let z = if b.len() > 2 { b[2] as int } else { 0 };
        lemma_group_bits(x, y, z);
        let v0 = x / 4;
        let v1 = (x % 4) * 16 + y / 16;
        let v2 = (y % 16) * 4 + z / 64;
        let v3 = z % 64;
        lemma_digit_round_trip(v0);
        lemma_digit_round_trip(v1);
        lemma_digit_round_trip(v2);
        lemma_digit_round_trip(v3);
        let t = base64_standard(b);
        if b.len() == 1 {
            assert(t =~= seq![base64_digit(v0), base64_digit(v1), '=', '=']);
            assert(t.skip(4) =~= Seq::<char>::empty());
            assert(base64_decoded(t.skip(4)) =~= Seq::<u8>::empty());
            assert(base64_decoded(t) =~= seq![(v0 * 4 + v1 / 16) as u8]);
            assert(base64_decoded(t) =~= b);
        } else if b.len() == 2 {
            lemma_digit_round_trip((y % 16) * 4);
            assert(v2 == (y % 16) * 4);
            assert(t =~= seq![base64_digit(v0), base64_digit(v1), base64_digit(v2), '=']);
            assert(t.skip(4) =~= Seq::<char>::empty());
            assert(base64_decoded(t.skip(4)) =~= Seq::<u8>::empty());
            assert(base64_decoded(t) =~= seq![(v0 * 4 + v1 / 16) as u8, ((v1 % 16) * 16 + v2 / 4) as u8]);
            assert(base64_decoded(t) =~= b);
        } else {
            let rest = b.skip(3);
            lemma_base64_round_trip(rest);
            assert(t.skip(4) =~= base64_standard(rest));
            assert(base64_decoded(t) =~= seq![b[0], b[1], b[2]] + rest);
            assert(seq![b[0], b[1], b[2]] + rest =~= b);
        }
    }
}

/// Law: the data of an image's URL decodes back to the image's bytes.
pub proof fn lemma_image_data_decodes(mime: Seq<char>, bytes: Seq<u8>, url: Seq<char>)
    requires
        url == "data:"@ + mime + ";base64,"@ + base64_standard(bytes),
    ensures
        base64_decoded(url.skip(("data:"@ + mime + ";base64,"@).len() as int)) == bytes,
{
    let head = "data:"@ + mime + ";base64,"@;
    assert(url.skip(head.len() as int) =~= base64_standard(bytes));
    lemma_base64_round_trip(bytes);
}

/// Encodes bytes with Base64's standard alphabet and padding
/// (`base64::engine::general_purpose::STANDARD.encode`); the contract states
/// that encoding (see `base64_standard`) as RFC 4648 defines it.
#[verifier::external_body]
pub(crate) fn encode_base64(bytes: &[u8]) -> (r: String)
    ensures
        r@ == base64_standard(bytes@),
{
    base64::engine::general_purpose::STANDARD.encode(bytes)
}

/// The media type of an image by its (lowercase) file extension.
pub open spec fn mime_for_extension(ext: Seq<char>) -> Option<Seq<char>> {
    if ext == "png"@ {
        Some("image/png"@)
    } else if ext == "jpg"@ || ext == "jpeg"@ {
        Some("image/jpeg"@)
    } else if ext == "gif"@ {
        Some("image/gif"@)
    } else if ext == "webp"@ {
        Some("image/webp"@)
    } else {
        None
    }
}

/// The media type of an image by its (lowercase) file extension: png, jpeg
/// (`jpg` or `jpeg`), gif or webp.
pub fn mime_type(ext: &str) -> (r: Option<&'static str>)
    ensures
        match r {
            Some(m) => mime_for_extension(ext@) == Some(m@),
            None => mime_for_extension(ext@) is None,
        },
{
    if crate::text::str_eq(ext, "png") {
        Some("image/png")
    } else if crate::text::str_eq(ext, "jpg") || crate::text::str_eq(ext, "jpeg") {
        Some("image/jpeg")
    } else if crate::text::str_eq(ext, "gif") {
        Some("image/gif")
    } else if crate::text::str_eq(ext, "webp") {
        Some("image/webp")
    } else {
        None
    }
}

/// Decides whether a path can be loaded as an image, given what the file
/// system says of it and its extension (if any): it must exist, be a file
/// and have a supported extension (in any case). The answer is the media
/// type, or the message of the first check that fails.
pub fn check_image_path(
    display: &str,
    exists: bool,
    is_file: bool,
    extension: Option<&str>,
) -> (r: Result<&'static str, String>)
    ensures
        !exists ==> (r matches Err(e) && e@ == "Image file not found: "@ + display@),
        exists && !is_file ==> (r matches Err(e) && e@ == "Path is not a file: "@ + display@),
        exists && is_file ==> ({
            let ext = match extension {
                Some(x) => lowercase(x@),
                None => Seq::<char>::empty(),
            };
            match mime_for_extension(ext) {
                Some(m) => r matches Ok(t) && t@ == m,
                None => r matches Err(e) && e@ == "Unsupported image format: "@ + ext,
            }
        }),
{
    if !exists {
        return Err(crate::text::join2("Image file not found: ", display));
    }
    if !is_file {
        return Err(crate::text::join2("Path is not a file: ", display));
    }
    let ext = match extension {
        Some(x) => to_lowercase(x),
        None => String::new(),
    };
    match mime_type(ext.as_str()) {
        Some(m) => Ok(m),
        None => Err(crate::text::join2("Unsupported image format: ", ext.as_str())),
    }
}

/// The message for a file that could not be read.
pub fn read_failure(error: &str) -> (r: String)
    ensures
        r@ == "Failed to read image file: "@ + error@,
{
    crate::text::join2("Failed to read image file: ", error)
}

/// An image from its media type and bytes: a `data:<type>;base64,<data>`
/// URL with no detail level.
pub fn image_from_bytes(mime: &str, bytes: &[u8]) -> (r: ImageContent)
    ensures
        r.url@ == "data:"@ + mime@ + ";base64,"@ + base64_standard(bytes@),
        r.detail is None,
{
    let data = encode_base64(bytes);
    let mut url = crate::text::join3("data:", mime, ";base64,");
    url.append(data.as_str());
    ImageContent { url, detail: None }
}

/// The images among some loading outcomes, in order, failures left out.
pub open spec fn loaded_images(s: Seq<Result<ImageContent, String>>) -> Seq<ImageContent>
    decreases s.len(),
{
    if s.len() == 0 {
        Seq::empty()
    } else {
        match s.last() {
            Ok(img) => loaded_images(s.drop_last()).push(img),
            Err(_) => loaded_images(s.drop_last()),
        }
    }
}

/// The images among the outcomes of loading several paths, in order; the
/// failures are left out.
pub fn load_images_from_paths(loaded: Vec<Result<ImageContent, String>>) -> (r: Vec<ImageContent>)
    ensures
        r@ == loaded_images(loaded@),
{
    let mut images: Vec<ImageContent> = Vec::new();
    let mut i: usize = 0;
    while i < loaded.len()
        invariant
            i <= loaded@.len(),
            images@ == loaded_images(loaded@.take(i as int)),
        decreases loaded@.len() - i,
    {
        assert(loaded@.take(i + 1).drop_last() =~= loaded@.take(i as int));
        assert(loaded@.take(i + 1).last() == loaded@[i as int]);
        match &loaded[i] {
            Ok(img) => {
                images.push(img.clone());
            },
            Err(_) => {},
        }
        i = i + 1;
    }
    assert(loaded@.take(loaded@.len() as int) =~= loaded@);
    images
}

} // verus!
