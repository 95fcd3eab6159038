//! What a successful request is answered with: the picture, its content type
//! and the caching directive.

use vstd::prelude::*;
use vstd::string::StringExecFns;
use bytes::Bytes;
use crate::text::{contains_text, decimal, lemma_contains_middle, push_decimal};

verus! {

/// The status sent with a picture.
pub const STATUS_OK: u16 = 200;

/// For how many seconds a picture may be kept by whoever received it: seven
/// days.
pub const CACHE_MAX_AGE: u32 = 7 * 24 * 60 * 60;

/// The eight bytes that every PNG file begins with.
pub open spec fn png_signature() -> Seq<u8> {
    seq![0x89u8, 0x50u8, 0x4eu8, 0x47u8, 0x0du8, 0x0au8, 0x1au8, 0x0au8]
}

/// Whether `bytes` begin as a PNG file does.
pub open spec fn begins_as_png(bytes: Seq<u8>) -> bool {
    bytes.len() >= 8 && bytes.subrange(0, 8) == png_signature()
}

/// The kinds of body that the service sends.
#[derive(Copy, Clone, Debug, PartialEq, Eq, Structural)]
pub enum ContentType {
    /// A picture.
    Png,
    /// The description of a failure.
    Json,
}

impl ContentType {
    /// The value of the `Content-Type` header.
    pub open spec fn spec_as_str(self) -> Seq<char> {
        match self {
            ContentType::Png => "image/png"@,
            ContentType::Json => "application/json"@,
        }
    }

    /// The value of the `Content-Type` header.
    pub fn as_str(&self) -> (value: &'static str)
        ensures
            value@ == self.spec_as_str(),
    {
        match self {
            ContentType::Png => "image/png",
            ContentType::Json => "application/json",
        }
    }
}

/// The value of a `Cache-Control` header that lets anyone keep the body for
/// `max_age` seconds, and asks to check again afterwards if `must_revalidate`
/// is set.
pub open spec fn cache_control_text(max_age: u32, must_revalidate: bool) -> Seq<char> {
    "public, max-age="@ + decimal(max_age as nat) + if must_revalidate {
        ", must-revalidate"@
    } else {
        Seq::<char>::empty()
    }
}

/// The value of the `Cache-Control` header for the given directive.
pub fn cache_control_value(max_age: u32, must_revalidate: bool) -> (value: String)
    ensures
        value@ == cache_control_text(max_age, must_revalidate),
{
    let mut value = String::from_str("public, max-age=");
    push_decimal(&mut value, max_age as usize);
    if must_revalidate {
        value.append(", must-revalidate");
    }
    assert(value@ =~= cache_control_text(max_age, must_revalidate));
    value
}

/// A body that anyone may keep for a while.
#[derive(Debug, Clone)]
pub struct CacheResponse {
    /// The body.
    pub responder: Vec<u8>,
    /// For how many seconds the body may be kept.
    pub max_age: u32,
    /// Whether the body must be checked again once that time is over.
    pub must_revalidate: bool,
}

impl CacheResponse {
    /// The value of the `Cache-Control` header that goes with the body.
    pub fn cache_control(&self) -> (value: String)
        ensures
            value@ == cache_control_text(self.max_age, self.must_revalidate),
    {
        cache_control_value(self.max_age, self.must_revalidate)
    }
}

#[verifier::external_type_specification]
#[verifier::external_body]
pub struct ExBytes(Bytes);

/// The bytes that a `Bytes` holds, in order.
pub uninterp spec fn bytes_content(bytes: Bytes) -> Seq<u8>;

/// Calls `Bytes::from` on a vector: the buffer holds what the vector held.
#[verifier::external_body]
fn bytes_from_vec(bytes: Vec<u8>) -> (buffer: Bytes)
    ensures
        bytes_content(buffer) == bytes@,
{
    Bytes::from(bytes)
}

/// Calls `to_vec` on the slice that a `Bytes` dereferences to: a copy of what
/// the buffer holds.
#[verifier::external_body]
fn bytes_to_vec(buffer: &Bytes) -> (bytes: Vec<u8>)
    ensures
        bytes@ == bytes_content(*buffer),
{
    buffer.to_vec()
}

/// `Clone` for `Bytes`: the copy holds the same bytes.
pub assume_specification[ <Bytes as Clone>::clone ](buffer: &Bytes) -> (copy: Bytes)
    ensures
        bytes_content(copy) == bytes_content(*buffer),
;

/// A picture in the PNG format, ready to be sent.
#[derive(Debug, Clone, PartialEq, Eq, Hash)]
pub struct ImageResponse {
    image: Bytes,
}

impl View for ImageResponse {
    type V = Seq<u8>;

    closed spec fn view(&self) -> Seq<u8> {
        bytes_content(self.image)
    }
}

impl ImageResponse {
    /// Wraps the bytes of a picture.
    #[must_use]
    pub fn new(image: Vec<u8>) -> (response: Self)
        ensures
            response@ == image@,
    {
        Self { image: bytes_from_vec(image) }
    }

    /// The status that the picture is sent with.
    pub fn status(&self) -> (status: u16)
        ensures
            status == STATUS_OK,
    {
        STATUS_OK
    }

    /// The content type that the picture is sent with.
    pub fn content_type(&self) -> (content_type: ContentType)
        ensures
            content_type == ContentType::Png,
    {
        ContentType::Png
    }

    /// The value of the `Cache-Control` header that the picture is sent with:
    /// the same for every picture.
    pub fn cache_control(&self) -> (value: String)
        ensures
            value@ == cache_control_text(CACHE_MAX_AGE, false),
    {
        cache_control_value(CACHE_MAX_AGE, false)
    }

    /// A copy of the bytes of the picture.
    pub fn to_vec(&self) -> (bytes: Vec<u8>)
        ensures
            bytes@ == self@,
    {
        bytes_to_vec(&self.image)
    }

    /// The bytes of the picture.
    pub fn into_bytes(self) -> (bytes: Bytes)
        ensures
            bytes_content(bytes) == self@,
    {
        self.image
    }
}

/// The caching directive of a picture reads `public, max-age=604800`.
pub proof fn lemma_cache_control_of_pictures()
    ensures
        cache_control_text(CACHE_MAX_AGE, false) == "public, max-age=604800"@,
        contains_text(cache_control_text(CACHE_MAX_AGE, false), "max-age=604800"@),
        !contains_text(cache_control_text(CACHE_MAX_AGE, false), "must-revalidate"@),
{
    reveal_strlit("public, max-age=");
    reveal_strlit("public, max-age=604800");
    reveal_strlit("max-age=604800");
    reveal_strlit("must-revalidate");
    reveal_with_fuel(decimal, 7);
    let text = cache_control_text(CACHE_MAX_AGE, false);
    assert(decimal(604800) =~= seq!['6', '0', '4', '8', '0', '0']);
    assert(text =~= "public, max-age=604800"@);
    let needle = "max-age=604800"@;
    assert(needle.len() == 14);
    let start: int = 8;
    assert(text.subrange(start, start + needle.len()) =~= needle);
    assert forall|start: int| 0 <= start <= text.len() - 15 implies #[trigger] text.subrange(
        start,
        start + 15,
    ) != "must-revalidate"@ by {
        assert(text.subrange(start, start + 15)[0] == text[start]);
        assert(text.subrange(start, start + 15)[1] == text[start + 1]);
    }
}

} // verus!
