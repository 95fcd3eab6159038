//! The parser, the renderer and the PNG encoder that the service relies on.
//!
//! Nothing in this file is proved: each function states what is taken on
//! trust about the code it calls.

use vstd::prelude::*;
use crate::response::begins_as_png;
use crate::tile_set::TileSet;
use image::{DynamicImage, ImageError, ImageFormat};
use riichi_hand::parser::{HandParseError, HandParser};
use riichi_hand::raster_renderer::fluffy_stuff_tile_sets::{
    BLACK_FLUFFY_STUFF_TILE_SET, RED_FLUFFY_STUFF_TILE_SET, YELLOW_FLUFFY_STUFF_TILE_SET,
};
use riichi_hand::raster_renderer::martin_persson_tile_sets::MARTIN_PERSSON_TILE_SET;
use riichi_hand::raster_renderer::{HandRenderError, RasterRenderer, RenderOptions};
use riichi_hand::Hand;
use std::io::Cursor;

verus! {

#[verifier::external_type_specification]
#[verifier::external_body]
pub struct ExHand(Hand);

#[verifier::external_type_specification]
#[verifier::external_body]
pub struct ExHandParseError(HandParseError);

#[verifier::external_type_specification]
#[verifier::external_body]
pub struct ExHandRenderError(HandRenderError);

#[verifier::external_type_specification]
#[verifier::external_body]
pub struct ExDynamicImage(DynamicImage);

#[verifier::external_type_specification]
#[verifier::external_body]
pub struct ExImageError(ImageError);

/// What `HandParser::parse` makes of a notation.
pub uninterp spec fn parsed_hand(notation: Seq<char>) -> Result<Hand, HandParseError>;

/// The text that a `HandParseError` is displayed as.
pub uninterp spec fn parse_error_text(error: HandParseError) -> Seq<char>;

/// What `RasterRenderer::render` draws for a hand with the default options
/// and the tile images that go by the name of `tile_set`.
pub uninterp spec fn rendered_hand(hand: Hand, tile_set: TileSet) -> Result<
    DynamicImage,
    HandRenderError,
>;

/// The text that a `HandRenderError` is displayed as.
pub uninterp spec fn render_error_text(error: HandRenderError) -> Seq<char>;

/// What `DynamicImage::write_to` writes for an image in the PNG format.
pub uninterp spec fn encoded_png(image: DynamicImage) -> Result<Seq<u8>, ImageError>;

/// The text that an `ImageError` is displayed as.
pub uninterp spec fn image_error_text(error: ImageError) -> Seq<char>;

/// Whether `hand` is what the parser makes of some notation of at most
/// `limit` characters.
pub open spec fn parsed_within(hand: Hand, limit: nat) -> bool {
    exists|notation: Seq<char>|
        notation.len() <= limit && #[trigger] parsed_hand(notation) == Ok::<Hand, HandParseError>(
            hand,
        )
}

/// Whether `error` is what the renderer answers for some hand of a notation
/// of at most a hundred characters, with one of the tile sets.
pub open spec fn render_failure(error: HandRenderError) -> bool {
    exists|hand: Hand, tile_set: TileSet|
        parsed_within(hand, 100) && #[trigger] rendered_hand(hand, tile_set) == Err::<
            DynamicImage,
            HandRenderError,
        >(error)
}

/// Whether `image` is what the renderer draws for some hand of a notation of
/// at most a hundred characters, with one of the tile sets.
pub open spec fn drawn_picture(image: DynamicImage) -> bool {
    exists|hand: Hand, tile_set: TileSet|
        parsed_within(hand, 100) && #[trigger] rendered_hand(hand, tile_set) == Ok::<
            DynamicImage,
            HandRenderError,
        >(image)
}

/// Whether `error` is what the encoder answers for some picture that the
/// renderer drew.
pub open spec fn encode_failure(error: ImageError) -> bool {
    exists|image: DynamicImage|
        drawn_picture(image) && #[trigger] encoded_png(image) == Err::<Seq<u8>, ImageError>(error)
}

/// Calls `riichi_hand::parser::HandParser::parse`. The parser walks the
/// notation once and keeps no state between calls, so its answer depends on
/// the notation alone.
#[verifier::external_body]
pub(crate) fn parse_hand(notation: &str) -> (result: Result<Hand, HandParseError>)
    ensures
        result == parsed_hand(notation@),
{
    HandParser::parse(notation)
}

/// Calls `to_string` on a `HandParseError`: the text depends on the error
/// alone.
#[verifier::external_body]
pub(crate) fn describe_parse_error(error: &HandParseError) -> (text: String)
    ensures
        text@ == parse_error_text(*error),
{
    error.to_string()
}

/// Calls `riichi_hand::raster_renderer::RasterRenderer::render` with
/// `YELLOW_FLUFFY_STUFF_TILE_SET` and the default options, and wraps the
/// bitmap as a `DynamicImage`. The picture depends on the hand alone. The
/// renderer computes sizes without checking for overflow, so only hands of
/// a bounded notation are handed to it.
#[verifier::external_body]
pub(crate) fn render_yellow(hand: &Hand) -> (result: Result<DynamicImage, HandRenderError>)
    requires
        parsed_within(*hand, 100),
    ensures
        result == rendered_hand(*hand, TileSet::Yellow),
{
    RasterRenderer::render(hand, &*YELLOW_FLUFFY_STUFF_TILE_SET, RenderOptions::default())
        .map(DynamicImage::ImageRgba8)
}

/// As `render_yellow`, with `RED_FLUFFY_STUFF_TILE_SET`.
#[verifier::external_body]
pub(crate) fn render_red(hand: &Hand) -> (result: Result<DynamicImage, HandRenderError>)
    requires
        parsed_within(*hand, 100),
    ensures
        result == rendered_hand(*hand, TileSet::Red),
{
    RasterRenderer::render(hand, &*RED_FLUFFY_STUFF_TILE_SET, RenderOptions::default())
        .map(DynamicImage::ImageRgba8)
}

/// As `render_yellow`, with `BLACK_FLUFFY_STUFF_TILE_SET`.
#[verifier::external_body]
pub(crate) fn render_black(hand: &Hand) -> (result: Result<DynamicImage, HandRenderError>)
    requires
        parsed_within(*hand, 100),
    ensures
        result == rendered_hand(*hand, TileSet::Black),
{
    RasterRenderer::render(hand, &*BLACK_FLUFFY_STUFF_TILE_SET, RenderOptions::default())
        .map(DynamicImage::ImageRgba8)
}

/// As `render_yellow`, with `MARTIN_PERSSON_TILE_SET`, which has no images
/// of rotated tiles: a hand that holds one is not drawn.
#[verifier::external_body]
pub(crate) fn render_martin_persson(hand: &Hand) -> (result: Result<
    DynamicImage,
    HandRenderError,
>)
    requires
        parsed_within(*hand, 100),
    ensures
        result == rendered_hand(*hand, TileSet::MartinPersson),
{
    RasterRenderer::render(hand, &*MARTIN_PERSSON_TILE_SET, RenderOptions::default())
        .map(DynamicImage::ImageRgba8)
}

/// Calls `to_string` on a `HandRenderError`: the text depends on the error
/// alone. The text names the tile that could not be drawn, and naming a tile
/// looks its value up in a table: only the errors of the renderer, whose
/// tiles the parser made, are handed to it.
#[verifier::external_body]
pub(crate) fn describe_render_error(error: &HandRenderError) -> (text: String)
    requires
        render_failure(*error),
    ensures
        text@ == render_error_text(*error),
{
    error.to_string()
}

/// Calls `image::DynamicImage::write_to` with `ImageFormat::Png` on an empty
/// buffer and hands the buffer back. The bytes depend on the image alone,
/// and the encoder writes the signature of the format before anything else.
/// The encoder insists that an image holds exactly the bytes that its size
/// asks for, which holds of the pictures of the renderer: only those are
/// handed to it.
#[verifier::external_body]
pub(crate) fn encode_png(image: &DynamicImage) -> (result: Result<Vec<u8>, ImageError>)
    requires
        drawn_picture(*image),
    ensures
        match result {
            Ok(bytes) => encoded_png(*image) == Ok::<Seq<u8>, ImageError>(bytes@),
            Err(error) => encoded_png(*image) == Err::<Seq<u8>, ImageError>(error),
        },
        result matches Ok(bytes) ==> begins_as_png(bytes@),
{
    let mut buffer = Vec::new();
    let written = image.write_to(&mut Cursor::new(&mut buffer), ImageFormat::Png);
    written.map(|_| buffer)
}

/// Calls `to_string` on an `ImageError`: the text depends on the error alone.
/// That is so for the errors of encoding into memory, whose texts the
/// encoder fixes, and not for every error of the operating system: only the
/// errors of encoding a picture of the renderer are handed to it.
#[verifier::external_body]
pub(crate) fn describe_image_error(error: &ImageError) -> (text: String)
    requires
        encode_failure(*error),
    ensures
        text@ == image_error_text(*error),
{
    error.to_string()
}

} // verus!
