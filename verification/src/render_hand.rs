//! From the parameters of a request to the picture of the hand, or to the
//! failure that the request ends in.
//!
//! A request is received as [`RenderHandParams`]. Its notation is measured
//! and parsed, which is cheap: what passes is a [`RenderJob`]. The job is
//! drawn, which gives a [`RenderedHand`], and the drawing is encoded, which
//! gives the bytes of the picture: this is the slow part, which a server runs
//! away from the threads that serve other requests. Last, whatever came back
//! from the worker is turned into the answer, an [`ImageResponse`]. Every
//! step may instead end the request in a [`ServiceError`].

use vstd::prelude::*;
use vstd::string::{StrSliceExecFns, StringExecFns};
use crate::collaborators::{
    drawn_picture, encode_failure, encode_png, encoded_png, image_error_text, parse_error_text,
    parse_hand, parsed_hand, parsed_within, render_black, render_error_text, render_failure,
    render_martin_persson, render_red, render_yellow, rendered_hand,
};
use crate::errors::{join_error_text, ServiceError, ServiceErrorView};
use crate::response::{
    begins_as_png, CacheResponse, ContentType, ImageResponse, CACHE_MAX_AGE,
};
use crate::text::{contains_text, decimal, lemma_contains_middle, push_decimal};
use crate::tile_set::TileSet;
use image::{DynamicImage, ImageError};
use riichi_hand::parser::HandParseError;
use riichi_hand::raster_renderer::HandRenderError;
use riichi_hand::Hand;
use tokio::task::JoinError;

verus! {

/// The longest notation, in characters, that is looked at.
pub const MAX_HAND_LEN: usize = 100;

/// The parameters of a request: the notation of a hand, and the tile set to
/// draw it with.
#[derive(Debug, Clone)]
pub struct RenderHandParams {
    pub hand: String,
    pub tile_set: TileSet,
}

/// What a worker hands back: the bytes of the picture, or the failure.
pub open spec fn png_view(result: Result<Vec<u8>, ServiceError>) -> Result<
    Seq<u8>,
    ServiceErrorView,
> {
    match result {
        Ok(bytes) => Ok(bytes@),
        Err(error) => Err(error@),
    }
}

/// What a request is answered with: the bytes of the picture, or the failure.
pub open spec fn response_view(result: Result<ImageResponse, ServiceError>) -> Result<
    Seq<u8>,
    ServiceErrorView,
> {
    match result {
        Ok(response) => Ok(response@),
        Err(error) => Err(error@),
    }
}

/// The message for a notation of `len` characters, which is too long.
pub open spec fn length_exceeded_message(len: nat) -> Seq<char> {
    "Maximum hand description length exceeded ("@ + decimal(len) + "/"@ + decimal(
        MAX_HAND_LEN as nat,
    ) + " characters)"@
}

/// What measuring and parsing make of a notation: the hand, or the failure.
pub open spec fn prepared(notation: Seq<char>) -> Result<Hand, ServiceErrorView> {
    if notation.len() > MAX_HAND_LEN {
        Err(ServiceErrorView::BadRequest(length_exceeded_message(notation.len())))
    } else {
        match parsed_hand(notation) {
            Ok(hand) => Ok(hand),
            Err(error) => Err(ServiceErrorView::BadRequest(parse_error_text(error))),
        }
    }
}

/// What drawing makes of a hand: the picture, or the failure.
pub open spec fn rendered(hand: Hand, tile_set: TileSet) -> Result<DynamicImage, ServiceErrorView> {
    match rendered_hand(hand, tile_set) {
        Ok(image) => Ok(image),
        Err(error) => Err(ServiceErrorView::BadRequest(render_error_text(error))),
    }
}

/// What encoding makes of a picture: its bytes, or the failure.
pub open spec fn encoded(image: DynamicImage) -> Result<Seq<u8>, ServiceErrorView> {
    match encoded_png(image) {
        Ok(bytes) => Ok(bytes),
        Err(error) => Err(ServiceErrorView::BadRequest(image_error_text(error))),
    }
}

/// What drawing and encoding make of a hand: the bytes of the picture, or the
/// failure.
pub open spec fn drawn(hand: Hand, tile_set: TileSet) -> Result<Seq<u8>, ServiceErrorView> {
    match rendered(hand, tile_set) {
        Err(error) => Err(error),
        Ok(image) => encoded(image),
    }
}

/// What a request ends in when the worker finishes its task.
pub open spec fn render_outcome(notation: Seq<char>, tile_set: TileSet) -> Result<
    Seq<u8>,
    ServiceErrorView,
> {
    match prepared(notation) {
        Err(error) => Err(error),
        Ok(hand) => drawn(hand, tile_set),
    }
}

/// What a request ends in, given what came back from the worker.
pub open spec fn completed(joined: Result<Result<Vec<u8>, ServiceError>, JoinError>) -> Result<
    Seq<u8>,
    ServiceErrorView,
> {
    match joined {
        Err(error) => Err(ServiceErrorView::Internal(join_error_text(error))),
        Ok(result) => png_view(result),
    }
}

/// Turns away a notation of more than `MAX_HAND_LEN` characters, with a
/// message that gives its length and the limit.
pub fn check_hand_length(hand: &str) -> (result: Result<(), ServiceError>)
    ensures
        hand@.len() <= MAX_HAND_LEN ==> result is Ok,
        hand@.len() > MAX_HAND_LEN ==> (result matches Err(error) && error@
            == ServiceErrorView::BadRequest(length_exceeded_message(hand@.len()))),
{
    let len: usize = hand.unicode_len();
    if len > MAX_HAND_LEN {
        let mut message = String::from_str("Maximum hand description length exceeded (");
        push_decimal(&mut message, len);
        message.append("/");
        push_decimal(&mut message, MAX_HAND_LEN);
        message.append(" characters)");
        assert(message@ =~= length_exceeded_message(hand@.len()));
        Err(ServiceError::BadRequest(message))
    } else {
        Ok(())
    }
}

/// A hand that has been drawn and waits to be encoded.
pub struct RenderedHand {
    image: DynamicImage,
}

impl RenderedHand {
    /// The picture is one that the renderer drew.
    #[verifier::type_invariant]
    spec fn drawn_by_renderer(self) -> bool {
        drawn_picture(self.image)
    }

    /// The picture of the hand.
    pub closed spec fn image(self) -> DynamicImage {
        self.image
    }

    /// Encodes the picture as PNG. A picture that cannot be encoded counts
    /// as the request's fault.
    pub fn encode(self) -> (result: Result<Vec<u8>, ServiceError>)
        ensures
            png_view(result) == encoded(self.image()),
            result matches Ok(bytes) ==> begins_as_png(bytes@),
    {
        proof {
            use_type_invariant(&self);
        }
        match encode_png(&self.image) {
            Ok(bytes) => Ok(bytes),
            Err(error) => {
                assert(encode_failure(error)) by {
                    assert(encoded_png(self.image) == Err::<Seq<u8>, ImageError>(error));
                }
                Err(ServiceError::from_image_error(&error))
            },
        }
    }
}

/// A request that passed the checks on its notation and waits to be drawn.
pub struct RenderJob {
    hand: Hand,
    tile_set: TileSet,
}

impl RenderJob {
    /// The hand of a job comes from a notation within the limit.
    #[verifier::type_invariant]
    spec fn bounded(self) -> bool {
        parsed_within(self.hand, MAX_HAND_LEN as nat)
    }

    /// The hand to draw.
    pub closed spec fn hand(self) -> Hand {
        self.hand
    }

    /// The tile set to draw it with.
    pub closed spec fn tile_set(self) -> TileSet {
        self.tile_set
    }

    /// Draws the hand with the tile images of its tile set. A hand that
    /// cannot be drawn is the request's fault.
    pub fn render(self) -> (result: Result<RenderedHand, ServiceError>)
        ensures
            match result {
                Ok(picture) => rendered(self.hand(), self.tile_set()) == Ok::<
                    DynamicImage,
                    ServiceErrorView,
                >(picture.image()),
                Err(error) => rendered(self.hand(), self.tile_set()) == Err::<
                    DynamicImage,
                    ServiceErrorView,
                >(error@),
            },
    {
        proof {
            use_type_invariant(&self);
        }
        let outcome = match self.tile_set {
            TileSet::Yellow => render_yellow(&self.hand),
            TileSet::Red => render_red(&self.hand),
            TileSet::Black => render_black(&self.hand),
            TileSet::MartinPersson => render_martin_persson(&self.hand),
        };
        match outcome {
            Ok(image) => {
                assert(drawn_picture(image)) by {
                    assert(rendered_hand(self.hand, self.tile_set) == Ok::<
                        DynamicImage,
                        HandRenderError,
                    >(image));
                }
                Ok(RenderedHand { image })
            },
            Err(error) => {
                assert(render_failure(error)) by {
                    assert(rendered_hand(self.hand, self.tile_set) == Err::<
                        DynamicImage,
                        HandRenderError,
                    >(error));
                }
                Err(ServiceError::from_render_error(&error))
            },
        }
    }

    /// Draws the hand and encodes the drawing as PNG.
    pub fn run(self) -> (result: Result<Vec<u8>, ServiceError>)
        ensures
            png_view(result) == drawn(self.hand(), self.tile_set()),
            result matches Ok(bytes) ==> begins_as_png(bytes@),
    {
        match self.render() {
            Err(error) => Err(error),
            Ok(picture) => picture.encode(),
        }
    }
}

/// Measures and parses the notation. A notation that is too long is not
/// parsed.
pub fn prepare(hand: &str, tile_set: TileSet) -> (result: Result<RenderJob, ServiceError>)
    ensures
        match result {
            Ok(job) => prepared(hand@) == Ok::<Hand, ServiceErrorView>(job.hand())
                && job.tile_set() == tile_set,
            Err(error) => prepared(hand@) == Err::<Hand, ServiceErrorView>(error@),
        },
{
    match check_hand_length(hand) {
        Err(error) => Err(error),
        Ok(()) => match parse_hand(hand) {
            Err(error) => Err(ServiceError::from_parse_error(&error)),
            Ok(parsed) => {
                assert(parsed_within(parsed, MAX_HAND_LEN as nat)) by {
                    assert(parsed_hand(hand@) == Ok::<Hand, HandParseError>(parsed));
                }
                Ok(RenderJob { hand: parsed, tile_set })
            },
        },
    }
}

/// Turns what came back from the worker into the answer: a worker that did
/// not finish is the server's fault, a failure of the job stays what it is,
/// and the bytes of a picture are wrapped for sending.
pub fn complete(joined: Result<Result<Vec<u8>, ServiceError>, JoinError>) -> (result: Result<
    ImageResponse,
    ServiceError,
>)
    ensures
        response_view(result) == completed(joined),
{
    match joined {
        Err(error) => Err(ServiceError::from_join_error(&error)),
        Ok(Err(error)) => Err(error),
        Ok(Ok(bytes)) => Ok(ImageResponse::new(bytes)),
    }
}

/// Serves a request from its parameters to its answer, all steps in the
/// calling thread.
pub fn new_render_hand(params: RenderHandParams) -> (result: Result<ImageResponse, ServiceError>)
    ensures
        response_view(result) == render_outcome(params.hand@, params.tile_set),
        result matches Ok(response) ==> begins_as_png(response@),
{
    match prepare(params.hand.as_str(), params.tile_set) {
        Err(error) => Err(error),
        Ok(job) => complete(Ok(job.run())),
    }
}

/// Serves a request and says how its answer is to be sent: as a PNG that
/// anyone may keep for `CACHE_MAX_AGE` seconds.
pub fn render_hand(hand: String, tile_set: TileSet) -> (result: Result<
    (ContentType, CacheResponse),
    ServiceError,
>)
    ensures
        match result {
            Ok((content_type, cache)) => {
                &&& render_outcome(hand@, tile_set) == Ok::<Seq<u8>, ServiceErrorView>(
                    cache.responder@,
                )
                &&& begins_as_png(cache.responder@)
                &&& content_type == ContentType::Png
                &&& cache.max_age == CACHE_MAX_AGE
                &&& !cache.must_revalidate
            },
            Err(error) => render_outcome(hand@, tile_set) == Err::<Seq<u8>, ServiceErrorView>(
                error@,
            ),
        },
{
    match prepare(hand.as_str(), tile_set) {
        Err(error) => Err(error),
        Ok(job) => match job.run() {
            Err(error) => Err(error),
            Ok(bytes) => Ok(
                (
                    ContentType::Png,
                    CacheResponse { responder: bytes, max_age: CACHE_MAX_AGE, must_revalidate: false },
                ),
            ),
        },
    }
}

/// A notation of more than `MAX_HAND_LEN` characters is turned away as the
/// request's fault, whatever the tile set and whatever the parser would
/// make of it, and the message shows both its length and the limit.
pub proof fn lemma_long_notation_is_rejected(notation: Seq<char>, tile_set: TileSet)
    requires
        notation.len() > MAX_HAND_LEN,
    ensures
        render_outcome(notation, tile_set) == Err::<Seq<u8>, ServiceErrorView>(
            ServiceErrorView::BadRequest(length_exceeded_message(notation.len())),
        ),
        render_outcome(notation, tile_set) matches Err(error) && error.status() == 400,
        contains_text(length_exceeded_message(notation.len()), decimal(notation.len())),
        contains_text(length_exceeded_message(notation.len()), "100"@),
{
    reveal_strlit("100");
    reveal_with_fuel(decimal, 3);
    assert(decimal(100) =~= "100"@);
    let opening = "Maximum hand description length exceeded ("@;
    let closing = " characters)"@;
    let length = decimal(notation.len());
    let message = length_exceeded_message(notation.len());
    assert(message =~= opening + length + ("/"@ + "100"@ + closing));
    lemma_contains_middle(opening, length, "/"@ + "100"@ + closing);
    assert(message =~= (opening + length + "/"@) + "100"@ + closing);
    lemma_contains_middle(opening + length + "/"@, "100"@, closing);
}

/// A notation within the limit that the parser accepts, the renderer draws
/// and the encoder encodes is answered with the bytes of the picture,
/// whichever tile set was asked for.
pub proof fn lemma_renderable_hand_is_served(notation: Seq<char>, tile_set: TileSet)
    requires
        notation.len() <= MAX_HAND_LEN,
        parsed_hand(notation) is Ok,
        rendered_hand(parsed_hand(notation)->Ok_0, tile_set) is Ok,
        encoded_png(rendered_hand(parsed_hand(notation)->Ok_0, tile_set)->Ok_0) is Ok,
    ensures
        render_outcome(notation, tile_set) == Ok::<Seq<u8>, ServiceErrorView>(
            encoded_png(rendered_hand(parsed_hand(notation)->Ok_0, tile_set)->Ok_0)->Ok_0,
        ),
{
}

/// No request fails without a reason: a failure of the pipeline is the
/// request's fault, and the server is to blame only when a worker did not
/// finish.
pub proof fn lemma_failures_are_classified(
    notation: Seq<char>,
    tile_set: TileSet,
    joined: Result<Result<Vec<u8>, ServiceError>, JoinError>,
)
    ensures
        render_outcome(notation, tile_set) matches Err(error) ==> error is BadRequest,
        joined is Err ==> (completed(joined) matches Err(error) && error is Internal
            && error.status() == 500),
{
}

/// Two requests with the same notation and the same tile set end in the
/// same way: the same bytes, or the same failure.
pub proof fn lemma_same_request_same_outcome(
    first: Seq<char>,
    first_tile_set: TileSet,
    second: Seq<char>,
    second_tile_set: TileSet,
)
    requires
        first == second,
        first_tile_set == second_tile_set,
    ensures
        render_outcome(first, first_tile_set) == render_outcome(second, second_tile_set),
{
}

} // verus!
