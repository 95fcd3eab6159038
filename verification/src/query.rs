//! Reading the parameters of a request from the pairs of its query.

use vstd::prelude::*;
use vstd::string::StringExecFns;
use crate::errors::{ServiceError, ServiceErrorView};
use crate::collaborators::{encoded_png, parsed_hand, rendered_hand};
use crate::render_hand::{
    lemma_renderable_hand_is_served, new_render_hand, render_outcome, response_view,
    RenderHandParams, MAX_HAND_LEN,
};
use crate::response::{begins_as_png, ImageResponse};
use crate::tile_set::TileSet;

verus! {

/// The value of the first pair named `key`, if any pair is.
pub open spec fn first_value(pairs: Seq<(String, String)>, key: Seq<char>) -> Option<Seq<char>>
    decreases pairs.len(),
{
    if pairs.len() == 0 {
        None
    } else {
        match first_value(pairs.drop_last(), key) {
            Some(value) => Some(value),
            None => if pairs.last().0@ == key {
                Some(pairs.last().1@)
            } else {
                None
            },
        }
    }
}

/// How many pairs are named `key`.
pub open spec fn occurrences(pairs: Seq<(String, String)>, key: Seq<char>) -> nat
    decreases pairs.len(),
{
    if pairs.len() == 0 {
        0
    } else {
        occurrences(pairs.drop_last(), key) + if pairs.last().0@ == key {
            1nat
        } else {
            0nat
        }
    }
}

/// The message for a query without a notation.
pub open spec fn missing_hand_message() -> Seq<char> {
    "missing field `hand`"@
}

/// The message for a query that holds the parameter `key` more than once.
pub open spec fn repeated_message(key: Seq<char>) -> Seq<char> {
    "duplicate field `"@ + key + "`"@
}

/// The message for a query that names a tile set that does not exist.
pub open spec fn unknown_tile_set_message(name: Seq<char>) -> Seq<char> {
    "unknown variant `"@ + name
        + "`, expected one of `Yellow`, `Red`, `Black`, `MartinPersson`"@
}

/// The parameters that a query holds: the notation under `hand`, which must
/// be there, and the tile set under `tile_set`, which is yellow when the
/// query names none. Neither may be given twice. Pairs of other names do not
/// count at all, however often they come. Of several faults the first in
/// this order is reported: no notation, a second notation, a second tile
/// set, a tile set that does not exist.
pub open spec fn extracted(pairs: Seq<(String, String)>) -> Result<
    (Seq<char>, TileSet),
    ServiceErrorView,
> {
    match first_value(pairs, "hand"@) {
        None => Err(ServiceErrorView::BadRequest(missing_hand_message())),
        Some(hand) => if occurrences(pairs, "hand"@) > 1 {
            Err(ServiceErrorView::BadRequest(repeated_message("hand"@)))
        } else {
            match first_value(pairs, "tile_set"@) {
                None => Ok((hand, TileSet::Yellow)),
                Some(name) => if occurrences(pairs, "tile_set"@) > 1 {
                    Err(ServiceErrorView::BadRequest(repeated_message("tile_set"@)))
                } else {
                    match TileSet::spec_from_name(name) {
                        None => Err(ServiceErrorView::BadRequest(unknown_tile_set_message(name))),
                        Some(tile_set) => Ok((hand, tile_set)),
                    }
                },
            }
        },
    }
}

/// What a query is answered with when the worker finishes its task.
pub open spec fn request_outcome(pairs: Seq<(String, String)>) -> Result<
    Seq<u8>,
    ServiceErrorView,
> {
    match extracted(pairs) {
        Err(error) => Err(error),
        Ok((hand, tile_set)) => render_outcome(hand, tile_set),
    }
}

/// The place of the first pair named `key`: no pair before it is named so,
/// and its value is the value of the first pair named `key`.
pub fn find_first(pairs: &Vec<(String, String)>, key: &str) -> (found: Option<usize>)
    ensures
        match found {
            Some(at) => {
                &&& at < pairs.len()
                &&& pairs[at as int].0@ == key@
                &&& forall|before: int| 0 <= before < at ==> pairs[before].0@ != key@
                &&& first_value(pairs@, key@) == Some(pairs[at as int].1@)
            },
            None => {
                &&& forall|at: int| 0 <= at < pairs.len() ==> pairs[at].0@ != key@
                &&& first_value(pairs@, key@) is None
            },
        },
{
    let key = String::from_str(key);
    let mut found: Option<usize> = None;
    let mut i: usize = 0;
    while i < pairs.len()
        invariant
            i <= pairs.len(),
            match found {
                Some(at) => {
                    &&& at < i
                    &&& pairs[at as int].0@ == key@
                    &&& forall|before: int| 0 <= before < at ==> pairs[before].0@ != key@
                    &&& first_value(pairs@.subrange(0, i as int), key@) == Some(
                        pairs[at as int].1@,
                    )
                },
                None => {
                    &&& forall|at: int| 0 <= at < i ==> pairs[at].0@ != key@
                    &&& first_value(pairs@.subrange(0, i as int), key@) is None
                },
            },
        decreases pairs.len() - i,
    {
        proof {
            let longer = pairs@.subrange(0, i + 1);
            assert(longer.drop_last() =~= pairs@.subrange(0, i as int));
            assert(longer.last() == pairs[i as int]);
        }
        if found.is_none() && pairs[i].0 == key {
            found = Some(i);
        }
        i = i + 1;
    }
    assert(pairs@.subrange(0, i as int) =~= pairs@);
    found
}

/// How many pairs are named `key`.
pub fn count_named(pairs: &Vec<(String, String)>, key: &str) -> (count: usize)
    ensures
        count == occurrences(pairs@, key@),
{
    let key = String::from_str(key);
    let mut count: usize = 0;
    let mut i: usize = 0;
    while i < pairs.len()
        invariant
            i <= pairs.len(),
            count <= i,
            count == occurrences(pairs@.subrange(0, i as int), key@),
        decreases pairs.len() - i,
    {
        proof {
            let longer = pairs@.subrange(0, i + 1);
            assert(longer.drop_last() =~= pairs@.subrange(0, i as int));
            assert(longer.last() == pairs[i as int]);
        }
        if pairs[i].0 == key {
            count = count + 1;
        }
        i = i + 1;
    }
    assert(pairs@.subrange(0, i as int) =~= pairs@);
    count
}

/// The failure for a query that holds the parameter `key` more than once.
fn repeated(key: &str) -> (failure: ServiceError)
    ensures
        failure@ == ServiceErrorView::BadRequest(repeated_message(key@)),
{
    let mut message = String::from_str("duplicate field `");
    message.append(key);
    message.append("`");
    ServiceError::BadRequest(message)
}

/// Reads the parameters of a request from the pairs of its query.
pub fn extract_params(pairs: &Vec<(String, String)>) -> (result: Result<
    RenderHandParams,
    ServiceError,
>)
    ensures
        match result {
            Ok(params) => extracted(pairs@) == Ok::<(Seq<char>, TileSet), ServiceErrorView>(
                (params.hand@, params.tile_set),
            ),
            Err(error) => extracted(pairs@) == Err::<(Seq<char>, TileSet), ServiceErrorView>(
                error@,
            ),
        },
{
    let hand = match find_first(pairs, "hand") {
        None => {
            return Err(ServiceError::BadRequest(String::from_str("missing field `hand`")));
        },
        Some(at) => pairs[at].1.clone(),
    };
    if count_named(pairs, "hand") > 1 {
        return Err(repeated("hand"));
    }
    match find_first(pairs, "tile_set") {
        None => Ok(RenderHandParams { hand, tile_set: TileSet::Yellow }),
        Some(named) => {
            if count_named(pairs, "tile_set") > 1 {
                return Err(repeated("tile_set"));
            }
            match TileSet::from_name(pairs[named].1.as_str()) {
                Some(tile_set) => Ok(RenderHandParams { hand, tile_set }),
                None => {
                    let mut message = String::from_str("unknown variant `");
                    message.append(pairs[named].1.as_str());
                    message.append("`, expected one of `Yellow`, `Red`, `Black`, `MartinPersson`");
                    Err(ServiceError::BadRequest(message))
                },
            }
        },
    }
}

/// Serves a request from the pairs of its query to its answer, all steps in
/// the calling thread.
pub fn handle_request(pairs: &Vec<(String, String)>) -> (result: Result<
    ImageResponse,
    ServiceError,
>)
    ensures
        response_view(result) == request_outcome(pairs@),
        result matches Ok(response) ==> begins_as_png(response@),
{
    match extract_params(pairs) {
        Err(error) => Err(error),
        Ok(params) => new_render_hand(params),
    }
}

/// A query that names a tile set that does not exist is turned away as the
/// request's fault, never as the server's, whatever else it holds. If it
/// holds one notation and names no second tile set, the message names the
/// tile set that was asked for.
pub proof fn lemma_unknown_tile_set_is_bad_request(
    pairs: Seq<(String, String)>,
    name: Seq<char>,
)
    requires
        first_value(pairs, "tile_set"@) == Some(name),
        TileSet::spec_from_name(name) is None,
    ensures
        request_outcome(pairs) matches Err(error) && error is BadRequest && error.status() == 400,
        first_value(pairs, "hand"@) is Some && occurrences(pairs, "hand"@) <= 1 && occurrences(
            pairs,
            "tile_set"@,
        ) <= 1 ==> request_outcome(pairs) == Err::<Seq<u8>, ServiceErrorView>(
            ServiceErrorView::BadRequest(unknown_tile_set_message(name)),
        ),
{
}

/// A query that names a tile set by the name it travels under, once, and
/// holds one notation within the limit that the parser accepts, the
/// renderer draws with that tile set and the encoder encodes, is answered
/// with the bytes of the picture.
pub proof fn lemma_known_tile_set_is_served(
    pairs: Seq<(String, String)>,
    notation: Seq<char>,
    tile_set: TileSet,
)
    requires
        first_value(pairs, "hand"@) == Some(notation),
        occurrences(pairs, "hand"@) == 1,
        first_value(pairs, "tile_set"@) == Some(tile_set.spec_name()),
        occurrences(pairs, "tile_set"@) == 1,
        notation.len() <= MAX_HAND_LEN,
        parsed_hand(notation) is Ok,
        rendered_hand(parsed_hand(notation)->Ok_0, tile_set) is Ok,
        encoded_png(rendered_hand(parsed_hand(notation)->Ok_0, tile_set)->Ok_0) is Ok,
    ensures
        request_outcome(pairs) == Ok::<Seq<u8>, ServiceErrorView>(
            encoded_png(rendered_hand(parsed_hand(notation)->Ok_0, tile_set)->Ok_0)->Ok_0,
        ),
{
    tile_set.lemma_name_round_trip();
    lemma_renderable_hand_is_served(notation, tile_set);
}

/// A query that holds one notation and names no tile set is served as one
/// that names the yellow one.
pub proof fn lemma_tile_set_defaults_to_yellow(pairs: Seq<(String, String)>, notation: Seq<char>)
    requires
        first_value(pairs, "hand"@) == Some(notation),
        occurrences(pairs, "hand"@) == 1,
        first_value(pairs, "tile_set"@) is None,
    ensures
        request_outcome(pairs) == render_outcome(notation, TileSet::Yellow),
{
}

/// No query is turned away as the server's fault before its hand is drawn:
/// whatever is wrong with its parameters is the request's fault.
pub proof fn lemma_extraction_fails_as_bad_request(pairs: Seq<(String, String)>)
    ensures
        extracted(pairs) matches Err(error) ==> error is BadRequest && error.status() == 400,
{
}

} // verus!
