use chombo_gen::errors::ServiceError;
use chombo_gen::render_hand::{
    check_hand_length, complete, new_render_hand, prepare, render_hand, RenderHandParams,
    MAX_HAND_LEN,
};
use chombo_gen::response::{ContentType, CACHE_MAX_AGE};
use chombo_gen::tile_set::TileSet;
use riichi_hand::parser::HandParser;
use riichi_hand::raster_renderer::fluffy_stuff_tile_sets::YELLOW_FLUFFY_STUFF_TILE_SET;
use riichi_hand::raster_renderer::{RasterRenderer, RenderOptions};

const PNG_SIGNATURE: [u8; 8] = [0x89, 0x50, 0x4e, 0x47, 0x0d, 0x0a, 0x1a, 0x0a];

fn params(hand: &str, tile_set: TileSet) -> RenderHandParams {
    RenderHandParams { hand: hand.to_string(), tile_set }
}

fn bad_request_message(result: Result<impl Sized, ServiceError>) -> String {
    match result {
        Err(ServiceError::BadRequest(message)) => message,
        Err(ServiceError::Internal(message)) => panic!("internal error: {}", message),
        Ok(_) => panic!("the request was served"),
    }
}

#[test]
fn the_limit_is_a_hundred_characters() {
    assert_eq!(MAX_HAND_LEN, 100);
}

#[test]
fn a_full_hand_is_rendered_as_png() {
    let response = new_render_hand(params("123s345m345m222pWW", TileSet::Yellow)).unwrap();
    let bytes = response.to_vec();
    assert_eq!(&bytes[..8], &PNG_SIGNATURE[..]);
    assert_eq!(response.status(), 200);
    assert_eq!(response.content_type(), ContentType::Png);
    assert_eq!(response.cache_control(), "public, max-age=604800");
}

#[test]
fn the_picture_is_the_one_the_renderer_draws() {
    let response = new_render_hand(params("123m_E*EE", TileSet::Yellow)).unwrap();
    let decoded = image::load_from_memory(&response.to_vec()).unwrap().to_rgba8();
    let hand = HandParser::parse("123m_E*EE").unwrap();
    let drawn =
        RasterRenderer::render(&hand, &*YELLOW_FLUFFY_STUFF_TILE_SET, RenderOptions::default())
            .unwrap();
    assert_eq!(decoded.dimensions(), drawn.dimensions());
    assert!(decoded.width() > 0 && decoded.height() > 0);
    assert_eq!(decoded.as_raw(), drawn.as_raw());
}

#[test]
fn every_tile_set_renders_a_valid_hand() {
    for tile_set in [TileSet::Yellow, TileSet::Red, TileSet::Black, TileSet::MartinPersson] {
        let response = new_render_hand(params("19m19p19sEw", tile_set)).unwrap();
        let bytes = response.to_vec();
        assert_eq!(&bytes[..8], &PNG_SIGNATURE[..]);
        assert_eq!(response.status(), 200);
        assert_eq!(response.content_type().as_str(), "image/png");
        assert!(response.cache_control().contains("max-age=604800"));
    }
}

#[test]
fn tile_sets_draw_different_pictures() {
    let yellow = new_render_hand(params("5p?", TileSet::Yellow)).unwrap().to_vec();
    let red = new_render_hand(params("5p?", TileSet::Red)).unwrap().to_vec();
    let black = new_render_hand(params("5p?", TileSet::Black)).unwrap().to_vec();
    let martin_persson = new_render_hand(params("5p?", TileSet::MartinPersson)).unwrap().to_vec();
    assert!(yellow != red);
    assert!(yellow != black);
    assert!(yellow != martin_persson);
    assert!(red != black);
    assert!(red != martin_persson);
    assert!(black != martin_persson);
}

#[test]
fn the_same_request_twice_gives_the_same_bytes() {
    let first = new_render_hand(params("123s345m", TileSet::Red)).unwrap();
    let second = new_render_hand(params("123s345m", TileSet::Red)).unwrap();
    assert_eq!(first.to_vec(), second.to_vec());
    assert_eq!(first, second);
}

#[test]
fn requests_do_not_affect_each_other() {
    let alone = new_render_hand(params("77z", TileSet::MartinPersson)).unwrap().to_vec();
    let failed = new_render_hand(params("9z", TileSet::MartinPersson));
    assert!(failed.is_err());
    let other = new_render_hand(params("EE", TileSet::MartinPersson)).unwrap().to_vec();
    let again = new_render_hand(params("77z", TileSet::MartinPersson)).unwrap().to_vec();
    assert_eq!(alone, again);
    assert_ne!(alone, other);
}

#[test]
fn a_hand_of_101_characters_is_turned_away() {
    let hand = "a".repeat(101);
    let message = bad_request_message(new_render_hand(params(&hand, TileSet::Yellow)));
    assert_eq!(message, "Maximum hand description length exceeded (101/100 characters)");
}

#[test]
fn the_message_shows_the_length_and_the_limit() {
    for len in [101usize, 150, 1000, 12345] {
        let hand = "1".repeat(len);
        let result = new_render_hand(params(&hand, TileSet::MartinPersson));
        assert_eq!(result.as_ref().unwrap_err().get_http_status(), 400);
        let message = bad_request_message(result);
        assert!(message.contains(&len.to_string()));
        assert!(message.contains("100"));
        assert_eq!(
            message,
            format!("Maximum hand description length exceeded ({}/100 characters)", len)
        );
    }
}

#[test]
fn a_long_notation_is_not_parsed() {
    let hand = "!".repeat(101);
    let message = bad_request_message(prepare(&hand, TileSet::Yellow));
    assert_eq!(message, "Maximum hand description length exceeded (101/100 characters)");
}

#[test]
fn a_hand_of_100_characters_is_looked_at() {
    let hand = "a".repeat(100);
    assert!(check_hand_length(&hand).is_ok());
    let message = bad_request_message(new_render_hand(params(&hand, TileSet::Yellow)));
    assert_eq!(message, "error when parsing hand at position 0: invalid character");
}

#[test]
fn a_hand_of_100_tiles_is_rendered() {
    let hand = "1".repeat(99) + "m";
    assert_eq!(hand.len(), 100);
    let response = new_render_hand(params(&hand, TileSet::MartinPersson)).unwrap();
    assert_eq!(&response.to_vec()[..8], &PNG_SIGNATURE[..]);
}

#[test]
fn the_length_is_counted_in_characters() {
    let hand = "東".repeat(100);
    assert_eq!(hand.len(), 300);
    assert!(check_hand_length(&hand).is_ok());
    let longer = "東".repeat(101);
    let message = bad_request_message(check_hand_length(&longer));
    assert_eq!(message, "Maximum hand description length exceeded (101/100 characters)");
}

#[test]
fn short_notations_pass_the_guard() {
    assert!(check_hand_length("").is_ok());
    assert!(check_hand_length("123m").is_ok());
    assert!(check_hand_length("not-a-valid-hand!!!").is_ok());
}

#[test]
fn an_invalid_hand_is_turned_away_with_the_parsers_words() {
    let result = new_render_hand(params("not-a-valid-hand!!!", TileSet::Yellow));
    assert_eq!(result.as_ref().unwrap_err().get_http_status(), 400);
    let message = bad_request_message(result);
    assert_eq!(message, "error when parsing hand at position 0: invalid character");
    assert_eq!(message, HandParser::parse("not-a-valid-hand!!!").unwrap_err().to_string());
}

#[test]
fn an_invalid_tile_is_turned_away() {
    let message = bad_request_message(new_render_hand(params("123m0z", TileSet::Black)));
    assert_eq!(message, "error when parsing hand at position 5: invalid tile value");
}

#[test]
fn a_hand_that_cannot_be_drawn_is_turned_away() {
    let result = new_render_hand(params("1*m", TileSet::MartinPersson));
    assert_eq!(result.as_ref().unwrap_err().get_http_status(), 400);
    let message = bad_request_message(result);
    assert_eq!(
        message,
        "could not retrieve tile image: tile rotated Ii man not supported: this tile set does not support rotated tiles"
    );
    assert!(new_render_hand(params("1*m", TileSet::Yellow)).is_ok());
}

#[test]
fn a_picture_that_cannot_be_encoded_is_turned_away() {
    let result = new_render_hand(params("", TileSet::Yellow));
    assert_eq!(result.as_ref().unwrap_err().get_http_status(), 400);
    let message = bad_request_message(result);
    assert_eq!(message, "Zero width not allowed");
}

#[test]
fn a_job_runs_to_the_bytes_of_the_picture() {
    let job = prepare("55z", TileSet::MartinPersson).unwrap();
    let bytes = job.run().unwrap();
    assert_eq!(&bytes[..8], &PNG_SIGNATURE[..]);
    let whole = new_render_hand(params("55z", TileSet::MartinPersson)).unwrap();
    assert_eq!(whole.to_vec(), bytes);
}

#[test]
fn a_finished_worker_is_answered_with_its_result() {
    let response = complete(Ok(Ok(vec![1u8, 2u8, 3u8]))).unwrap();
    assert_eq!(response.to_vec(), vec![1u8, 2u8, 3u8]);
    let failure = complete(Ok(Err(ServiceError::BadRequest("no such tile".to_string()))));
    assert_eq!(bad_request_message(failure), "no such tile");
    let failure = complete(Ok(Err(ServiceError::Internal("lost".to_string())))).unwrap_err();
    assert!(matches!(failure, ServiceError::Internal(_)));
    assert_eq!(failure.message(), "lost");
}

#[test]
fn a_failed_worker_is_answered_with_500() {
    let runtime = tokio::runtime::Builder::new_current_thread().build().unwrap();
    let joined = runtime.block_on(async {
        let job = prepare("123s345m345m222pWW", TileSet::Yellow).unwrap();
        tokio::task::spawn_blocking(move || -> Result<Vec<u8>, ServiceError> {
            let _job = job;
            panic!("the worker failed")
        })
        .await
    });
    let failure = complete(joined).unwrap_err();
    assert_eq!(failure.get_http_status(), 500);
    assert!(matches!(failure, ServiceError::Internal(_)));
    assert!(!failure.message().is_empty());
    let (status, content_type, body) = chombo_gen::errors::error_handler(&failure);
    assert_eq!(status, 500);
    assert_eq!(content_type, ContentType::Json);
    assert_eq!(body.message, failure.to_string());
}

#[test]
fn a_job_may_run_on_a_worker() {
    let runtime = tokio::runtime::Builder::new_current_thread().build().unwrap();
    let job = prepare("123p", TileSet::MartinPersson).unwrap();
    let joined = runtime.block_on(async { tokio::task::spawn_blocking(move || job.run()).await });
    let response = complete(joined).unwrap();
    let whole = new_render_hand(params("123p", TileSet::MartinPersson)).unwrap();
    assert_eq!(response, whole);
}

#[test]
fn render_hand_says_how_to_send_the_picture() {
    let (content_type, cache) =
        render_hand("123s345m345m222pWW".to_string(), TileSet::Yellow).unwrap();
    assert_eq!(content_type, ContentType::Png);
    assert_eq!(&cache.responder[..8], &PNG_SIGNATURE[..]);
    assert_eq!(cache.max_age, 604800);
    assert_eq!(cache.max_age, CACHE_MAX_AGE);
    assert!(!cache.must_revalidate);
    assert_eq!(cache.cache_control(), "public, max-age=604800");
}

#[test]
fn both_handlers_give_the_same_answers() {
    let (_, cache) = render_hand("W*WW".to_string(), TileSet::Black).unwrap();
    let response = new_render_hand(params("W*WW", TileSet::Black)).unwrap();
    assert_eq!(cache.responder, response.to_vec());
    let message = bad_request_message(render_hand("a".repeat(101), TileSet::Yellow));
    assert_eq!(message, "Maximum hand description length exceeded (101/100 characters)");
    let message = bad_request_message(render_hand("**1m".to_string(), TileSet::Yellow));
    assert_eq!(
        message,
        "error when parsing hand at position 0: position modifier does not have any tile to modify"
    );
}

#[test]
fn concurrent_requests_complete_independently() {
    let hands = ["1m", "2p", "3s", "EE", "9z", "ww_gg"];
    let alone: Vec<Result<Vec<u8>, String>> = hands
        .iter()
        .map(|hand| match new_render_hand(params(hand, TileSet::MartinPersson)) {
            Ok(response) => Ok(response.to_vec()),
            Err(error) => Err(error.to_string()),
        })
        .collect();

    let runtime = tokio::runtime::Builder::new_multi_thread().worker_threads(2).build().unwrap();
    let together: Vec<Result<Vec<u8>, String>> = runtime.block_on(async {
        let mut workers = Vec::new();
        for hand in hands {
            let job = prepare(hand, TileSet::MartinPersson);
            workers.push(tokio::task::spawn_blocking(move || match job {
                Ok(job) => job.run(),
                Err(error) => Err(error),
            }));
        }
        let mut answers = Vec::new();
        for worker in workers {
            answers.push(match complete(worker.await) {
                Ok(response) => Ok(response.to_vec()),
                Err(error) => Err(error.to_string()),
            });
        }
        answers
    });

    assert_eq!(together, alone);
    assert!(together[0].is_ok());
    assert!(together[3].is_ok());
    assert_eq!(
        together[4],
        Err("error when parsing hand at position 1: invalid tile value".to_string())
    );
    assert!(together[5].is_ok());
    assert!(together[0] != together[1]);
}
