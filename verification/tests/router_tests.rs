use sticker_media::media::{failure_message, ConversionError, FormatTag};
use sticker_media::router::{
    compose_output_name, has_gif_suffix, pick_photo_variant, plan_request, MediaKind,
    MediaRequest, PhotoVariant, Route, MAX_INPUT_SIZE,
};

#[test]
fn declared_15_mib_is_too_large() {
    let req = MediaRequest {
        declared_size: 15 * 1024 * 1024,
        kind: MediaKind::Photo,
        declared_name: None,
    };
    assert_eq!(plan_request(&req), Err(ConversionError::TooLarge));
}

#[test]
fn declared_size_at_the_ceiling_is_admitted() {
    let req = MediaRequest {
        declared_size: MAX_INPUT_SIZE,
        kind: MediaKind::Photo,
        declared_name: None,
    };
    assert_eq!(plan_request(&req), Ok(Route::Still));
}

#[test]
fn oversized_animation_is_rejected_before_routing() {
    let req = MediaRequest {
        declared_size: MAX_INPUT_SIZE + 1,
        kind: MediaKind::Animation,
        declared_name: Some(b"loop.gif".to_vec()),
    };
    assert_eq!(plan_request(&req), Err(ConversionError::TooLarge));
}

#[test]
fn photo_routes_to_the_still_path() {
    let req = MediaRequest { declared_size: 4096, kind: MediaKind::Photo, declared_name: None };
    assert_eq!(plan_request(&req), Ok(Route::Still));
}

#[test]
fn animation_routes_to_the_clip_path() {
    let req = MediaRequest { declared_size: 4096, kind: MediaKind::Animation, declared_name: None };
    assert_eq!(plan_request(&req), Ok(Route::Clip));
}

#[test]
fn gif_named_document_routes_to_the_clip_path() {
    let req = MediaRequest {
        declared_size: 4096,
        kind: MediaKind::Document,
        declared_name: Some(b"funny.gif".to_vec()),
    };
    assert_eq!(plan_request(&req), Ok(Route::Clip));
}

#[test]
fn png_named_document_routes_to_the_still_path() {
    let req = MediaRequest {
        declared_size: 4096,
        kind: MediaKind::Document,
        declared_name: Some(b"photo.png".to_vec()),
    };
    assert_eq!(plan_request(&req), Ok(Route::Still));
}

#[test]
fn unnamed_document_routes_to_the_still_path() {
    let req = MediaRequest { declared_size: 4096, kind: MediaKind::Document, declared_name: None };
    assert_eq!(plan_request(&req), Ok(Route::Still));
}

#[test]
fn gif_suffix_recognition() {
    assert!(has_gif_suffix(&b"a.gif".to_vec()));
    assert!(has_gif_suffix(&b".gif".to_vec()));
    assert!(!has_gif_suffix(&b"gif".to_vec()));
    assert!(!has_gif_suffix(&b"agif".to_vec()));
    assert!(!has_gif_suffix(&b"a.gif.png".to_vec()));
    assert!(!has_gif_suffix(&b"".to_vec()));
}

#[test]
fn declared_name_serves_as_the_stem() {
    let name = Some(b"sticker.gif".to_vec());
    assert_eq!(compose_output_name(&name, FormatTag::Webm), b"sticker.gif.webm".to_vec());
}

#[test]
fn missing_name_gets_the_default_stem() {
    assert_eq!(compose_output_name(&None, FormatTag::Webp), b"out.webp".to_vec());
    assert_eq!(compose_output_name(&None, FormatTag::Png), b"out.png".to_vec());
}

#[test]
fn extensions_match_the_tags() {
    assert_eq!(FormatTag::Webp.extension(), b"webp".to_vec());
    assert_eq!(FormatTag::Png.extension(), b"png".to_vec());
    assert_eq!(FormatTag::Webm.extension(), b"webm".to_vec());
}

#[test]
fn first_big_enough_photo_variant_is_picked() {
    let sizes = vec![
        PhotoVariant { width: 90, height: 60 },
        PhotoVariant { width: 320, height: 200 },
        PhotoVariant { width: 800, height: 500 },
        PhotoVariant { width: 1600, height: 1000 },
    ];
    assert_eq!(pick_photo_variant(&sizes), Some(2));
}

#[test]
fn tall_variant_counts_as_big_enough() {
    let sizes = vec![
        PhotoVariant { width: 100, height: 600 },
        PhotoVariant { width: 800, height: 500 },
    ];
    assert_eq!(pick_photo_variant(&sizes), Some(0));
}

#[test]
fn all_small_falls_back_to_the_last_variant() {
    let sizes = vec![
        PhotoVariant { width: 90, height: 60 },
        PhotoVariant { width: 320, height: 200 },
    ];
    assert_eq!(pick_photo_variant(&sizes), Some(1));
}

#[test]
fn no_variant_picks_nothing() {
    assert_eq!(pick_photo_variant(&Vec::new()), None);
}

#[test]
fn user_facing_failure_lines() {
    assert_eq!(failure_message(&ConversionError::NotAnImage), "File is not an image!");
    assert_eq!(failure_message(&ConversionError::TooLarge), "File is too big.");
    assert_eq!(failure_message(&ConversionError::ExternalToolFailure), "Something went wrong.");
    assert_eq!(failure_message(&ConversionError::IoFailure), "Something went wrong.");
}
