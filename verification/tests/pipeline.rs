//! Tests of the wire codec, the mask post-processor and the trigger
//! pipeline's verified steps.

use segment_backend::Category;
use segment_backend::HandlerOutcome;
use segment_backend::Point;
use segment_backend::RawMask;
use segment_backend::SegmentationRequest;
use segment_backend::base64_round_trip;
use segment_backend::decode_base64;
use segment_backend::encode_base64;
use segment_backend::postprocess_mask;
use segment_backend::resize_longest_dims;
use segment_backend::sam_begin;
use segment_backend::sam_finish;
use segment_backend::sam_respond;
use segment_backend::segmentation_reply;

#[test]
fn category_as_bool() {
    assert!(Category::Include.as_bool());
    assert!(!Category::Exclude.as_bool());
}

#[test]
fn base64_known_values() {
    assert_eq!(encode_base64(&vec![]), "");
    assert_eq!(encode_base64(&vec![1, 2, 3]), "AQID");
    assert_eq!(encode_base64(&vec![255]), "/w==");
    assert_eq!(decode_base64("AQID").unwrap(), vec![1, 2, 3]);
}

#[test]
fn base64_rejects_garbage() {
    assert!(decode_base64("!!!").is_err());
    assert!(decode_base64("AQID?").is_err());
}

#[test]
fn base64_round_trips_binary_data() {
    assert_eq!(base64_round_trip(&vec![]), Vec::<u8>::new());
    let binary: Vec<u8> = vec![0, 255, 128, 7, 13, 10, 0, 254, 200];
    assert_eq!(base64_round_trip(&binary), binary);
    let all: Vec<u8> = (0u16..=255).map(|b| b as u8).collect();
    assert_eq!(base64_round_trip(&all), all);
}

fn sample_mask() -> RawMask {
    // One value exactly at the threshold of 0: it must land in the
    // foreground.
    RawMask { width: 2, height: 2, values: vec![-5, 0, 5, -1] }
}

#[test]
fn postprocess_is_deterministic() {
    let a = postprocess_mask(sample_mask(), 0).unwrap();
    let b = postprocess_mask(sample_mask(), 0).unwrap();
    assert_eq!(a.image, b.image);
    assert!(!a.image.is_empty());
}

#[test]
fn postprocess_binarizes_with_inclusive_threshold() {
    let res = postprocess_mask(sample_mask(), 0).unwrap();
    let img = image::load_from_memory(&res.image).unwrap().to_rgba8();
    assert_eq!(img.width(), 2);
    assert_eq!(img.height(), 2);
    // Row-major pixel order: -5, 0, 5, -1. The value equal to the
    // threshold is foreground.
    let expect = [false, true, true, false];
    for (i, fg) in expect.iter().enumerate() {
        let p = img.get_pixel((i % 2) as u32, (i / 2) as u32);
        if *fg {
            assert_eq!(p.0, [255, 255, 255, 255]);
        } else {
            assert_eq!(p.0, [0, 0, 0, 0]);
        }
    }
}

#[test]
fn postprocess_depends_on_threshold() {
    let low = postprocess_mask(sample_mask(), -10).unwrap();
    let img = image::load_from_memory(&low.image).unwrap().to_rgba8();
    for y in 0..2 {
        for x in 0..2 {
            assert_eq!(img.get_pixel(x, y).0, [255, 255, 255, 255]);
        }
    }
    let high = postprocess_mask(sample_mask(), 100).unwrap();
    let img = image::load_from_memory(&high.image).unwrap().to_rgba8();
    for y in 0..2 {
        for x in 0..2 {
            assert_eq!(img.get_pixel(x, y).0, [0, 0, 0, 0]);
        }
    }
}

#[test]
fn sam_begin_recovers_image_bytes() {
    let image_bytes: Vec<u8> = vec![0xff, 0xd8, 0xff, 0xe0, 0, 1, 2];
    let req = SegmentationRequest {
        points: vec![Point { x: 0, y: 0, category: Category::Include }],
        image_b64: encode_base64(&image_bytes),
        threshold_bits: 0,
        threshold_code: 0,
    };
    assert_eq!(sam_begin(&req).unwrap(), image_bytes);
}

#[test]
fn sam_begin_fails_on_invalid_base64() {
    let req = SegmentationRequest {
        points: vec![],
        image_b64: "%%%".to_string(),
        threshold_bits: 0,
        threshold_code: 0,
    };
    match sam_begin(&req) {
        Err(HandlerOutcome::Failed(msg)) => assert!(msg.starts_with("failure: ")),
        _ => panic!("invalid base64 must fail the handler"),
    }
}

#[test]
fn sam_finish_encodes_valid_png() {
    let b64 = sam_finish(Ok(sample_mask()), 0).unwrap();
    assert!(!b64.is_empty());
    let png = decode_base64(&b64).unwrap();
    assert_eq!(&png[0..8], &[0x89, b'P', b'N', b'G', 0x0d, 0x0a, 0x1a, 0x0a]);
    let img = image::load_from_memory(&png).unwrap();
    assert_eq!(img.width(), 2);
    assert_eq!(img.height(), 2);
}

#[test]
fn sam_finish_passes_collaborator_failure_through() {
    match sam_finish(Err("inference broke".to_string()), 0) {
        Err(HandlerOutcome::Failed(msg)) => assert_eq!(msg, "inference broke"),
        _ => panic!("a collaborator failure must fail the handler"),
    }
}

#[test]
fn sam_respond_wraps_body_with_cors() {
    match sam_respond("{\"points\": []}".to_string()) {
        HandlerOutcome::Claimed(resp) => {
            assert_eq!(resp.status, 200);
            assert_eq!(resp.body, b"{\"points\": []}");
            assert_eq!(resp.content_type.as_deref(), Some("text/plain; charset=UTF-8"));
            assert!(resp.cors);
        }
        _ => panic!("a finished run is always claimed"),
    }
}

#[test]
fn reply_echoes_points_and_threshold() {
    let req = SegmentationRequest {
        points: vec![
            Point { x: 17, y: 23, category: Category::Include },
            Point { x: 5, y: 9, category: Category::Exclude },
        ],
        image_b64: "aW1hZ2U=".to_string(),
        threshold_bits: 0x3fe0000000000000,
        threshold_code: 42,
    };
    let reply = segmentation_reply(req, "bWFzaw==".to_string());
    assert_eq!(reply.points.len(), 2);
    assert_eq!(reply.points[0], Point { x: 17, y: 23, category: Category::Include });
    assert_eq!(reply.points[1], Point { x: 5, y: 9, category: Category::Exclude });
    assert_eq!(reply.threshold_bits, 0x3fe0000000000000);
    assert_eq!(reply.threshold_code, 42);
    assert_eq!(reply.image_b64, "bWFzaw==");
}

#[test]
fn resize_dims_keep_aspect_ratio() {
    assert_eq!(resize_longest_dims(512, 1024, 1024), (512, 1024));
    assert_eq!(resize_longest_dims(1024, 512, 1024), (1024, 512));
    assert_eq!(resize_longest_dims(300, 300, 1024), (1024, 1024));
    assert_eq!(resize_longest_dims(333, 500, 1024), (681, 1024));
}
