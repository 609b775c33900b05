use screen_stream::channel::FrameEnvelope;
use screen_stream::emitter::{
    elapsed_to_pts_ms, keeps_emitting, next_delivery_step, payloads, DeliveryStep, SendOutcome,
};

#[test]
fn payload_is_compact_json_object() {
    let e = FrameEnvelope { data: vec![1, 2, 255], pts_ms: 1234, width: 1920, height: 1080 };
    assert_eq!(e.payload(), "{\"data\":[1,2,255],\"height\":1080,\"pts\":1234,\"width\":1920}");
}

#[test]
fn payload_of_empty_frame() {
    let e = FrameEnvelope { data: Vec::new(), pts_ms: 0, width: 0, height: 0 };
    assert_eq!(e.payload(), "{\"data\":[],\"height\":0,\"pts\":0,\"width\":0}");
}

#[test]
fn payloads_keep_order() {
    let frames = vec![
        FrameEnvelope { data: vec![1], pts_ms: 10, width: 1, height: 1 },
        FrameEnvelope { data: vec![2], pts_ms: 20, width: 1, height: 1 },
    ];
    let p = payloads(&frames);
    assert_eq!(p.len(), 2);
    assert_eq!(p[0], frames[0].payload());
    assert_eq!(p[1], "{\"data\":[2],\"height\":1,\"pts\":20,\"width\":1}");
}

#[test]
fn pts_is_whole_milliseconds() {
    assert_eq!(elapsed_to_pts_ms(0), 0);
    assert_eq!(elapsed_to_pts_ms(999_999), 0);
    assert_eq!(elapsed_to_pts_ms(1_500_000_000), 1500);
    assert_eq!(elapsed_to_pts_ms(2_041_666_667), 2041);
}

#[test]
fn delivery_forwards_before_finishing() {
    assert_eq!(next_delivery_step(true, 3), DeliveryStep::Forward);
    assert_eq!(next_delivery_step(false, 1), DeliveryStep::Forward);
    assert_eq!(next_delivery_step(true, 0), DeliveryStep::Wait);
    assert_eq!(next_delivery_step(false, 0), DeliveryStep::Finish);
}

#[test]
fn only_closed_transport_ends_delivery() {
    assert!(keeps_emitting(SendOutcome::Sent));
    assert!(keeps_emitting(SendOutcome::Failed));
    assert!(!keeps_emitting(SendOutcome::Closed));
}
