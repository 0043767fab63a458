use wpe_broadcast::pipeline::{
    LifecycleState, Pipeline, StateChangeError, TransitionOutcome,
};
use wpe_broadcast::settings::{Settings, VideoResolution, WebRTCCodec};

#[test]
fn lifecycle_null_ready_playing_null() {
    let s = Settings::default();
    let mut p = Pipeline::new(&s);
    assert_eq!(p.state, LifecycleState::Null);
    assert_eq!(p.prepare(&s), Ok(TransitionOutcome::Pending));
    assert_eq!(p.state, LifecycleState::Ready);
    assert_eq!(p.start(), Ok(TransitionOutcome::Pending));
    assert_eq!(p.state, LifecycleState::Playing);
    assert_eq!(p.stop(), Ok(TransitionOutcome::Pending));
    assert_eq!(p.state, LifecycleState::Null);
}

#[test]
fn start_and_stop_are_idempotent() {
    let s = Settings::default();
    let mut p = Pipeline::new(&s);
    assert_eq!(p.stop(), Ok(TransitionOutcome::Completed));
    assert_eq!(p.state, LifecycleState::Null);
    p.prepare(&s).unwrap();
    p.start().unwrap();
    assert_eq!(p.start(), Ok(TransitionOutcome::Completed));
    assert_eq!(p.state, LifecycleState::Playing);
}

#[test]
fn transitions_outside_the_table_are_rejected() {
    let s = Settings::default();
    let mut p = Pipeline::new(&s);
    assert_eq!(
        p.start(),
        Err(StateChangeError {
            from: LifecycleState::Null,
            to: LifecycleState::Playing,
        })
    );
    assert_eq!(p.state, LifecycleState::Null);
    p.prepare(&s).unwrap();
    assert_eq!(
        p.stop(),
        Err(StateChangeError {
            from: LifecycleState::Ready,
            to: LifecycleState::Null,
        })
    );
    assert_eq!(p.state, LifecycleState::Ready);
}

#[test]
fn prepare_splices_configured_codec() {
    let s = Settings {
        video_resolution: VideoResolution::V480P,
        webrtc_codec: WebRTCCodec::H264,
    };
    let mut p = Pipeline::new(&s);
    assert!(p.graph.subgraphs.is_empty());
    p.prepare(&s).unwrap();
    assert_eq!(p.graph.subgraphs.len(), 1);
    assert_eq!(p.graph.subgraphs[0].encoding_name, "H264");
    assert_eq!(p.graph.subgraphs[0].encoder, "vaapih264enc");
    assert_eq!(p.graph.subgraphs[0].payload_type, 96);
}

#[test]
fn prepare_twice_splices_twice() {
    let s = Settings::default();
    let mut p = Pipeline::new(&s);
    assert_eq!(p.prepare(&s), Ok(TransitionOutcome::Pending));
    assert_eq!(p.prepare(&s), Ok(TransitionOutcome::Completed));
    assert_eq!(p.state, LifecycleState::Ready);
    assert_eq!(p.graph.subgraphs.len(), 2);
}
