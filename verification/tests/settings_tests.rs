use wpe_broadcast::settings::{
    ConfigError, Settings, VideoResolution, WebRTCCodec, load_settings,
};

fn all_settings() -> Vec<Settings> {
    let mut v = Vec::new();
    for r in [
        VideoResolution::V480P,
        VideoResolution::V720P,
        VideoResolution::V1080P,
    ] {
        for c in [WebRTCCodec::VP8, WebRTCCodec::VP9, WebRTCCodec::H264] {
            v.push(Settings {
                video_resolution: r,
                webrtc_codec: c,
            });
        }
    }
    v
}

#[test]
fn resolution_profile_documented_sizes() {
    let mk = |r| Settings {
        video_resolution: r,
        webrtc_codec: WebRTCCodec::VP8,
    };
    let p = mk(VideoResolution::V480P).resolution_profile();
    assert_eq!((p.width, p.height), (640, 480));
    let p = mk(VideoResolution::V720P).resolution_profile();
    assert_eq!((p.width, p.height), (1280, 720));
    let p = mk(VideoResolution::V1080P).resolution_profile();
    assert_eq!((p.width, p.height), (1920, 1080));
}

#[test]
fn codec_params_exact_values() {
    let mk = |c| Settings {
        video_resolution: VideoResolution::V720P,
        webrtc_codec: c,
    };
    let vp8 = mk(WebRTCCodec::VP8).webrtc_codec_params();
    assert_eq!(vp8.encoding_name, "VP8");
    assert_eq!(
        vp8.encoder,
        "vp8enc target-bitrate=400000 threads=4 overshoot=25 undershoot=100 deadline=33000 keyframe-max-dist=1"
    );
    assert_eq!(vp8.payloader, "rtpvp8pay picture-id-mode=2");
    let vp9 = mk(WebRTCCodec::VP9).webrtc_codec_params();
    assert_eq!(vp9.encoding_name, "VP9");
    assert_eq!(
        vp9.encoder,
        "vp9enc target-bitrate=128000 undershoot=100 deadline=33000 keyframe-max-dist=1"
    );
    assert_eq!(vp9.payloader, "rtpvp9pay picture-id-mode=2");
    let h264 = mk(WebRTCCodec::H264).webrtc_codec_params();
    assert_eq!(h264.encoding_name, "H264");
    assert_eq!(h264.encoder, "vaapih264enc");
    assert_eq!(h264.payloader, "rtph264pay");
}

#[test]
fn codec_params_mutually_distinct() {
    let mk = |c| {
        Settings {
            video_resolution: VideoResolution::V720P,
            webrtc_codec: c,
        }
        .webrtc_codec_params()
    };
    let triples = [
        mk(WebRTCCodec::VP8),
        mk(WebRTCCodec::VP9),
        mk(WebRTCCodec::H264),
    ];
    for i in 0..3 {
        for j in 0..3 {
            if i != j {
                assert_ne!(triples[i].encoding_name, triples[j].encoding_name);
                assert_ne!(triples[i].encoder, triples[j].encoder);
                assert_ne!(triples[i].payloader, triples[j].payloader);
            }
        }
    }
}

#[test]
fn codec_params_pure() {
    let s = Settings {
        video_resolution: VideoResolution::V480P,
        webrtc_codec: WebRTCCodec::VP9,
    };
    let a = s.webrtc_codec_params();
    let b = s.webrtc_codec_params();
    assert_eq!(a.encoder, b.encoder);
    assert_eq!(a.encoding_name, b.encoding_name);
    assert_eq!(a.payloader, b.payloader);
}

#[test]
fn defaults_are_720p_vp8() {
    assert_eq!(VideoResolution::default(), VideoResolution::V720P);
    assert_eq!(WebRTCCodec::default(), WebRTCCodec::VP8);
    assert_eq!(
        Settings::default(),
        Settings {
            video_resolution: VideoResolution::V720P,
            webrtc_codec: WebRTCCodec::VP8,
        }
    );
}

#[test]
fn document_exact_text() {
    let s = Settings {
        video_resolution: VideoResolution::V1080P,
        webrtc_codec: WebRTCCodec::H264,
    };
    assert_eq!(
        s.to_document(),
        "video_resolution = \"V1080P\"\nwebrtc_codec = \"H264\"\n"
    );
}

#[test]
fn settings_round_trip_1080p_h264() {
    let s = Settings {
        video_resolution: VideoResolution::V1080P,
        webrtc_codec: WebRTCCodec::H264,
    };
    let doc = s.to_document();
    let back = Settings::from_document(doc.as_str());
    assert_eq!(back, Ok(s));
}

#[test]
fn settings_round_trip_all_values() {
    for s in all_settings() {
        let doc = s.to_document();
        assert_eq!(Settings::from_document(doc.as_str()), Ok(s));
    }
}

#[test]
fn malformed_document_is_config_error() {
    assert_eq!(
        Settings::from_document("video_resolution = \"V999P\"\nwebrtc_codec = \"H264\"\n"),
        Err(ConfigError::Malformed)
    );
    assert_eq!(Settings::from_document(""), Err(ConfigError::Malformed));
    assert_eq!(
        Settings::from_document("not a settings document"),
        Err(ConfigError::Malformed)
    );
}

#[test]
fn load_settings_absent_defaults() {
    assert_eq!(load_settings(None), Ok(Settings::default()));
}

#[test]
fn load_settings_present_parses() {
    let doc = "video_resolution = \"V480P\"\nwebrtc_codec = \"VP9\"\n";
    assert_eq!(
        load_settings(Some(doc)),
        Ok(Settings {
            video_resolution: VideoResolution::V480P,
            webrtc_codec: WebRTCCodec::VP9,
        })
    );
}

#[test]
fn load_settings_malformed_is_fatal_not_defaulted() {
    assert_eq!(
        load_settings(Some("codec = maybe")),
        Err(ConfigError::Malformed)
    );
}
