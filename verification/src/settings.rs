//! Persisted settings and the immutable profiles resolved from them.
//!
//! Settings carry two closed enumerations: the capture/composition
//! resolution and the transport video codec. Resolution resolves to a fixed
//! width and height; the codec resolves to a fixed encoder description,
//! payloader description and RTP encoding name.

use vstd::prelude::*;
use vstd::string::StringExecFns;

verus! {

/// One of the three supported capture/composition resolution tiers.
#[derive(Clone, Copy, Debug, PartialEq, Eq, Structural)]
pub enum VideoResolution {
    V480P,
    V720P,
    V1080P,
}

impl Default for VideoResolution {
    /// The resolution used when no setting is persisted.
    fn default() -> (r: Self)
        ensures
            r == VideoResolution::V720P,
    {
        VideoResolution::V720P
    }
}

/// One of the three supported transport video codec tiers.
#[derive(Clone, Copy, Debug, PartialEq, Eq, Structural)]
pub enum WebRTCCodec {
    VP8,
    VP9,
    H264,
}

impl Default for WebRTCCodec {
    /// The codec used when no setting is persisted.
    fn default() -> (r: Self)
        ensures
            r == WebRTCCodec::VP8,
    {
        WebRTCCodec::VP8
    }
}

/// Immutable width and height of one resolution tier.
#[derive(Clone, Copy, Debug, PartialEq, Eq, Structural)]
pub struct ResolutionProfile {
    pub width: u64,
    pub height: u64,
}

/// The documented size of each resolution tier.
pub open spec fn spec_resolution_profile(r: VideoResolution) -> ResolutionProfile {
    match r {
        VideoResolution::V480P => ResolutionProfile { width: 640, height: 480 },
        VideoResolution::V720P => ResolutionProfile { width: 1280, height: 720 },
        VideoResolution::V1080P => ResolutionProfile { width: 1920, height: 1080 },
    }
}

/// Immutable encoder/payloader/encoding-name triple of one codec tier.
#[derive(Clone, Copy, Debug)]
pub struct VideoParameter {
    pub encoder: &'static str,
    pub encoding_name: &'static str,
    pub payloader: &'static str,
}

/// Mathematical view of a [`VideoParameter`]: the three descriptions as
/// character sequences.
pub ghost struct ParamModel {
    pub encoder: Seq<char>,
    pub encoding_name: Seq<char>,
    pub payloader: Seq<char>,
}

impl View for VideoParameter {
    type V = ParamModel;

    open spec fn view(&self) -> ParamModel {
        ParamModel {
            encoder: self.encoder@,
            encoding_name: self.encoding_name@,
            payloader: self.payloader@,
        }
    }
}

/// The fixed triple resolved from each codec tier.
pub open spec fn spec_codec_params(c: WebRTCCodec) -> ParamModel {
    match c {
        WebRTCCodec::VP8 => ParamModel {
            encoder: "vp8enc target-bitrate=400000 threads=4 overshoot=25 undershoot=100 deadline=33000 keyframe-max-dist=1"@,
            encoding_name: "VP8"@,
            payloader: "rtpvp8pay picture-id-mode=2"@,
        },
        WebRTCCodec::VP9 => ParamModel {
            encoder: "vp9enc target-bitrate=128000 undershoot=100 deadline=33000 keyframe-max-dist=1"@,
            encoding_name: "VP9"@,
            payloader: "rtpvp9pay picture-id-mode=2"@,
        },
        WebRTCCodec::H264 => ParamModel {
            encoder: "vaapih264enc"@,
            encoding_name: "H264"@,
            payloader: "rtph264pay"@,
        },
    }
}

/// The persisted settings document's two fields.
#[derive(Clone, Copy, Debug, PartialEq, Eq, Structural)]
pub struct Settings {
    pub video_resolution: VideoResolution,
    pub webrtc_codec: WebRTCCodec,
}

/// The settings in force when no document is persisted.
pub open spec fn spec_default_settings() -> Settings {
    Settings { video_resolution: VideoResolution::V720P, webrtc_codec: WebRTCCodec::VP8 }
}

impl Default for Settings {
    /// Defaults used when no settings document is persisted.
    fn default() -> (r: Settings)
        ensures
            r == spec_default_settings(),
    {
        Settings {
            video_resolution: VideoResolution::V720P,
            webrtc_codec: WebRTCCodec::VP8,
        }
    }
}

impl Settings {
    /// Resolve the configured resolution tier to its documented size.
    pub fn resolution_profile(&self) -> (r: ResolutionProfile)
        ensures
            r == spec_resolution_profile(self.video_resolution),
    {
        match self.video_resolution {
            VideoResolution::V480P => ResolutionProfile { width: 640, height: 480 },
            VideoResolution::V720P => ResolutionProfile { width: 1280, height: 720 },
            VideoResolution::V1080P => ResolutionProfile { width: 1920, height: 1080 },
        }
    }

    /// Resolve the configured codec tier to its fixed
    /// encoder/payloader/encoding-name triple.
    pub fn webrtc_codec_params(&self) -> (r: VideoParameter)
        ensures
            r@ == spec_codec_params(self.webrtc_codec),
    {
        match self.webrtc_codec {
            WebRTCCodec::VP8 => VideoParameter {
                encoder: "vp8enc target-bitrate=400000 threads=4 overshoot=25 undershoot=100 deadline=33000 keyframe-max-dist=1",
                encoding_name: "VP8",
                payloader: "rtpvp8pay picture-id-mode=2",
            },
            WebRTCCodec::VP9 => VideoParameter {
                encoder: "vp9enc target-bitrate=128000 undershoot=100 deadline=33000 keyframe-max-dist=1",
                encoding_name: "VP9",
                payloader: "rtpvp9pay picture-id-mode=2",
            },
            WebRTCCodec::H264 => VideoParameter {
                encoder: "vaapih264enc",
                encoding_name: "H264",
                payloader: "rtph264pay",
            },
        }
    }
}

/// Resolution is a closed enumeration: every tier maps to its documented
/// size, and those three sizes are the only values the mapping ever takes.
pub proof fn lemma_resolution_profile_closed(r: VideoResolution)
    ensures
        spec_resolution_profile(r) == (ResolutionProfile { width: 640, height: 480 })
            || spec_resolution_profile(r) == (ResolutionProfile { width: 1280, height: 720 })
            || spec_resolution_profile(r) == (ResolutionProfile { width: 1920, height: 1080 }),
        (spec_resolution_profile(r) == (ResolutionProfile { width: 640, height: 480 })) <==> r
            == VideoResolution::V480P,
        (spec_resolution_profile(r) == (ResolutionProfile { width: 1280, height: 720 })) <==> r
            == VideoResolution::V720P,
        (spec_resolution_profile(r) == (ResolutionProfile { width: 1920, height: 1080 })) <==> r
            == VideoResolution::V1080P,
{
}

/// A settings document was present but is not well formed. Distinct from an
/// absent document, which silently yields the defaults.
#[derive(Clone, Copy, Debug, PartialEq, Eq, Structural)]
pub enum ConfigError {
    Malformed,
}

/// The persisted tag of each resolution tier.
pub open spec fn spec_resolution_tag(r: VideoResolution) -> Seq<char> {
    match r {
        VideoResolution::V480P => "V480P"@,
        VideoResolution::V720P => "V720P"@,
        VideoResolution::V1080P => "V1080P"@,
    }
}

/// The persisted tag of each codec tier.
pub open spec fn spec_codec_tag(c: WebRTCCodec) -> Seq<char> {
    match c {
        WebRTCCodec::VP8 => "VP8"@,
        WebRTCCodec::VP9 => "VP9"@,
        WebRTCCodec::H264 => "H264"@,
    }
}

/// The canonical key-value document persisting one settings value.
pub open spec fn spec_document(s: Settings) -> Seq<char> {
    "video_resolution = \""@ + spec_resolution_tag(s.video_resolution) + "\"\nwebrtc_codec = \""@
        + spec_codec_tag(s.webrtc_codec) + "\"\n"@
}

impl Settings {
    /// The persisted tag of the configured resolution tier.
    pub fn resolution_tag(&self) -> (t: &'static str)
        ensures
            t@ == spec_resolution_tag(self.video_resolution),
    {
        match self.video_resolution {
            VideoResolution::V480P => "V480P",
            VideoResolution::V720P => "V720P",
            VideoResolution::V1080P => "V1080P",
        }
    }

    /// The persisted tag of the configured codec tier.
    pub fn codec_tag(&self) -> (t: &'static str)
        ensures
            t@ == spec_codec_tag(self.webrtc_codec),
    {
        match self.webrtc_codec {
            WebRTCCodec::VP8 => "VP8",
            WebRTCCodec::VP9 => "VP9",
            WebRTCCodec::H264 => "H264",
        }
    }

    /// Serialize to the canonical key-value document.
    pub fn to_document(&self) -> (r: String)
        ensures
            r@ == spec_document(*self),
    {
        let mut out = String::new();
        out.append("video_resolution = \"");
        out.append(self.resolution_tag());
        out.append("\"\nwebrtc_codec = \"");
        out.append(self.codec_tag());
        out.append("\"\n");
        proof {
            assert(out@ =~= spec_document(*self));
        }
        out
    }

    /// Whether `doc` is exactly the document persisting `self`.
    fn document_matches(&self, doc: &String) -> (b: bool)
        ensures
            b == (doc@ == spec_document(*self)),
    {
        let candidate = self.to_document();
        candidate == *doc
    }

    /// Deserialize the canonical key-value document. Every well-formed
    /// document names one of the three resolution tiers and one of the
    /// three codec tiers; anything else is malformed.
    pub fn from_document(doc: &str) -> (r: Result<Settings, ConfigError>)
        ensures
            match r {
                Ok(s) => doc@ == spec_document(s),
                Err(e) => e == ConfigError::Malformed && forall|s: Settings|
                    doc@ != spec_document(s),
            },
    {
        let d = doc.to_owned();
        let resolutions = [VideoResolution::V480P, VideoResolution::V720P, VideoResolution::V1080P];
        let codecs = [WebRTCCodec::VP8, WebRTCCodec::VP9, WebRTCCodec::H264];
        let mut i: usize = 0;
        while i < 3
            invariant
                i <= 3,
                d@ == doc@,
                resolutions@ =~= seq![
                    VideoResolution::V480P,
                    VideoResolution::V720P,
                    VideoResolution::V1080P,
                ],
                codecs@ =~= seq![WebRTCCodec::VP8, WebRTCCodec::VP9, WebRTCCodec::H264],
                forall|s: Settings|
                    (exists|k: int|
                        0 <= k < i && s.video_resolution == resolutions@[k]) ==> doc@
                        != spec_document(s),
            decreases 3 - i,
        {
            let mut j: usize = 0;
            while j < 3
                invariant
                    i < 3,
                    j <= 3,
                    d@ == doc@,
                    resolutions@ =~= seq![
                        VideoResolution::V480P,
                        VideoResolution::V720P,
                        VideoResolution::V1080P,
                    ],
                    codecs@ =~= seq![WebRTCCodec::VP8, WebRTCCodec::VP9, WebRTCCodec::H264],
                    forall|s: Settings|
                        s.video_resolution == resolutions@[i as int] && (exists|k: int|
                            0 <= k < j && s.webrtc_codec == codecs@[k]) ==> doc@ != spec_document(
                            s,
                        ),
                decreases 3 - j,
            {
                let candidate = Settings {
                    video_resolution: resolutions[i],
                    webrtc_codec: codecs[j],
                };
                if candidate.document_matches(&d) {
                    return Ok(candidate);
                }
                j += 1;
            }
            proof {
                assert forall|s: Settings| s.video_resolution == resolutions@[i as int] implies doc@
                    != spec_document(s) by {
                    match s.webrtc_codec {
                        WebRTCCodec::VP8 => assert(s.webrtc_codec == codecs@[0]),
                        WebRTCCodec::VP9 => assert(s.webrtc_codec == codecs@[1]),
                        WebRTCCodec::H264 => assert(s.webrtc_codec == codecs@[2]),
                    }
                }
            }
            i += 1;
        }
        proof {
            assert forall|s: Settings| doc@ != spec_document(s) by {
                match s.video_resolution {
                    VideoResolution::V480P => assert(s.video_resolution == resolutions@[0]),
                    VideoResolution::V720P => assert(s.video_resolution == resolutions@[1]),
                    VideoResolution::V1080P => assert(s.video_resolution == resolutions@[2]),
                }
            }
        }
        Err(ConfigError::Malformed)
    }
}

/// Resolve the persisted settings from what the loader found: an absent
/// document silently yields the defaults, a present but malformed document
/// is a fatal configuration error, never silently defaulted.
pub fn load_settings(contents: Option<&str>) -> (r: Result<Settings, ConfigError>)
    ensures
        match contents {
            None => r == Ok::<Settings, ConfigError>(spec_default_settings()),
            Some(doc) => match r {
                Ok(s) => doc@ == spec_document(s),
                Err(e) => e == ConfigError::Malformed && forall|s: Settings|
                    doc@ != spec_document(s),
            },
        },
{
    match contents {
        None => Ok(Settings::default()),
        Some(doc) => Settings::from_document(doc),
    }
}

/// The canonical document determines the settings value: distinct values
/// persist as distinct documents.
pub proof fn lemma_document_injective(a: Settings, b: Settings)
    requires
        spec_document(a) == spec_document(b),
    ensures
        a == b,
{
    reveal_strlit("video_resolution = \"");
    reveal_strlit("\"\nwebrtc_codec = \"");
    reveal_strlit("\"\n");
    reveal_strlit("V480P");
    reveal_strlit("V720P");
    reveal_strlit("V1080P");
    reveal_strlit("VP8");
    reveal_strlit("VP9");
    reveal_strlit("H264");
    let key_r = "video_resolution = \""@;
    let key_c = "\"\nwebrtc_codec = \""@;
    let tail = "\"\n"@;
    let ra = spec_resolution_tag(a.video_resolution);
    let rb = spec_resolution_tag(b.video_resolution);
    let ca = spec_codec_tag(a.webrtc_codec);
    let cb = spec_codec_tag(b.webrtc_codec);
    assert(key_r.len() == 20);
    assert(key_c.len() == 18);
    // Every resolution tag shows its tier in its second character.
    assert(spec_document(a)[21] == ra[1]) by {
        assert((key_r + ra)[21] == ra[1]);
        assert((key_r + ra + key_c)[21] == (key_r + ra)[21]);
        assert((key_r + ra + key_c + ca)[21] == (key_r + ra + key_c)[21]);
        assert(spec_document(a)[21] == (key_r + ra + key_c + ca)[21]);
    }
    assert(spec_document(b)[21] == rb[1]) by {
        assert((key_r + rb)[21] == rb[1]);
        assert((key_r + rb + key_c)[21] == (key_r + rb)[21]);
        assert((key_r + rb + key_c + cb)[21] == (key_r + rb + key_c)[21]);
        assert(spec_document(b)[21] == (key_r + rb + key_c + cb)[21]);
    }
    assert(a.video_resolution == b.video_resolution);
    assert(ra == rb);
    // Every codec tag shows its tier in its third character.
    let at: int = 20 + (ra.len() as int) + 18 + 2;
    assert(spec_document(a)[at] == ca[2]) by {
        assert((key_r + ra + key_c + ca)[at] == ca[2]);
        assert(spec_document(a)[at] == (key_r + ra + key_c + ca)[at]);
    }
    assert(spec_document(b)[at] == cb[2]) by {
        assert((key_r + rb + key_c + cb)[at] == cb[2]);
        assert(spec_document(b)[at] == (key_r + rb + key_c + cb)[at]);
    }
    assert(a.webrtc_codec == b.webrtc_codec);
}

/// The round-trip law: on the document persisting `s`, the only result the
/// deserializer's contract allows is `Ok(s)` — serialize then deserialize
/// gives the value back.
pub proof fn lemma_document_round_trip(s: Settings, r: Result<Settings, ConfigError>)
    requires
        match r {
            Ok(s2) => spec_document(s) == spec_document(s2),
            Err(_) => forall|x: Settings| spec_document(s) != spec_document(x),
        },
    ensures
        r == Ok::<Settings, ConfigError>(s),
{
    match r {
        Ok(s2) => {
            lemma_document_injective(s, s2);
        },
        Err(_) => {
            assert(spec_document(s) == spec_document(s));
        },
    }
}

/// Distinct codec tiers resolve to mutually distinct triples: already their
/// RTP encoding names differ (and so do the encoder and payloader
/// descriptions, which start differently or have different lengths).
pub proof fn lemma_codec_params_distinct(a: WebRTCCodec, b: WebRTCCodec)
    requires
        a != b,
    ensures
        spec_codec_params(a).encoding_name != spec_codec_params(b).encoding_name,
        spec_codec_params(a) != spec_codec_params(b),
{
    reveal_strlit("VP8");
    reveal_strlit("VP9");
    reveal_strlit("H264");
    assert("VP8"@.len() == 3);
    assert("VP9"@.len() == 3);
    assert("H264"@.len() == 4);
    assert("VP8"@[2] == '8');
    assert("VP9"@[2] == '9');
}

} // verus!
