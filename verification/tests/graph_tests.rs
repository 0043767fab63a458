use wpe_broadcast::graph::{
    GraphBuilder, NodeName, PipelineGraph, SpliceError, TransportBinInserter,
};
use wpe_broadcast::settings::{Settings, VideoResolution, WebRTCCodec};

fn params_for(c: WebRTCCodec) -> wpe_broadcast::settings::VideoParameter {
    Settings {
        video_resolution: VideoResolution::V720P,
        webrtc_codec: c,
    }
    .webrtc_codec_params()
}

#[test]
fn build_initial_graph_topology() {
    let profile = Settings::default().resolution_profile();
    let g = GraphBuilder::build(profile);
    assert_eq!(g.nodes.len(), 13);
    assert_eq!(g.links.len(), 11);
    assert!(g.subgraphs.is_empty());
    assert_eq!(g.branch_outputs, 1);
    assert_eq!(g.endpoint_inputs, 0);
    assert!(g.find_node(NodeName::Branch).is_some());
    assert!(g.find_node(NodeName::TransportEndpoint).is_some());
    assert!(g.find_node(NodeName::Mixer).is_some());
    let mixer = &g.nodes[g.find_node(NodeName::Mixer).unwrap()];
    assert_eq!(mixer.size.unwrap().width, 1280);
    assert_eq!(mixer.size.unwrap().height, 720);
    assert_eq!(mixer.zorder, Some(0));
}

#[test]
fn insert_once_one_new_output_and_input() {
    let mut g = GraphBuilder::build(Settings::default().resolution_profile());
    let codec = params_for(WebRTCCodec::VP8);
    assert_eq!(TransportBinInserter::insert(&mut g, &codec), Ok(()));
    assert_eq!(g.subgraphs.len(), 1);
    assert_eq!(g.branch_outputs, 2);
    assert_eq!(g.endpoint_inputs, 1);
    let sub = &g.subgraphs[0];
    assert_eq!(sub.payload_type, 96);
    assert_eq!(sub.encoder, codec.encoder);
    assert_eq!(sub.payloader, codec.payloader);
    assert_eq!(sub.encoding_name, codec.encoding_name);
    assert_eq!(sub.branch_output, 1);
    assert_eq!(sub.endpoint_input, 0);
}

#[test]
fn insert_twice_two_independent_subgraphs() {
    let mut g = GraphBuilder::build(Settings::default().resolution_profile());
    let codec = params_for(WebRTCCodec::VP9);
    assert_eq!(TransportBinInserter::insert(&mut g, &codec), Ok(()));
    assert_eq!(TransportBinInserter::insert(&mut g, &codec), Ok(()));
    assert_eq!(g.subgraphs.len(), 2);
    assert_eq!(g.branch_outputs, 3);
    assert_eq!(g.endpoint_inputs, 2);
    assert_ne!(g.subgraphs[0].branch_output, g.subgraphs[1].branch_output);
    assert_ne!(g.subgraphs[0].endpoint_input, g.subgraphs[1].endpoint_input);
}

#[test]
fn insert_without_branch_node_fails() {
    let mut g = PipelineGraph {
        nodes: Vec::new(),
        links: Vec::new(),
        subgraphs: Vec::new(),
        branch_outputs: 1,
        endpoint_inputs: 0,
    };
    let codec = params_for(WebRTCCodec::VP8);
    assert_eq!(
        TransportBinInserter::insert(&mut g, &codec),
        Err(SpliceError::MissingBranchNode)
    );
    assert!(g.subgraphs.is_empty());
    assert_eq!(g.branch_outputs, 1);
}

#[test]
fn insert_without_endpoint_fails() {
    let full = GraphBuilder::build(Settings::default().resolution_profile());
    let nodes: Vec<_> = full
        .nodes
        .iter()
        .filter(|n| n.name != NodeName::TransportEndpoint)
        .cloned()
        .collect();
    let mut g = PipelineGraph {
        nodes,
        links: Vec::new(),
        subgraphs: Vec::new(),
        branch_outputs: 1,
        endpoint_inputs: 0,
    };
    let codec = params_for(WebRTCCodec::H264);
    assert_eq!(
        TransportBinInserter::insert(&mut g, &codec),
        Err(SpliceError::MissingTransportEndpoint)
    );
    assert!(g.subgraphs.is_empty());
}
