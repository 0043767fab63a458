//! The processing-graph model: nodes, links, and the transport splice.
//!
//! A [`PipelineGraph`] is the orchestrator's own picture of the media graph:
//! named processing nodes, the static links between them, the request ports
//! created so far on the branch node and on the transport endpoint, and the
//! transport subgraphs spliced in. The media engine that executes the graph
//! lives outside the library; the binary mirrors every mutation made here
//! onto it.

use vstd::prelude::*;
use crate::settings::{ParamModel, ResolutionProfile, VideoParameter};

verus! {

/// Name of a node inside one pipeline graph; names are unique per graph.
#[derive(Clone, Copy, Debug, PartialEq, Eq, Structural)]
pub enum NodeName {
    /// The negotiated real-time transport endpoint.
    TransportEndpoint,
    /// The compositor merging the two video sources.
    Mixer,
    /// The branch node duplicating the composite onto requestable outputs.
    Branch,
    /// Queue feeding the local preview sink.
    PreviewQueue,
    /// The local preview sink.
    PreviewSink,
    /// The embedded web-rendered content source.
    EmbeddedSource,
    /// Capability filter sizing the embedded content.
    EmbeddedCaps,
    /// Color/format conversion chain behind the embedded source.
    EmbeddedConvert,
    /// Queue decoupling the embedded chain from the mixer.
    EmbeddedQueue,
    /// The camera capture source.
    CameraSource,
    /// Capability filter sizing the camera capture.
    CameraCaps,
    /// Decode/conversion chain behind the camera source.
    CameraConvert,
    /// Queue decoupling the camera chain from the mixer.
    CameraQueue,
}

/// What a node does in the graph.
#[derive(Clone, Copy, Debug, PartialEq, Eq, Structural)]
pub enum NodeKind {
    Source,
    CapabilityFilter,
    Convert,
    Queue,
    Mixer,
    Branch,
    Sink,
    TransportEndpoint,
}

/// A named processing unit with the properties the orchestrator sets on it.
#[derive(Clone, Copy, Debug)]
pub struct ProcessingNode {
    pub name: NodeName,
    pub kind: NodeKind,
    /// Width and height property, where the node is sized.
    pub size: Option<ResolutionProfile>,
    /// Z-order property, where the node composites.
    pub zorder: Option<u64>,
}

/// A directed link between two fixed ports.
#[derive(Clone, Copy, Debug)]
pub struct Link {
    pub src: NodeName,
    pub dst: NodeName,
}

/// The ephemeral encode/packetize ensemble spliced between the branch node
/// and the transport endpoint: queue, format convert, encoder, payloader,
/// queue and capability filter, exposed through two aliased boundary ports.
#[derive(Clone, Copy, Debug)]
pub struct TransportSubgraph {
    pub encoder: &'static str,
    pub payloader: &'static str,
    pub encoding_name: &'static str,
    /// The fixed RTP payload-type identifier tagged on the capability filter.
    pub payload_type: u64,
    /// Index of the branch-node request output linked to the sink alias.
    pub branch_output: u64,
    /// Index of the endpoint request input linked from the src alias.
    pub endpoint_input: u64,
}

/// Mathematical view of a [`TransportSubgraph`].
pub ghost struct SubgraphModel {
    pub encoder: Seq<char>,
    pub payloader: Seq<char>,
    pub encoding_name: Seq<char>,
    pub payload_type: int,
    pub branch_output: int,
    pub endpoint_input: int,
}

impl View for TransportSubgraph {
    type V = SubgraphModel;

    open spec fn view(&self) -> SubgraphModel {
        SubgraphModel {
            encoder: self.encoder@,
            payloader: self.payloader@,
            encoding_name: self.encoding_name@,
            payload_type: self.payload_type as int,
            branch_output: self.branch_output as int,
            endpoint_input: self.endpoint_input as int,
        }
    }
}

/// The composition graph, exclusively owned by the orchestrator.
#[derive(Debug)]
pub struct PipelineGraph {
    pub nodes: Vec<ProcessingNode>,
    pub links: Vec<Link>,
    pub subgraphs: Vec<TransportSubgraph>,
    /// Request output ports created so far on the branch node.
    pub branch_outputs: u64,
    /// Request input ports created so far on the transport endpoint.
    pub endpoint_inputs: u64,
}

/// Mathematical view of a [`PipelineGraph`].
#[verifier::ext_equal]
pub ghost struct GraphModel {
    pub nodes: Seq<ProcessingNode>,
    pub links: Seq<Link>,
    pub subgraphs: Seq<SubgraphModel>,
    pub branch_outputs: int,
    pub endpoint_inputs: int,
}

impl View for PipelineGraph {
    type V = GraphModel;

    open spec fn view(&self) -> GraphModel {
        GraphModel {
            nodes: self.nodes@,
            links: self.links@,
            subgraphs: self.subgraphs@.map_values(|s: TransportSubgraph| s@),
            branch_outputs: self.branch_outputs as int,
            endpoint_inputs: self.endpoint_inputs as int,
        }
    }
}

impl GraphModel {
    /// Node names are unique within one graph instance.
    pub open spec fn names_unique(self) -> bool {
        forall|i: int, j: int|
            0 <= i < j < self.nodes.len() ==> self.nodes[i].name != self.nodes[j].name
    }

    /// Whether a node of this name is present.
    pub open spec fn has_node(self, name: NodeName) -> bool {
        exists|i: int| 0 <= i < self.nodes.len() && self.nodes[i].name == name
    }

    /// Request-port bookkeeping: the branch node carries one output per
    /// splice plus the preview output, the endpoint one input per splice,
    /// and the k-th subgraph is wired to the ports requested for it.
    pub open spec fn ports_consistent(self) -> bool {
        &&& self.branch_outputs == self.subgraphs.len() + 1
        &&& self.endpoint_inputs == self.subgraphs.len()
        &&& forall|k: int|
            0 <= k < self.subgraphs.len() ==> (#[trigger] self.subgraphs[k]).branch_output == k
                + 1 && self.subgraphs[k].endpoint_input == k
    }

    /// Every link connects nodes that are present in the graph.
    pub open spec fn links_valid(self) -> bool {
        forall|i: int|
            0 <= i < self.links.len() ==> self.has_node((#[trigger] self.links[i]).src)
                && self.has_node(self.links[i].dst)
    }

    /// Well-formedness of a graph the orchestrator owns.
    pub open spec fn wf(self) -> bool {
        &&& self.names_unique()
        &&& self.has_node(NodeName::Branch)
        &&& self.has_node(NodeName::TransportEndpoint)
        &&& self.links_valid()
        &&& self.ports_consistent()
    }
}

impl PipelineGraph {
    /// Well-formedness of the owned graph.
    pub open spec fn wf(self) -> bool {
        self@.wf()
    }

    /// Index of the first node with this name, if any.
    pub fn find_node(&self, name: NodeName) -> (r: Option<usize>)
        ensures
            match r {
                Some(i) => i < self.nodes@.len() && self.nodes@[i as int].name == name,
                None => forall|i: int| 0 <= i < self.nodes@.len() ==> self.nodes@[i].name != name,
            },
    {
        let mut i: usize = 0;
        while i < self.nodes.len()
            invariant
                i <= self.nodes@.len(),
                forall|j: int| 0 <= j < i ==> self.nodes@[j].name != name,
            decreases self.nodes@.len() - i,
        {
            if self.nodes[i].name == name {
                return Some(i);
            }
            i += 1;
        }
        None
    }
}

/// The nodes of the initial composition graph, sized to one resolution
/// profile: embedded source and camera source, each behind a sizing
/// capability filter and a conversion chain, merged by the mixer (embedded
/// content at the fixed low z-order), branched to the preview sink, with the
/// transport endpoint still unconnected.
pub open spec fn spec_initial_nodes(p: ResolutionProfile) -> Seq<ProcessingNode> {
    seq![
        ProcessingNode {
            name: NodeName::TransportEndpoint,
            kind: NodeKind::TransportEndpoint,
            size: None,
            zorder: None,
        },
        ProcessingNode {
            name: NodeName::Mixer,
            kind: NodeKind::Mixer,
            size: Some(p),
            zorder: Some(0),
        },
        ProcessingNode { name: NodeName::Branch, kind: NodeKind::Branch, size: None, zorder: None },
        ProcessingNode {
            name: NodeName::PreviewQueue,
            kind: NodeKind::Queue,
            size: None,
            zorder: None,
        },
        ProcessingNode { name: NodeName::PreviewSink, kind: NodeKind::Sink, size: None, zorder: None },
        ProcessingNode {
            name: NodeName::EmbeddedSource,
            kind: NodeKind::Source,
            size: None,
            zorder: None,
        },
        ProcessingNode {
            name: NodeName::EmbeddedCaps,
            kind: NodeKind::CapabilityFilter,
            size: Some(p),
            zorder: None,
        },
        ProcessingNode {
            name: NodeName::EmbeddedConvert,
            kind: NodeKind::Convert,
            size: None,
            zorder: None,
        },
        ProcessingNode {
            name: NodeName::EmbeddedQueue,
            kind: NodeKind::Queue,
            size: None,
            zorder: None,
        },
        ProcessingNode {
            name: NodeName::CameraSource,
            kind: NodeKind::Source,
            size: None,
            zorder: None,
        },
        ProcessingNode {
            name: NodeName::CameraCaps,
            kind: NodeKind::CapabilityFilter,
            size: Some(p),
            zorder: None,
        },
        ProcessingNode {
            name: NodeName::CameraConvert,
            kind: NodeKind::Convert,
            size: None,
            zorder: None,
        },
        ProcessingNode {
            name: NodeName::CameraQueue,
            kind: NodeKind::Queue,
            size: None,
            zorder: None,
        },
    ]
}

/// The static links of the initial graph: the two source chains into the
/// mixer, the mixer into the branch node, and the preview path. The branch
/// output feeding the preview is the one request output the builder uses.
pub open spec fn spec_initial_links() -> Seq<Link> {
    seq![
        Link { src: NodeName::EmbeddedSource, dst: NodeName::EmbeddedCaps },
        Link { src: NodeName::EmbeddedCaps, dst: NodeName::EmbeddedConvert },
        Link { src: NodeName::EmbeddedConvert, dst: NodeName::EmbeddedQueue },
        Link { src: NodeName::EmbeddedQueue, dst: NodeName::Mixer },
        Link { src: NodeName::CameraSource, dst: NodeName::CameraCaps },
        Link { src: NodeName::CameraCaps, dst: NodeName::CameraConvert },
        Link { src: NodeName::CameraConvert, dst: NodeName::CameraQueue },
        Link { src: NodeName::CameraQueue, dst: NodeName::Mixer },
        Link { src: NodeName::Mixer, dst: NodeName::Branch },
        Link { src: NodeName::Branch, dst: NodeName::PreviewQueue },
        Link { src: NodeName::PreviewQueue, dst: NodeName::PreviewSink },
    ]
}

/// The whole initial graph for one resolution profile: no transport subgraph
/// yet, one branch output taken by the preview, no endpoint input requested.
pub open spec fn spec_initial_graph(p: ResolutionProfile) -> GraphModel {
    GraphModel {
        nodes: spec_initial_nodes(p),
        links: spec_initial_links(),
        subgraphs: Seq::empty(),
        branch_outputs: 1,
        endpoint_inputs: 0,
    }
}

/// Builds the initial composition graph.
pub struct GraphBuilder;

impl GraphBuilder {
    /// Construct the initial composition graph sized to `profile`.
    pub fn build(profile: ResolutionProfile) -> (g: PipelineGraph)
        ensures
            g@ == spec_initial_graph(profile),
            g.wf(),
    {
        let nodes: Vec<ProcessingNode> = vec![
            ProcessingNode {
                name: NodeName::TransportEndpoint,
                kind: NodeKind::TransportEndpoint,
                size: None,
                zorder: None,
            },
            ProcessingNode {
                name: NodeName::Mixer,
                kind: NodeKind::Mixer,
                size: Some(profile),
                zorder: Some(0),
            },
            ProcessingNode {
                name: NodeName::Branch,
                kind: NodeKind::Branch,
                size: None,
                zorder: None,
            },
            ProcessingNode {
                name: NodeName::PreviewQueue,
                kind: NodeKind::Queue,
                size: None,
                zorder: None,
            },
            ProcessingNode {
                name: NodeName::PreviewSink,
                kind: NodeKind::Sink,
                size: None,
                zorder: None,
            },
            ProcessingNode {
                name: NodeName::EmbeddedSource,
                kind: NodeKind::Source,
                size: None,
                zorder: None,
            },
            ProcessingNode {
                name: NodeName::EmbeddedCaps,
                kind: NodeKind::CapabilityFilter,
                size: Some(profile),
                zorder: None,
            },
            ProcessingNode {
                name: NodeName::EmbeddedConvert,
                kind: NodeKind::Convert,
                size: None,
                zorder: None,
            },
            ProcessingNode {
                name: NodeName::EmbeddedQueue,
                kind: NodeKind::Queue,
                size: None,
                zorder: None,
            },
            ProcessingNode {
                name: NodeName::CameraSource,
                kind: NodeKind::Source,
                size: None,
                zorder: None,
            },
            ProcessingNode {
                name: NodeName::CameraCaps,
                kind: NodeKind::CapabilityFilter,
                size: Some(profile),
                zorder: None,
            },
            ProcessingNode {
                name: NodeName::CameraConvert,
                kind: NodeKind::Convert,
                size: None,
                zorder: None,
            },
            ProcessingNode {
                name: NodeName::CameraQueue,
                kind: NodeKind::Queue,
                size: None,
                zorder: None,
            },
        ];
        let links: Vec<Link> = vec![
            Link { src: NodeName::EmbeddedSource, dst: NodeName::EmbeddedCaps },
            Link { src: NodeName::EmbeddedCaps, dst: NodeName::EmbeddedConvert },
            Link { src: NodeName::EmbeddedConvert, dst: NodeName::EmbeddedQueue },
            Link { src: NodeName::EmbeddedQueue, dst: NodeName::Mixer },
            Link { src: NodeName::CameraSource, dst: NodeName::CameraCaps },
            Link { src: NodeName::CameraCaps, dst: NodeName::CameraConvert },
            Link { src: NodeName::CameraConvert, dst: NodeName::CameraQueue },
            Link { src: NodeName::CameraQueue, dst: NodeName::Mixer },
            Link { src: NodeName::Mixer, dst: NodeName::Branch },
            Link { src: NodeName::Branch, dst: NodeName::PreviewQueue },
            Link { src: NodeName::PreviewQueue, dst: NodeName::PreviewSink },
        ];
        let g = PipelineGraph { nodes, links, subgraphs: Vec::new(), branch_outputs: 1, endpoint_inputs: 0 };
        proof {
            assert(g.nodes@ =~= spec_initial_nodes(profile));
            assert(g.links@ =~= spec_initial_links());
            assert(g@.subgraphs =~= Seq::<SubgraphModel>::empty());
            assert(g@ =~= spec_initial_graph(profile));
            assert(g@.nodes[0].name == NodeName::TransportEndpoint);
            assert(g@.nodes[1].name == NodeName::Mixer);
            assert(g@.nodes[2].name == NodeName::Branch);
            assert(g@.nodes[3].name == NodeName::PreviewQueue);
            assert(g@.nodes[4].name == NodeName::PreviewSink);
            assert(g@.nodes[5].name == NodeName::EmbeddedSource);
            assert(g@.nodes[6].name == NodeName::EmbeddedCaps);
            assert(g@.nodes[7].name == NodeName::EmbeddedConvert);
            assert(g@.nodes[8].name == NodeName::EmbeddedQueue);
            assert(g@.nodes[9].name == NodeName::CameraSource);
            assert(g@.nodes[10].name == NodeName::CameraCaps);
            assert(g@.nodes[11].name == NodeName::CameraConvert);
            assert(g@.nodes[12].name == NodeName::CameraQueue);
        }
        g
    }
}

/// Why a transport splice could not be made.
#[derive(Clone, Copy, Debug, PartialEq, Eq, Structural)]
pub enum SpliceError {
    /// The graph has no branch node to take the composite from.
    MissingBranchNode,
    /// The graph has no transport endpoint to feed.
    MissingTransportEndpoint,
}

/// The fixed RTP payload-type identifier tagged on the capability filter.
pub open spec fn spec_payload_type() -> int {
    96
}

/// The graph after one transport splice for codec parameters `vp`: one new
/// subgraph wired to one newly requested branch output and one newly
/// requested endpoint input; nodes and static links untouched.
pub open spec fn spec_spliced(m: GraphModel, vp: ParamModel) -> GraphModel {
    GraphModel {
        nodes: m.nodes,
        links: m.links,
        subgraphs: m.subgraphs.push(
            SubgraphModel {
                encoder: vp.encoder,
                payloader: vp.payloader,
                encoding_name: vp.encoding_name,
                payload_type: spec_payload_type(),
                branch_output: m.branch_outputs,
                endpoint_input: m.endpoint_inputs,
            },
        ),
        branch_outputs: m.branch_outputs + 1,
        endpoint_inputs: m.endpoint_inputs + 1,
    }
}

/// Splicing preserves well-formedness.
pub proof fn lemma_spliced_wf(m: GraphModel, vp: ParamModel)
    requires
        m.wf(),
    ensures
        spec_spliced(m, vp).wf(),
{
    let s = spec_spliced(m, vp);
    assert forall|k: int| 0 <= k < s.subgraphs.len() implies (#[trigger] s.subgraphs[k]).branch_output
        == k + 1 && s.subgraphs[k].endpoint_input == k by {
        if k < m.subgraphs.len() {
            assert(m.subgraphs[k].branch_output == k + 1);
        }
    }
    assert forall|i: int| 0 <= i < s.links.len() implies s.has_node((#[trigger] s.links[i]).src)
        && s.has_node(s.links[i].dst) by {
        assert(m.has_node(m.links[i].src) && m.has_node(m.links[i].dst));
        let ghost a = choose|j: int| 0 <= j < m.nodes.len() && m.nodes[j].name == m.links[i].src;
        let ghost b = choose|j: int| 0 <= j < m.nodes.len() && m.nodes[j].name == m.links[i].dst;
        assert(s.nodes[a].name == s.links[i].src);
        assert(s.nodes[b].name == s.links[i].dst);
    }
}

/// Splices the transport subgraph between the branch node and the endpoint.
pub struct TransportBinInserter;

impl TransportBinInserter {
    /// Build a transport subgraph from `codec`'s encoder and payloader
    /// specs plus a capability filter tagged with its encoding name and the
    /// fixed payload type, add it to the graph, request a new output from
    /// the branch node and a new input from the transport endpoint, and link
    /// both boundary aliases.
    ///
    /// Fails, leaving the graph untouched, when the branch node or the
    /// transport endpoint is absent. A second call on the same graph splices
    /// a second, independent subgraph: reuse is not detected, and callers
    /// must invoke this exactly once per graph.
    pub fn insert(graph: &mut PipelineGraph, codec: &VideoParameter) -> (r: Result<
        (),
        SpliceError,
    >)
        requires
            old(graph).branch_outputs < u64::MAX,
            old(graph).endpoint_inputs < u64::MAX,
        ensures
            match r {
                Ok(()) => old(graph)@.has_node(NodeName::Branch) && old(graph)@.has_node(
                    NodeName::TransportEndpoint,
                ) && final(graph)@ == spec_spliced(old(graph)@, codec@),
                Err(e) => *final(graph) == *old(graph) && ((e == SpliceError::MissingBranchNode
                    && !old(graph)@.has_node(NodeName::Branch)) || (e
                    == SpliceError::MissingTransportEndpoint && !old(graph)@.has_node(
                    NodeName::TransportEndpoint,
                ))),
            },
            old(graph)@.wf() ==> final(graph)@.wf(),
    {
        if graph.find_node(NodeName::Branch).is_none() {
            return Err(SpliceError::MissingBranchNode);
        }
        if graph.find_node(NodeName::TransportEndpoint).is_none() {
            return Err(SpliceError::MissingTransportEndpoint);
        }
        let sub = TransportSubgraph {
            encoder: codec.encoder,
            payloader: codec.payloader,
            encoding_name: codec.encoding_name,
            payload_type: 96,
            branch_output: graph.branch_outputs,
            endpoint_input: graph.endpoint_inputs,
        };
        graph.subgraphs.push(sub);
        graph.branch_outputs = graph.branch_outputs + 1;
        graph.endpoint_inputs = graph.endpoint_inputs + 1;
        proof {
            assert(graph.subgraphs@.map_values(|s: TransportSubgraph| s@) =~= old(
                graph,
            ).subgraphs@.map_values(|s: TransportSubgraph| s@).push(sub@));
            assert(graph@ =~= spec_spliced(old(graph)@, codec@));
            if old(graph)@.wf() {
                lemma_spliced_wf(old(graph)@, codec@);
            }
        }
        Ok(())
    }
}

/// Splicing once creates exactly one new branch output, one new endpoint
/// input and one new subgraph; splicing a second time on the same graph
/// yields a second subgraph wired to its own, distinct ports rather than
/// silently reusing the first — the unguarded edge case callers must avoid.
pub proof fn lemma_splice_counts_and_independence(m: GraphModel, a: ParamModel, b: ParamModel)
    ensures
        spec_spliced(m, a).branch_outputs == m.branch_outputs + 1,
        spec_spliced(m, a).endpoint_inputs == m.endpoint_inputs + 1,
        spec_spliced(m, a).subgraphs.len() == m.subgraphs.len() + 1,
        spec_spliced(spec_spliced(m, a), b).subgraphs.len() == m.subgraphs.len() + 2,
        spec_spliced(spec_spliced(m, a), b).subgraphs.last().branch_output != spec_spliced(
            spec_spliced(m, a),
            b,
        ).subgraphs[m.subgraphs.len() as int].branch_output,
        spec_spliced(spec_spliced(m, a), b).subgraphs.last().endpoint_input != spec_spliced(
            spec_spliced(m, a),
            b,
        ).subgraphs[m.subgraphs.len() as int].endpoint_input,
{
    let once = spec_spliced(m, a);
    let twice = spec_spliced(once, b);
    assert(twice.subgraphs[m.subgraphs.len() as int] == once.subgraphs[m.subgraphs.len() as int]);
}

} // verus!
