//! Frontend graph-construction engine shared by the FHE and ZKP program
//! compilers: the operation graph, the compilation context that user code
//! appends to, the per-thread ambient state that reaches it, the scratch
//! index arena and the capture of a program's call signature.

mod ambient;
mod arena;
mod debug;
mod context;
mod graph;
mod signature;

pub use ambient::Ambient;
pub use arena::{next_generation, ArenaHandle, IndexArena};
pub use context::{lemma_group_ids_increasing, new_node, recorded_in_top, stamped, Context};
pub use debug::{DebugData, Group};
pub use graph::{
    decoded, edges_within, incoming, lemma_incoming_absent, lemma_record_round_trip,
    CompilationResult, Edge, EdgeInfo, GraphRecord, NodeIndex, NodeInfo,
};
pub use signature::{
    capture_signature, return_ciphertexts, return_types, CallSignature, RequiredKeys,
    ReturnDescriptor, Type,
};
