//! Execution-trace decoder for a zero-knowledge virtual machine.
//!
//! A program is a tree of code blocks (sequential joins, conditional splits,
//! counted loops and straight-line spans of operations). While the VM walks
//! that tree, the decoder receives one typed event per block-lifecycle step
//! and appends one row per row-emitting event to a tabular execution trace of
//! field elements. The finished trace is padded to a power-of-two length and
//! handed to a STARK prover; the `TraceState` view projects a single trace row
//! back into its named logical regions for constraint evaluation.

pub mod blocks;
pub mod decoder;
pub mod events;
pub mod felt;
pub mod layout;
pub mod ops;
pub mod process;
pub mod trace;
pub mod trace_state;

pub use blocks::Join;
pub use blocks::Loop;
pub use blocks::OpBatch;
pub use blocks::Span;
pub use blocks::Split;
pub use decoder::BlockInfo;
pub use decoder::BlockStack;
pub use decoder::Decoder;
pub use decoder::SpanContext;
pub use events::Event;
pub use felt::Felt;
pub use felt::Word;
pub use ops::Operation;
pub use process::ExecutionError;
pub use process::Hasher;
pub use process::Process;
pub use process::VmStack;
pub use trace::DecoderTrace;
pub use trace_state::TraceState;
