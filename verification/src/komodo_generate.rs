//! Builds a run of blocks on top of a chain from a template block, so that
//! the new blocks link to one another and each notarisation in them points
//! two blocks back.
//!
//! * [`transactions`]: the builder's own changes to a transaction,
//! * [`collaborators`]: the digests and the fixup that the builder is given,
//! * [`blocks`]: one block,
//! * [`chain`]: block after block.
pub mod transactions;
pub mod collaborators;
pub mod blocks;
pub mod chain;

pub use crate::komodo_generate::blocks::{
    absorb, seal_header, BlockInputs, BlockProgress, BuiltBlock, BLOCK_SPACING_SECONDS,
};
pub use crate::komodo_generate::chain::{
    block_at, komodo_create_partial_chain, ChainInputs, ChainTemplates,
};
pub use crate::komodo_generate::collaborators::{ChainCollaborators, FixupRequest, FixupResult};
pub use crate::komodo_generate::transactions::{
    fix_coinbase, known_utxos_from_funding, retarget_nota, BuildError,
};
