//! A hand-written neural inference core: it turns a creature's per-tick
//! sensory embeddings into bounded muscle-actuation signals through a fixed
//! multi-head cross-attention architecture with pretrained weights.
//!
//! Every value of the networks is an IEEE 754 binary32 number carried as its
//! bit pattern (`u32`); `scalar` holds the arithmetic model. `config` loads
//! the two configuration documents, `store` holds the named tensors and the
//! affine operator, `linalg` and `attention` the layer computations, and
//! `policy` the model itself with its forward pass. `motion` and `mesh`
//! carry the per-tick control decisions and the soft-body edge extraction
//! that the surrounding game asks of the library.

pub mod attention;
pub mod config;
pub mod linalg;
pub mod mesh;
pub mod motion;
pub mod policy;
pub mod scalar;
pub mod store;
