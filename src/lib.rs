//! A small dense-matrix kernel for feed-forward numeric pipelines: matrices with a
//! pending element-wise activation, dimension-checked products, and a forward pass
//! that folds multiply-then-activate over a list of weight layers.
pub mod error;
pub mod ff;
pub mod layer;
pub mod node;
