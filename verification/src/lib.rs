//! Iterator adaptors with associated read-only data.
//!
//! A chain starts from any pull-based sequence, attaches a context value to
//! it, and then applies any number of adaptors that transform the items or
//! the context. Every adaptor re-exposes the context and stays a pull-based
//! sequence, so chains compose arbitrarily.

mod context;
mod ctx_map;
mod filter;
mod filter_map;
mod laws;
mod map;
mod pull;
mod range;
mod views;

pub use context::ContextIterator;
pub use context::ContextIteratorExt;
pub use context::FilterMapWithCtx;
pub use context::FilterWithCtx;
pub use context::IntoContextIterator;
pub use context::MapWithCtx;
pub use context::WithCtx;
pub use ctx_map::CtxMap;
pub use filter::FilterCtx;
pub use filter_map::FilterMapCtx;
pub use laws::lemma_context_preserved;
pub use laws::lemma_filter_map_equivalence;
pub use laws::lemma_filter_map_reverse;
pub use laws::lemma_filter_map_view_equivalence;
pub use laws::lemma_filter_mapped_view_reverse;
pub use laws::lemma_filter_reverse;
pub use laws::lemma_filtered_view_correct;
pub use laws::lemma_filtered_view_reverse;
pub use laws::lemma_mapped_view_correct;
pub use laws::lemma_mapped_view_reverse;
pub use map::MapCtx;
pub use pull::DoubleEndedPull;
pub use pull::ExactSizePull;
pub use pull::FusedPull;
pub use pull::PullIterator;
pub use range::RangeIter;
pub use views::ctx_fn_app;
pub use views::ctx_fn_callable;
pub use views::ctx_fn_det;
pub use views::filter_mapped_view;
pub use views::filtered_view;
pub use views::lemma_filter_drop_first;
pub use views::lemma_filter_drop_last;
pub use views::lemma_filter_empty;
pub use views::lemma_filter_map_drop_first;
pub use views::lemma_filter_map_drop_last;
pub use views::lemma_filter_map_prepend;
pub use views::lemma_filter_mapped_len_bound;
pub use views::map_fn_app;
pub use views::map_fn_callable;
pub use views::map_fn_det;
pub use views::mapped_view;
pub use views::pred_fn_app;
pub use views::pred_fn_callable;
pub use views::pred_fn_det;
