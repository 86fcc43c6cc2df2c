//! Dataset synchronisation for the archv3 desktop client: the descriptor model,
//! its normalisation into summaries, the per-pack response rules, the cache
//! freshness rule and the orchestration of one synchronisation run, plus the
//! file-browser helpers that classify names and page through folders.

pub mod datasets;
pub mod pack;
pub mod cache;
pub mod sync;
pub mod text;
pub mod files;
