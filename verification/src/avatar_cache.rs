//! The avatar cache, under the path the single-command bot uses.
pub use crate::cache::AvatarCache;
