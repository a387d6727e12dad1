//! Media CDN core: stores, file records, image resizing, the reaper that
//! purges soft-deleted files, and embed resolution for arbitrary URLs.

pub mod errors;
pub mod stores;
pub mod files;
pub mod text;
pub mod upload;
pub mod reaper;
pub mod storage;
pub mod metadata;
pub mod providers;
pub mod embed;
pub mod serve;
pub mod twitch;
