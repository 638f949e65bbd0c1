//! Deep-link association checks for Apple Universal Links and Android App Links.
//!
//! The library decides whether a URL is claimed by an app: Android's
//! intent-filter and path-pattern matching, Apple's association-file globs,
//! and the diagnostic problem lists built from fetched documents.

pub mod text;
pub mod pattern;
pub mod url;
pub mod apk;
pub mod manifest;
pub mod glob;
pub mod report;
pub mod aasa;
pub mod assetlinks;
pub mod entitlements;
