//! Identity of loadable resources, the conversion contracts that formats and
//! asset kinds implement, and a cache of converted resources that threads share.

pub mod asset;
pub mod cache;
pub mod entries;
pub mod key;
pub mod text;
