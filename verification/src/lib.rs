//! Static-file serving decisions with cache-header composition.
//!
//! The library decides what a static-file mount should do with a request —
//! serve a file, redirect to a normalized directory path, or hand the request
//! on — and what `Cache-Control` and `Expires` header values to attach to the
//! response. Every decision is a pure, verified function; the surrounding HTTP
//! framework and the filesystem probes stay outside and feed in plain values.

pub mod cache;
pub mod digits;
pub mod resolve;

pub use cache::CCOptions;
pub use cache::CCOptionsBuilder;
pub use cache::CacheHeaders;
pub use cache::SpecCacheOpts;
pub use resolve::ConfigError;
pub use resolve::MountConfig;
pub use resolve::Policy;
pub use resolve::ResolvedTarget;
