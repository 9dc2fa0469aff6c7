//! Building blocks of a small HTTP edge service: letterboxed thumbnails,
//! chained field extraction from fetched documents, a time-boxed response
//! cache and the cache-control policy stamped on every response.
pub mod raster;
pub mod fit;
pub mod text;
pub mod extract;
pub mod response;
pub mod pipeline;
pub mod cache;
