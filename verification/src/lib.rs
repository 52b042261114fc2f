//! Client-side logic for querying OpenDigger repository metrics.
//!
//! The crate holds everything that can be decided without touching the
//! network or the file system: the metric catalog, URL construction, month
//! filtering of fetched documents, order-preserving collection of concurrent
//! fetch results, table layout and download file naming.

pub mod dispatch;
pub mod document;
pub mod download;
pub mod errors;
pub mod metric;
pub mod table;
pub mod text;
pub mod url_builder;

pub use errors::CliError;
pub use metric::Metric;
pub use url_builder::UrlBuilder;
