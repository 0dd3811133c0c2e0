//! An HTTP response-transforming middleware core: content-type gating,
//! verified response reconstruction, and a pluggable HTML minification
//! backend called behind stated contracts.

pub mod config;
pub mod headers;
pub mod minify;
pub mod response;

pub use config::Backend;
pub use config::MinifyHtml;
pub use config::MinifyHtmlLayer;
pub use config::MinifyHtmlLayerBuilder;
pub use config::OnepassConfig;
pub use config::StandardConfig;
