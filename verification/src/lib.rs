//! Splitting one paged document into several: each request names an inclusive
//! range of pages and the file that receives them.

pub mod batch;
pub mod document;
pub mod error;
pub mod form;
pub mod pages;
pub mod path;
pub mod request;
pub mod split;
pub mod tree;

pub use batch::BatchState;
pub use error::ErrMessages;
pub use form::SplitParams;
pub use path::get_root;
pub use request::{convert_splits, Split, SplitUnit};
pub use split::{OutputFile, SourceFile, Step, PDF};
