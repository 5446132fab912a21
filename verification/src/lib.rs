//! Materializes a remote media asset on local disk from a metadata record.
//!
//! The verified core decides everything about a download without performing
//! it: which URL variant to fetch, the corrected file extension, the
//! destination path bucketed by content rating, and the step-by-step
//! progression of the transfer (skip when the file already exists, distinct
//! error kinds for filesystem and transfer failures). An unverified shell
//! performs the network and filesystem actions the core asks for.

pub mod machine;
pub mod post;
pub mod text;
