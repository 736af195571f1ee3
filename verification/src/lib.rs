//! Core of a blog-post submission service: multipart field extraction rules,
//! input validation, the image re-encoding trust boundary, avatar download
//! checks, asset bookkeeping with scoped cleanup, and the submission
//! coordinator's state machine. Network, disk and database side effects stay
//! with the embedding application; this crate decides, and proves, what each
//! step must do with their outcomes.

pub mod assets;
pub mod avatar;
pub mod domain;
pub mod errors;
pub mod image_guard;
pub mod config;
pub mod extract;
pub mod pipeline;
pub mod strutil;
pub mod validate;
