//! Upload-and-merge pipeline for ordered screenshot images.
//!
//! The client side keeps an ordered, user-editable list of decoded images and
//! turns it into a multipart merge request; the server side stages the
//! uploaded parts in a per-request directory, configures the composition
//! engine and always tears the directory down before answering.
pub mod button;
pub mod compose;
pub mod error;
pub mod image;
pub mod merge_form;
pub mod preview;
pub mod request;
pub mod respond;
pub mod route;
pub mod selector;
pub mod sorter;
pub mod staging;
pub mod text;
