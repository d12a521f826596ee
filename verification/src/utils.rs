//! Building blocks shared by the features.

pub(crate) mod clock;
pub mod event_publisher;
pub mod text;
