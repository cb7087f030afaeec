//! The interfaces that the site's records share.

pub use crate::attend::Attendable;
