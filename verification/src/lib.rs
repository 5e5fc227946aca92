//! Encoding of ICC color profiles as PDF stream objects.
//!
//! An [`icc_profile::IccProfile`] holds the raw profile bytes, the declared
//! color-space type, and two flags that select optional dictionary entries.
//! [`icc_profile::IccProfile::into_obj`] turns it into a single `lopdf`
//! stream object whose dictionary and body are pinned down, entry by entry,
//! by the contracts in [`icc_profile`].

pub mod pdf_object;
pub mod icc_profile;

pub use icc_profile::IccProfile;
pub use icc_profile::IccProfileType;
