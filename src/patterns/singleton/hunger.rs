//! Values made eagerly.
pub mod const_impl;
pub mod enum_impl;
pub mod static_impl;
