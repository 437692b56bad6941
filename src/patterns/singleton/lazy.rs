//! Values made on first use.
pub mod double_check_impl;
pub mod static_impl;
