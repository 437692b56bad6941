//! Singleton: values meant to exist once, made eagerly or on first use.
pub mod hunger;
pub mod lazy;
