//! Persistent collections.

pub mod lookup_set;

pub use self::lookup_set::LookupSet;
