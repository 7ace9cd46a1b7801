//! A typed, read-only view over records of a declarative description language:
//! classes, definitions, typed fields and inheritance.
//!
//! A [`record::Record`] holds the fields of one definition as plain values. Each
//! field's value is an [`init::TypedInit`], a closed set of typed variants, and
//! narrows to a host type through a conversion that reports a mismatch as an
//! [`error::Error`] carrying the variant found, the type asked for, and the
//! place in the source text where the field was written.

pub mod error;
pub mod init;
pub mod record;
