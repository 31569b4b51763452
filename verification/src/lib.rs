//! Records whose one-of-several attribute is written as a child element named
//! after the active variant, read from and written to the children of an XML
//! element.
//!
//! A numeric payload is kept as the bit pattern of a 32-bit IEEE 754 number.
//! Turning decimal text into such a number and back is left to the caller, who
//! hands in a reader and a renderer; everything else is decided here.
pub mod text;
pub mod error;
pub mod node;
pub mod registry;
pub mod number;
pub mod flattened;
pub mod currency;
pub mod control;
pub mod sale;
pub mod record;
pub mod laws;
