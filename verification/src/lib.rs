//! Inspection of a node's self-described runtime metadata: decoding the
//! version-tagged blob, finding a module by name, and rendering the result.
//!
//! The stages run strictly forward and none changes what an earlier one made:
//!
//! - [`blob`] reads the hexadecimal text of a blob into bytes;
//! - [`decoder`] checks the magic prefix, reads the version discriminant and
//!   has the module list decoded by the layout that the discriminant selects;
//! - [`locator`] finds the first module of a given name;
//! - [`formatter`] renders a selection in an output style;
//! - [`pipeline`] puts the stages together.
//!
//! The outside crates are called in three places, each behind a function
//! whose contract is believed rather than proved: [`blob`] has `hex` decode
//! the hexadecimal text, [`scale`] hands a payload to the SCALE decoders of
//! `frame-metadata`, and [`json`] has a decoded value printed by `serde_json`.
//! What `hex` returns is stated in full.  What the other two return is named
//! by specification functions without a body, so that every contract above
//! them is exact in terms of those names.

pub mod blob;
pub mod decoder;
pub mod formatter;
pub mod json;
pub mod locator;
pub mod metadata;
pub mod pipeline;
pub mod scale;
pub mod text;
