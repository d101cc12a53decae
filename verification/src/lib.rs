//! Turns one CBOR-encoded database response into normalized rows, ready for
//! columnar schema inference.
//!
//! The work is done in three steps, each with its own module: `decode` hands
//! the bytes to the CBOR decoder, `navigate` walks the decoded tree to the
//! rows of the first statement and classifies every way in which a response
//! can fail, and `normalize` rewrites each row into plain values, with record
//! identifiers as text and every integer in its narrowest width. `pipeline`
//! puts the three together; `assemble` decides in which order the columnar
//! stages run on the rows and how a failed stage is reported.

pub mod assemble;
pub mod decode;
pub mod error;
pub mod navigate;
pub mod normalize;
pub mod pipeline;
pub mod render;
pub mod text;
pub mod value;
