//! Records as positional sequences, and numeric fields read from numbers or
//! from their text.
//!
//! A record type is given by a [`syntax::DeriveInput`]. From it,
//! [`derive_tuple`] makes an encoder and a strict decoder of arrays,
//! [`derive_lenient`] a decoder of objects that reads `123` and `"123"`
//! alike, and [`derive_tuple_lenient`] both at once. Each field is
//! classified when the decoder is made ([`analysis`]); the decoders
//! ([`lenient`]) work on the host format's tokens ([`token`]) and hand out
//! the fields' values ([`value`]). What holds of every decoder and input is
//! stated in [`laws`].
//!
//! The library does no floating-point arithmetic. A floating-point number
//! is held by its decimal text ([`token::Token::F64`],
//! [`value::Value::Float`]): a decoder hands out the text that the field
//! type's parser is to read, and whether the text writes a number is for
//! that parser to say.

pub mod analysis;
pub mod de;
pub mod derive;
pub mod deserialize;
pub mod error;
pub mod internal;
pub mod laws;
pub mod lenient;
pub mod plan;
pub mod scalar;
pub mod serialize;
pub mod syntax;
pub mod text;
pub mod token;
pub mod value;

pub use crate::de::{lenient, lenient_option};
pub use crate::derive::{derive_lenient, derive_tuple, derive_tuple_lenient};
