//! A four-lane boolean mask.
//!
//! A mask carries four independent truth values, one per lane of a
//! four-element numeric vector. Each lane is stored as a 32-bit word that is
//! either all zeros (false) or all ones (true). Two storage layouts are
//! offered, four separate words and one 128-bit register, and both are proved
//! to present the same canonical array of four words.

pub mod convert;
pub mod hashing;
pub mod lanes;
pub mod laws;
pub mod mask;
pub mod order;
pub mod scalar;
pub mod text;
pub mod vec4;
pub mod vector;
