//! Records whose empty fields are left out of their JSON text.
//!
//! A field is left out when it holds no value or holds its type's default
//! value; reading the text back gives "no value" for every field left out.

pub mod omission;
pub mod record;
pub mod json;
pub mod laws;
