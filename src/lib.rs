//! Decoding of Portable Executable images from an in-memory byte source.
pub mod stream;
pub mod byteparse;
pub mod pe;
pub mod text;
pub mod image;
pub mod model;
pub mod parser;
mod ordmap;
