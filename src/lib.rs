//! Converts HTML pages into one PDF through an external renderer and prepares
//! the upload of the result to object storage.
//!
//! The library holds the decisions: the renderer's argument list, where the
//! renderer is found, how its exit is reported, which storage region is used
//! and what is uploaded. Running the renderer, temporary files and the storage
//! call belong to the program around it.
pub mod request;
pub mod error;
pub mod outside;
pub mod args;
pub mod locate;
pub mod render;
pub mod upload;
