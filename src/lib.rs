//! Typed values of the Vulkan binding layer: packed API versions, handles,
//! flag sets, structure headers with their extension chains, and the table of
//! lazily resolved command slots.

#![allow(non_snake_case)]
#![allow(non_camel_case_types)]

pub mod types;
pub mod chain;
pub mod flags;
pub mod handle;
pub mod loader;
pub mod structures;
pub mod text;
pub mod version;
