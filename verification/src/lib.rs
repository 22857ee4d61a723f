//! A GPU ray-tracing renderer core: acceleration-structure construction,
//! buffer and memory management, and command submission, modelled over a
//! host-side device so that every rule of the build pipeline is verified.
//!
//! Native handles, device addresses and memory blocks are plain values; the
//! device registry hands them out and the submission log records every batch
//! of commands, so contracts can state exactly which device work a build
//! performs and which it must not.
#![allow(unused_imports)]

pub mod accel;
pub mod address;
pub mod buffer;
pub mod builder;
pub mod commands;
pub mod descriptor;
pub mod device;
pub mod error;
pub mod flags;
pub mod image;
pub mod memory;
pub mod pipeline;
pub mod registry;
pub mod resource;
pub mod shader;
pub mod vertex;
pub mod vertex_layout;

use vstd::prelude::*;

verus! {

} // verus!
