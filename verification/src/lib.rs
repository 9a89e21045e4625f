//! # libanzen
//!
//! A hardware abstraction layer for the Sega Dreamcast whose decision logic is
//! machine-checked. The crate holds the rules of the layer — who may hold the
//! PowerVR accelerator, in which order display lists may be opened and
//! submitted, which disc reads may be issued at all — and proves them with
//! Verus. It performs no hardware access itself: every function here maps
//! plain values to plain values, and the caller carries out the register
//! writes and drive commands that the results call for.
//!
//! ## Modules
//! * `util` - result types shared by the whole crate and memory addresses
//! * `cdfs` - requests to and answers from the GD-ROM drive
//! * `pvr` - the PowerVR context, render passes and display lists

pub mod cdfs;
pub mod pvr;
pub mod util;
