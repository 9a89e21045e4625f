//! # PowerVR
//!
//! This module provides an interface to the PowerVR found within the Holly chip inside of the
//! Dreamcast. It decides who holds the accelerator and what may be drawn when; the caller
//! carries the decisions out on the hardware.
//!
//! ## Usage
//!
//! ```text
//! let mut pvr = PowerVR::new();
//!
//! if let (ContextResult::Okay(mut ctx), bring_up) = pvr.create_context() {
//!     // bring the tile accelerator up when `bring_up` asks for it
//!
//!     ctx.wait_ready();
//!     ctx.start_frame();
//!
//!     if let PassResult::Valid(mut pass1) = ctx.create_pass() {
//!         // Can only be called for PVR_LIST_OP once per pass
//!         if let DisplayListResult::Valid(op_list) = pass1.list(PVR_LIST_OP) {
//!             // Draw all vertices in OP list
//!             op_list.submit(&mut pass1);
//!         }
//!
//!         if let DisplayListResult::Valid(tr_list) = pass1.list(PVR_LIST_TR) {
//!             // Draw all vertices in TR list
//!             tr_list.submit(&mut pass1);
//!         }
//!         pass1.submit();
//!     }
//!
//!     ctx.submit();
//!     pvr.destroy_context(&mut ctx);
//! }
//! ```

pub mod acquisition;
pub mod bitset;
pub mod context;
pub mod defines;
pub mod submission;
pub mod transfer_protocol;
pub mod types;
