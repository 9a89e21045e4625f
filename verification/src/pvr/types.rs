//! The types of the PowerVR interface.

use vstd::prelude::*;
use crate::util::types::{OkResult, ValidResult};

verus! {

// =====================
// ==== Basic Types ====
// =====================
/// The category of a display list. Every render pass can take one list of
/// each category.
#[derive(Clone, Copy, Debug, PartialEq, Eq, Structural)]
pub enum DrawList {
    /// Opaque polygons.
    Op,
    /// Opaque modifier volumes.
    OpMod,
    /// Translucent polygons.
    Tr,
    /// Translucent modifier volumes.
    TrMod,
    /// Punch-through polygons.
    Pt,
}

/// A set of display list categories, one bit for each.
pub type SubmissionList = u8;

/// Encapsulates the response of a PowerVR call that requires a response.
pub type PowerVRResult<T> = OkResult<T>;

/// Encapsulates the response given when creating a PowerVR context
pub type ContextResult<P> = OkResult<Context<P>>;

/// Encapsulates the response of starting a render pass
pub type PassResult<'a, P> = ValidResult<RenderPass<'a, P>>;

/// Encapsulates the response of creating a display list to submit vertices
pub type DisplayListResult = ValidResult<DisplayList>;

/// How far a display list category has come within one render pass.
#[derive(Clone, Copy, Debug, PartialEq, Eq, Structural)]
pub enum ListState {
    /// No list of the category has been opened.
    Closed,
    /// A list of the category has been opened and takes vertices.
    Open,
    /// The list of the category has been submitted.
    Submitted,
}

/// What the caller owes the hardware after asking for a context.
#[derive(Clone, Copy, Debug, PartialEq, Eq, Structural)]
pub enum BringUp {
    /// The tile accelerator has never been set up: set it up now.
    Required,
    /// Nothing to do.
    NotRequired,
}

impl DrawList {
    /// The number the hardware knows the category by.
    pub open spec fn index(self) -> u8 {
        match self {
            DrawList::Op => 0,
            DrawList::OpMod => 1,
            DrawList::Tr => 2,
            DrawList::TrMod => 3,
            DrawList::Pt => 4,
        }
    }

    /// The bit that stands for the category in a [`SubmissionList`].
    pub open spec fn bit(self) -> SubmissionList {
        match self {
            DrawList::Op => 0b00001,
            DrawList::OpMod => 0b00010,
            DrawList::Tr => 0b00100,
            DrawList::TrMod => 0b01000,
            DrawList::Pt => 0b10000,
        }
    }
}

// =================
// ==== Structs ====
// =================
/// Handles initializing, creating, and destroying the context for the PowerVR.
#[derive(Debug)]
pub struct PowerVR {
    /// Determines whether the PowerVR device needs to be initialized on context creation.
    pub(crate) initialized: bool,
    /// Determines whether a new [Context] can be created when [PowerVR::create_context()] is
    /// called.
    pub(crate) context_taken: bool,
}

/// Responsible for communicating with the PowerVR chip while also persisting the current context of
/// the device. `P` is the transfer protocol that the context owns.
#[derive(Debug)]
pub struct Context<P> {
    pub(crate) valid: bool,
    pub(crate) transfer_protocol: P,
}

/// One phase of a frame: up to one display list of each category.
#[derive(Debug)]
pub struct RenderPass<'a, P> {
    pub(crate) context: &'a Context<P>,
    pub(crate) submitted_lists: SubmissionList,
    pub(crate) open_lists: SubmissionList,
}

/// The handle through which vertices stream into one category of one pass.
#[derive(Debug)]
pub struct DisplayList {
    pub(crate) list: DrawList,
}

/// A position in space. Each coordinate is held as the bit pattern of the
/// single-precision number that the accelerator reads.
#[derive(Clone, Copy, Debug, PartialEq, Eq, Structural)]
pub struct Vertex {
    pub x: u32,
    pub y: u32,
    pub z: u32,
}

} // verus!
