//! Fixed values of the PowerVR interface.

use vstd::prelude::*;
use crate::pvr::types::{DrawList, SubmissionList};
use crate::util::MemoryAddress;

verus! {

/// Where the store queues reach the tile accelerator.
pub const TA_SQ_ADDR: MemoryAddress = 0xe0000000 | (0x10000000 & 0x03ffffe0);

pub const PVR_LIST_OP: DrawList = DrawList::Op;

pub const PVR_LIST_OP_MOD: DrawList = DrawList::OpMod;

pub const PVR_LIST_TR: DrawList = DrawList::Tr;

pub const PVR_LIST_TR_MOD: DrawList = DrawList::TrMod;

pub const PVR_LIST_PT: DrawList = DrawList::Pt;

pub const SUBMISSION_LIST_NONE: SubmissionList = 0b00000;

pub const SUBMISSION_LIST_OP: SubmissionList = 0b00001;

pub const SUBMISSION_LIST_OP_MOD: SubmissionList = 0b00010;

pub const SUBMISSION_LIST_TR: SubmissionList = 0b00100;

pub const SUBMISSION_LIST_TR_MOD: SubmissionList = 0b01000;

pub const SUBMISSION_LIST_PT: SubmissionList = 0b10000;

} // verus!
