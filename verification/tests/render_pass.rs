use std::cell::Cell;

use libanzen::pvr::context::draw_to_submission;
use libanzen::pvr::defines::{
    PVR_LIST_OP, PVR_LIST_OP_MOD, PVR_LIST_PT, PVR_LIST_TR, PVR_LIST_TR_MOD, SUBMISSION_LIST_NONE,
    SUBMISSION_LIST_OP, SUBMISSION_LIST_OP_MOD, SUBMISSION_LIST_PT, SUBMISSION_LIST_TR,
    SUBMISSION_LIST_TR_MOD, TA_SQ_ADDR,
};
use libanzen::pvr::transfer_protocol::{DataTransferProtocol, SQDataTransferProtocol};
use libanzen::pvr::types::{
    Context, DisplayList, DisplayListResult, DrawList, ListState, PowerVR, RenderPass, Vertex,
};
use libanzen::util::types::{Error, OkResult, ValidResult};

struct CountingProtocol {
    queued: Cell<u32>,
    sent: Cell<u32>,
}

impl DataTransferProtocol for CountingProtocol {
    fn queue(&self) {
        self.queued.set(self.queued.get() + 1);
    }

    fn send(&self) {
        self.sent.set(self.sent.get() + 1);
    }
}

fn context() -> Context<SQDataTransferProtocol> {
    let mut pvr = PowerVR::new();
    match pvr.create_context().0 {
        OkResult::Okay(context) => context,
        OkResult::Error(error) => panic!("context refused: {:?}", error),
    }
}

fn counting_context() -> Context<CountingProtocol> {
    let mut pvr = PowerVR::new();
    let protocol = CountingProtocol { queued: Cell::new(0), sent: Cell::new(0) };
    match pvr.create_context_with(protocol).0 {
        OkResult::Okay(context) => context,
        OkResult::Error(error) => panic!("context refused: {:?}", error),
    }
}

fn pass<P: DataTransferProtocol>(context: &Context<P>) -> RenderPass<'_, P> {
    match context.create_pass() {
        ValidResult::Valid(pass) => pass,
        ValidResult::Invalid(error) => panic!("pass refused: {:?}", error),
    }
}

fn opened(result: DisplayListResult) -> DisplayList {
    match result {
        ValidResult::Valid(list) => list,
        ValidResult::Invalid(error) => panic!("list refused: {:?}", error),
    }
}

const ALL: [DrawList; 5] =
    [PVR_LIST_OP, PVR_LIST_OP_MOD, PVR_LIST_TR, PVR_LIST_TR_MOD, PVR_LIST_PT];

#[test]
fn list_constants_name_the_five_categories() {
    assert_eq!(PVR_LIST_OP, DrawList::Op);
    assert_eq!(PVR_LIST_OP_MOD, DrawList::OpMod);
    assert_eq!(PVR_LIST_TR, DrawList::Tr);
    assert_eq!(PVR_LIST_TR_MOD, DrawList::TrMod);
    assert_eq!(PVR_LIST_PT, DrawList::Pt);
}

#[test]
fn draw_to_submission_gives_one_bit_per_category() {
    assert_eq!(draw_to_submission(PVR_LIST_OP), 0b00001);
    assert_eq!(draw_to_submission(PVR_LIST_OP_MOD), 0b00010);
    assert_eq!(draw_to_submission(PVR_LIST_TR), 0b00100);
    assert_eq!(draw_to_submission(PVR_LIST_TR_MOD), 0b01000);
    assert_eq!(draw_to_submission(PVR_LIST_PT), 0b10000);
    assert_eq!(draw_to_submission(PVR_LIST_OP), SUBMISSION_LIST_OP);
    assert_eq!(draw_to_submission(PVR_LIST_OP_MOD), SUBMISSION_LIST_OP_MOD);
    assert_eq!(draw_to_submission(PVR_LIST_TR), SUBMISSION_LIST_TR);
    assert_eq!(draw_to_submission(PVR_LIST_TR_MOD), SUBMISSION_LIST_TR_MOD);
    assert_eq!(draw_to_submission(PVR_LIST_PT), SUBMISSION_LIST_PT);
}

#[test]
fn store_queue_address() {
    assert_eq!(TA_SQ_ADDR, 0xe000_0000);
}

#[test]
fn new_pass_has_nothing_open_or_submitted() {
    let ctx = context();
    let pass = pass(&ctx);
    assert_eq!(pass.open_lists(), SUBMISSION_LIST_NONE);
    assert_eq!(pass.submitted_lists(), SUBMISSION_LIST_NONE);
    for list in ALL {
        assert_eq!(pass.state(list), ListState::Closed);
    }
}

#[test]
fn open_refuse_submit_refuse() {
    let ctx = context();
    let mut pass = pass(&ctx);

    let list = opened(pass.list(PVR_LIST_OP));
    assert_eq!(list.list(), PVR_LIST_OP);
    assert_eq!(pass.state(PVR_LIST_OP), ListState::Open);

    assert!(matches!(
        pass.list(PVR_LIST_OP),
        ValidResult::Invalid(Error::AlreadyOpenedOrSubmitted)
    ));

    assert!(matches!(list.submit(&mut pass), ValidResult::Valid(())));
    assert_eq!(pass.submitted_lists() & SUBMISSION_LIST_OP, SUBMISSION_LIST_OP);
    assert_eq!(pass.state(PVR_LIST_OP), ListState::Submitted);

    assert!(matches!(
        pass.list(PVR_LIST_OP),
        ValidResult::Invalid(Error::AlreadyOpenedOrSubmitted)
    ));
    assert_eq!(pass.open_lists(), SUBMISSION_LIST_OP);
    assert_eq!(pass.submitted_lists(), SUBMISSION_LIST_OP);
}

#[test]
fn every_category_opens_once() {
    for list in ALL {
        let ctx = context();
        let mut pass = pass(&ctx);
        let handle = opened(pass.list(list));
        assert_eq!(pass.open_lists(), draw_to_submission(list));
        assert_eq!(pass.submitted_lists(), SUBMISSION_LIST_NONE);
        assert!(matches!(
            pass.list(list),
            ValidResult::Invalid(Error::AlreadyOpenedOrSubmitted)
        ));
        assert!(matches!(handle.submit(&mut pass), ValidResult::Valid(())));
        assert_eq!(pass.open_lists(), draw_to_submission(list));
        assert_eq!(pass.submitted_lists(), draw_to_submission(list));
        assert!(matches!(
            pass.list(list),
            ValidResult::Invalid(Error::AlreadyOpenedOrSubmitted)
        ));
        assert_eq!(pass.open_lists(), draw_to_submission(list));
        assert_eq!(pass.submitted_lists(), draw_to_submission(list));
    }
}

#[test]
fn categories_are_independent() {
    let ctx = context();
    let mut pass = pass(&ctx);

    let op = opened(pass.list(PVR_LIST_OP));
    let tr = opened(pass.list(PVR_LIST_TR));
    assert_eq!(pass.open_lists(), 0b00101);
    assert_eq!(pass.state(PVR_LIST_OP_MOD), ListState::Closed);
    assert_eq!(pass.state(PVR_LIST_TR_MOD), ListState::Closed);
    assert_eq!(pass.state(PVR_LIST_PT), ListState::Closed);

    assert!(matches!(tr.submit(&mut pass), ValidResult::Valid(())));
    assert_eq!(pass.state(PVR_LIST_OP), ListState::Open);
    assert_eq!(pass.state(PVR_LIST_TR), ListState::Submitted);
    assert_eq!(pass.submitted_lists(), 0b00100);

    let pt = opened(pass.list(PVR_LIST_PT));
    assert_eq!(pass.open_lists(), 0b10101);
    assert!(matches!(op.submit(&mut pass), ValidResult::Valid(())));
    assert!(matches!(pt.submit(&mut pass), ValidResult::Valid(())));
    assert_eq!(pass.submitted_lists(), 0b10101);
    assert_eq!(pass.open_lists(), 0b10101);
}

#[test]
fn all_five_lists_in_one_pass() {
    let ctx = context();
    let mut pass = pass(&ctx);
    for list in ALL {
        let handle = opened(pass.list(list));
        assert!(matches!(handle.submit(&mut pass), ValidResult::Valid(())));
    }
    assert_eq!(pass.open_lists(), 0b11111);
    assert_eq!(pass.submitted_lists(), 0b11111);
    for list in ALL {
        assert!(matches!(
            pass.list(list),
            ValidResult::Invalid(Error::AlreadyOpenedOrSubmitted)
        ));
    }
    assert!(matches!(pass.submit(), ValidResult::Valid(())));
}

#[test]
fn each_pass_starts_over() {
    let ctx = context();
    let mut first = pass(&ctx);
    let list = opened(first.list(PVR_LIST_PT));
    assert!(matches!(list.submit(&mut first), ValidResult::Valid(())));
    assert!(matches!(first.submit(), ValidResult::Valid(())));

    let mut second = pass(&ctx);
    assert_eq!(second.state(PVR_LIST_PT), ListState::Closed);
    assert!(matches!(second.list(PVR_LIST_PT), ValidResult::Valid(_)));
}

#[test]
fn list_submitted_to_a_pass_that_does_not_hold_it_is_invalid_pass() {
    let ctx = context();
    let mut first = pass(&ctx);
    let mut second = pass(&ctx);

    let list = opened(first.list(PVR_LIST_OP));
    assert!(matches!(list.submit(&mut second), ValidResult::Invalid(Error::InvalidPass)));
    assert_eq!(second.open_lists(), SUBMISSION_LIST_NONE);
    assert_eq!(second.submitted_lists(), SUBMISSION_LIST_NONE);
    assert_eq!(second.state(PVR_LIST_OP), ListState::Closed);
    assert_eq!(first.state(PVR_LIST_OP), ListState::Open);
}

#[test]
fn list_cannot_be_submitted_where_it_is_already_submitted() {
    let ctx = context();
    let mut first = pass(&ctx);
    let mut second = pass(&ctx);

    let own = opened(first.list(PVR_LIST_TR));
    let foreign = opened(second.list(PVR_LIST_TR));
    assert!(matches!(own.submit(&mut first), ValidResult::Valid(())));
    assert!(matches!(foreign.submit(&mut first), ValidResult::Invalid(Error::InvalidPass)));
    assert_eq!(first.open_lists(), SUBMISSION_LIST_TR);
    assert_eq!(first.submitted_lists(), SUBMISSION_LIST_TR);
}

#[test]
fn draw_vertex_queues_on_the_context_protocol() {
    let ctx = counting_context();
    let mut pass = pass(&ctx);
    let list = opened(pass.list(PVR_LIST_OP));
    let vertex = Vertex { x: 1.0f32.to_bits(), y: 2.0f32.to_bits(), z: 0.5f32.to_bits() };

    assert_eq!(ctx.transfer_protocol().queued.get(), 0);
    assert!(matches!(list.draw_vertex(&pass, &vertex), ValidResult::Valid(())));
    assert_eq!(ctx.transfer_protocol().queued.get(), 1);
    assert!(matches!(list.draw_vertex(&pass, &vertex), ValidResult::Valid(())));
    assert!(matches!(list.draw_vertex(&pass, &vertex), ValidResult::Valid(())));
    assert_eq!(ctx.transfer_protocol().queued.get(), 3);
    assert!(matches!(list.submit(&mut pass), ValidResult::Valid(())));
    assert!(matches!(pass.submit(), ValidResult::Valid(())));
    assert!(matches!(ctx.submit(), ValidResult::Valid(())));
    assert_eq!(ctx.transfer_protocol().queued.get(), 3);
    assert_eq!(ctx.transfer_protocol().sent.get(), 0);
    assert!(ctx.is_valid());
}

#[test]
fn draw_vertex_on_a_pass_that_does_not_hold_the_list_is_invalid_pass() {
    let ctx = counting_context();
    let mut first = pass(&ctx);
    let mut second = pass(&ctx);
    let list = opened(first.list(PVR_LIST_OP));
    let vertex = Vertex { x: 0, y: 0, z: 0 };

    assert!(matches!(list.draw_vertex(&second, &vertex), ValidResult::Invalid(Error::InvalidPass)));
    assert_eq!(ctx.transfer_protocol().queued.get(), 0);

    let other = opened(second.list(PVR_LIST_OP));
    assert!(matches!(other.submit(&mut second), ValidResult::Valid(())));
    assert!(matches!(list.draw_vertex(&second, &vertex), ValidResult::Invalid(Error::InvalidPass)));
    assert_eq!(ctx.transfer_protocol().queued.get(), 0);
    assert!(matches!(list.draw_vertex(&first, &vertex), ValidResult::Valid(())));
    assert_eq!(ctx.transfer_protocol().queued.get(), 1);
}

#[test]
fn context_owns_the_protocol_it_was_created_with() {
    let mut pvr = PowerVR::new();
    let protocol = CountingProtocol { queued: Cell::new(7), sent: Cell::new(9) };
    let mut ctx = match pvr.create_context_with(protocol).0 {
        OkResult::Okay(context) => context,
        OkResult::Error(error) => panic!("context refused: {:?}", error),
    };
    assert_eq!(ctx.transfer_protocol().queued.get(), 7);
    assert_eq!(ctx.transfer_protocol().sent.get(), 9);
    pvr.destroy_context(&mut ctx);
    assert_eq!(ctx.transfer_protocol().queued.get(), 7);
    assert_eq!(ctx.transfer_protocol().sent.get(), 9);
}

#[test]
fn vertex_keeps_its_bit_patterns() {
    let vertex = Vertex { x: 1.5f32.to_bits(), y: (-2.0f32).to_bits(), z: 0.0f32.to_bits() };
    assert_eq!(f32::from_bits(vertex.x), 1.5);
    assert_eq!(f32::from_bits(vertex.y), -2.0);
    assert_eq!(f32::from_bits(vertex.z), 0.0);
    let copy = vertex;
    assert_eq!(copy, vertex);
}
