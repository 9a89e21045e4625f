//! The operations of the PowerVR interface: acquiring and releasing the
//! context, and drawing through render passes and display lists.

use vstd::prelude::*;
use crate::pvr::acquisition::ManagerState;
use crate::pvr::bitset::{lemma_bit_is_shifted_one, lemma_lists_in_insert, lemma_lists_in_none, lists_in};
use crate::pvr::defines::{
    SUBMISSION_LIST_NONE,
    SUBMISSION_LIST_OP,
    SUBMISSION_LIST_OP_MOD,
    SUBMISSION_LIST_PT,
    SUBMISSION_LIST_TR,
    SUBMISSION_LIST_TR_MOD,
};
use crate::pvr::submission::PassState;
use crate::pvr::transfer_protocol::{DataTransferProtocol, SQDataTransferProtocol};
use crate::pvr::types::{
    BringUp,
    Context,
    ContextResult,
    DisplayList,
    DisplayListResult,
    DrawList,
    ListState,
    PassResult,
    PowerVR,
    RenderPass,
    SubmissionList,
    Vertex,
};
use crate::util::types::{Error, ValidResult};

verus! {

/// Converts a [DrawList] value into a [SubmissionList] value.
pub fn draw_to_submission(draw_list: DrawList) -> (bits: SubmissionList)
    ensures
        bits == draw_list.bit(),
        bits == 1u8 << draw_list.index(),
        lists_in(bits) == Set::<DrawList>::empty().insert(draw_list),
{
    proof {
        lemma_bit_is_shifted_one(draw_list);
        lemma_lists_in_none();
        lemma_lists_in_insert(0, draw_list);
        assert(0u8 | draw_list.bit() == draw_list.bit()) by (bit_vector);
    }
    match draw_list {
        DrawList::Op => SUBMISSION_LIST_OP,
        DrawList::OpMod => SUBMISSION_LIST_OP_MOD,
        DrawList::Tr => SUBMISSION_LIST_TR,
        DrawList::TrMod => SUBMISSION_LIST_TR_MOD,
        DrawList::Pt => SUBMISSION_LIST_PT,
    }
}

impl View for PowerVR {
    type V = ManagerState;

    closed spec fn view(&self) -> ManagerState {
        ManagerState { initialized: self.initialized, held: self.context_taken }
    }
}

impl<P> Context<P> {
    /// Whether the context still stands for the accelerator.
    pub closed spec fn valid(&self) -> bool {
        self.valid
    }

    /// The transfer protocol the context owns.
    pub closed spec fn protocol(&self) -> P {
        self.transfer_protocol
    }
}

impl<'a, P> View for RenderPass<'a, P> {
    type V = PassState;

    closed spec fn view(&self) -> PassState {
        PassState { open: lists_in(self.open_lists), submitted: lists_in(self.submitted_lists) }
    }
}

impl<'a, P> RenderPass<'a, P> {
    /// The context the pass was created on.
    pub closed spec fn context(&self) -> Context<P> {
        *self.context
    }
}

impl DisplayList {
    /// The category the list was opened for.
    pub closed spec fn category(&self) -> DrawList {
        self.list
    }
}

/// What an operation on a context answers: it goes ahead on a valid context
/// and is turned down on any other.
pub open spec fn context_answer(valid: bool) -> ValidResult<()> {
    if valid {
        ValidResult::Valid(())
    } else {
        ValidResult::Invalid(Error::InvalidContext)
    }
}

/// What drawing through a display list of category `draw_list` answers on a
/// pass in the given state whose context has the given validity: it is turned
/// down if the context is not valid, or if the pass does not hold the list
/// open.
pub open spec fn drawing_answer(valid: bool, pass: PassState, draw_list: DrawList) -> ValidResult<
    (),
> {
    if !valid {
        ValidResult::Invalid(Error::InvalidContext)
    } else if pass.state(draw_list) != ListState::Open {
        ValidResult::Invalid(Error::InvalidPass)
    } else {
        ValidResult::Valid(())
    }
}

impl PowerVR {
    /// A manager that has set nothing up and handed nothing out.
    pub fn new() -> (manager: PowerVR)
        ensures
            manager@ == ManagerState::fresh(),
    {
        PowerVR { initialized: false, context_taken: false }
    }

    /// Whether the tile accelerator has been set up.
    pub fn is_initialized(&self) -> (initialized: bool)
        ensures
            initialized == self@.initialized,
    {
        self.initialized
    }

    /// Whether a context is out.
    pub fn is_context_taken(&self) -> (taken: bool)
        ensures
            taken == self@.held,
    {
        self.context_taken
    }

    /// Creates and returns a new [Context] if one does not already exist.
    ///
    /// # Returns
    /// A new [Context] that transfers through the store queues if none is out, otherwise
    /// [`Error::AlreadyInUse`]; and whether the caller has to set the tile accelerator up,
    /// which is so for the first context ever granted.
    pub fn create_context(&mut self) -> (granted: (
        ContextResult<SQDataTransferProtocol>,
        BringUp,
    ))
        ensures
            final(self)@ == old(self)@.acquire(),
            granted.1 == old(self)@.bring_up(),
            old(self)@.grants() ==> (granted.0 matches ContextResult::Okay(context)
                && context.valid() && context.protocol() == SQDataTransferProtocol {  }),
            !old(self)@.grants() ==> granted.0 == ContextResult::<SQDataTransferProtocol>::Error(
                Error::AlreadyInUse,
            ),
    {
        self.create_context_with(SQDataTransferProtocol {  })
    }

    /// Creates and returns a new [Context] that transfers through `transfer_protocol`, if no
    /// context exists already.
    ///
    /// # Returns
    /// As [`PowerVR::create_context`].
    pub fn create_context_with<P: DataTransferProtocol>(&mut self, transfer_protocol: P) -> (granted:
        (ContextResult<P>, BringUp))
        ensures
            final(self)@ == old(self)@.acquire(),
            granted.1 == old(self)@.bring_up(),
            old(self)@.grants() ==> (granted.0 matches ContextResult::Okay(context)
                && context.valid() && context.protocol() == transfer_protocol),
            !old(self)@.grants() ==> granted.0 == ContextResult::<P>::Error(Error::AlreadyInUse),
    {
        if self.context_taken {
            return (ContextResult::Error(Error::AlreadyInUse), BringUp::NotRequired);
        }
        let bring_up = if self.initialized {
            BringUp::NotRequired
        } else {
            BringUp::Required
        };
        self.initialized = true;
        self.context_taken = true;
        (ContextResult::Okay(Context { valid: true, transfer_protocol }), bring_up)
    }

    /// Destroys the current [Context]. This invalidates the parameter passed into it and
    /// allows for a new context to be created using [PowerVR::create_context()], whether
    /// or not the context was still valid.
    ///
    /// # Arguments
    /// * `ctx` - The current [Context]
    pub fn destroy_context<P: DataTransferProtocol>(&mut self, ctx: &mut Context<P>)
        ensures
            final(self)@ == old(self)@.release(),
            !final(ctx).valid(),
            final(ctx).protocol() == old(ctx).protocol(),
    {
        self.context_taken = false;
        ctx.valid = false;
    }
}

impl<P: DataTransferProtocol> Context<P> {
    /// Whether the context still stands for the accelerator.
    pub fn is_valid(&self) -> (valid: bool)
        ensures
            valid == self.valid(),
    {
        self.valid
    }

    /// The transfer protocol the context owns.
    pub fn transfer_protocol(&self) -> (transfer_protocol: &P)
        ensures
            *transfer_protocol == self.protocol(),
    {
        &self.transfer_protocol
    }

    /// Waits until the accelerator can take a new frame.
    ///
    /// # Returns
    /// Whether the wait may go ahead: [`Error::InvalidContext`] once the context was destroyed.
    pub fn wait_ready(&self) -> (result: ValidResult<()>)
        ensures
            result == context_answer(self.valid()),
    {
        if !self.valid {
            return ValidResult::Invalid(Error::InvalidContext);
        }
        ValidResult::Valid(())
    }

    /// Begins a frame.
    ///
    /// # Returns
    /// Whether the frame may begin: [`Error::InvalidContext`] once the context was destroyed.
    pub fn start_frame(&self) -> (result: ValidResult<()>)
        ensures
            result == context_answer(self.valid()),
    {
        if !self.valid {
            return ValidResult::Invalid(Error::InvalidContext);
        }
        ValidResult::Valid(())
    }

    /// Starts a render pass on this context.
    ///
    /// # Returns
    /// A [RenderPass] in which no list has been opened or submitted, or
    /// [`Error::InvalidContext`] once the context was destroyed.
    pub fn create_pass(&self) -> (result: PassResult<'_, P>)
        ensures
            self.valid() ==> (result matches PassResult::Valid(pass) && pass@ == PassState::fresh()
                && pass.context() == *self),
            !self.valid() ==> result == PassResult::<P>::Invalid(Error::InvalidContext),
    {
        if !self.valid {
            return PassResult::Invalid(Error::InvalidContext);
        }
        proof {
            lemma_lists_in_none();
        }
        PassResult::Valid(
            RenderPass {
                context: self,
                submitted_lists: SUBMISSION_LIST_NONE,
                open_lists: SUBMISSION_LIST_NONE,
            },
        )
    }

    /// Ends the frame and hands it to the accelerator.
    ///
    /// # Returns
    /// Whether the frame may be handed over: [`Error::InvalidContext`] once the context was
    /// destroyed.
    pub fn submit(&self) -> (result: ValidResult<()>)
        ensures
            result == context_answer(self.valid()),
    {
        if !self.valid {
            return ValidResult::Invalid(Error::InvalidContext);
        }
        ValidResult::Valid(())
    }
}

impl<'a, P: DataTransferProtocol> RenderPass<'a, P> {
    /// The categories that were opened in this pass, as bits.
    pub fn open_lists(&self) -> (bits: SubmissionList)
        ensures
            lists_in(bits) == self@.open,
    {
        self.open_lists
    }

    /// The categories that were submitted in this pass, as bits.
    pub fn submitted_lists(&self) -> (bits: SubmissionList)
        ensures
            lists_in(bits) == self@.submitted,
    {
        self.submitted_lists
    }

    /// How far the given category has come in this pass.
    pub fn state(&self, draw_list: DrawList) -> (state: ListState)
        ensures
            state == self@.state(draw_list),
    {
        let bit = draw_to_submission(draw_list);
        if self.submitted_lists & bit > 0 {
            ListState::Submitted
        } else if self.open_lists & bit > 0 {
            ListState::Open
        } else {
            ListState::Closed
        }
    }

    /// Opens the display list of the given category.
    ///
    /// # Returns
    /// The [DisplayList], or [`Error::AlreadyOpenedOrSubmitted`] when the category was
    /// opened or submitted in this pass before.
    pub fn list(&mut self, draw_list: DrawList) -> (result: DisplayListResult)
        ensures
            final(self).context() == old(self).context(),
            old(self)@.accepts(draw_list) ==> final(self)@ == old(self)@.begin(draw_list),
            old(self)@.accepts(draw_list) ==> (result matches DisplayListResult::Valid(list)
                && list.category() == draw_list),
            !old(self)@.accepts(draw_list) ==> (final(self)@ == old(self)@ && result
                == DisplayListResult::Invalid(Error::AlreadyOpenedOrSubmitted)),
    {
        let bit = draw_to_submission(draw_list);
        if self.open_lists & bit > 0 || self.submitted_lists & bit > 0 {
            return DisplayListResult::Invalid(Error::AlreadyOpenedOrSubmitted);
        }
        proof {
            lemma_lists_in_insert(self.open_lists, draw_list);
        }
        self.open_lists |= bit;
        DisplayListResult::Valid(DisplayList { list: draw_list })
    }

    /// Marks the display list of the given category as submitted.
    pub(crate) fn close(&mut self, draw_list: DrawList)
        ensures
            final(self).context() == old(self).context(),
            final(self)@ == old(self)@.finish(draw_list),
    {
        let bit = draw_to_submission(draw_list);
        proof {
            lemma_lists_in_insert(self.submitted_lists, draw_list);
        }
        self.submitted_lists |= bit;
    }

    /// Finalizes the pass. The pass is used up.
    ///
    /// # Returns
    /// Whether the pass may be handed to the accelerator: [`Error::InvalidContext`] if its
    /// context is not valid.
    pub fn submit(self) -> (result: ValidResult<()>)
        ensures
            result == context_answer(self.context().valid()),
    {
        if !self.context.valid {
            return ValidResult::Invalid(Error::InvalidContext);
        }
        ValidResult::Valid(())
    }
}

impl DisplayList {
    /// The category the list was opened for.
    pub fn list(&self) -> (draw_list: DrawList)
        ensures
            draw_list == self.category(),
    {
        self.list
    }

    /// Queues a vertex on the transfer protocol of the pass's context.
    ///
    /// # Arguments
    /// * `pass` - The pass the list was opened in.
    /// * `vertex` - The vertex to draw.
    ///
    /// # Returns
    /// Whether the vertex was queued. Nothing is queued, and
    /// [`Error::InvalidContext`] returned, if the context of the pass is not valid; nothing
    /// is queued, and [`Error::InvalidPass`] returned, if the pass does not hold this list
    /// open.
    #[allow(unused_variables)]
    pub fn draw_vertex<P: DataTransferProtocol>(
        &self,
        pass: &RenderPass<'_, P>,
        vertex: &Vertex,
    ) -> (result: ValidResult<()>)
        ensures
            result == drawing_answer(pass.context().valid(), pass@, self.category()),
    {
        if !pass.context.valid {
            return ValidResult::Invalid(Error::InvalidContext);
        }
        match pass.state(self.list) {
            ListState::Open => {
                pass.context.transfer_protocol.queue();
                ValidResult::Valid(())
            },
            _ => ValidResult::Invalid(Error::InvalidPass),
        }
    }

    /// Submits the list to the pass it was opened in. The list is used up.
    ///
    /// # Arguments
    /// * `pass` - The pass the list was opened in.
    ///
    /// # Returns
    /// [`Error::InvalidPass`] if the pass does not hold this list open; the pass is then
    /// left as it was.
    pub fn submit<P: DataTransferProtocol>(self, pass: &mut RenderPass<'_, P>) -> (result:
        ValidResult<()>)
        ensures
            final(pass).context() == old(pass).context(),
            old(pass)@.state(self.category()) == ListState::Open ==> (final(pass)@ == old(
                pass,
            )@.finish(self.category()) && result == ValidResult::Valid(())),
            old(pass)@.state(self.category()) != ListState::Open ==> (final(pass)@ == old(pass)@
                && result == ValidResult::<()>::Invalid(Error::InvalidPass)),
    {
        match pass.state(self.list) {
            ListState::Open => {
                pass.close(self.list);
                ValidResult::Valid(())
            },
            _ => ValidResult::Invalid(Error::InvalidPass),
        }
    }
}

} // verus!
