//! The order in which the display lists of a render pass are opened and
//! submitted.
//!
//! Every category goes through [`ListState::Closed`], [`ListState::Open`]
//! and [`ListState::Submitted`], in this order and never back.

use vstd::prelude::*;
use crate::pvr::types::{DrawList, ListState};

verus! {

/// What a render pass knows about its display lists.
pub ghost struct PassState {
    /// The categories a list was opened for.
    pub open: Set<DrawList>,
    /// The categories whose list was submitted.
    pub submitted: Set<DrawList>,
}

impl PassState {
    /// A pass in which nothing has been opened or submitted.
    pub open spec fn fresh() -> PassState {
        PassState { open: Set::empty(), submitted: Set::empty() }
    }

    /// How far `list` has come.
    pub open spec fn state(self, list: DrawList) -> ListState {
        if self.submitted.contains(list) {
            ListState::Submitted
        } else if self.open.contains(list) {
            ListState::Open
        } else {
            ListState::Closed
        }
    }

    /// Whether a list of this category may be opened: it was neither opened
    /// nor submitted before.
    pub open spec fn accepts(self, list: DrawList) -> bool {
        !self.open.contains(list) && !self.submitted.contains(list)
    }

    /// The pass once `list` is marked as opened.
    pub open spec fn begin(self, list: DrawList) -> PassState {
        PassState { open: self.open.insert(list), submitted: self.submitted }
    }

    /// The pass once `list` is marked as submitted.
    pub open spec fn finish(self, list: DrawList) -> PassState {
        PassState { open: self.open, submitted: self.submitted.insert(list) }
    }
}

/// How far along a state is: a category only ever moves to a higher rank.
pub open spec fn rank(state: ListState) -> nat {
    match state {
        ListState::Closed => 0,
        ListState::Open => 1,
        ListState::Submitted => 2,
    }
}

/// Something asked of a render pass.
pub ghost enum ListRequest {
    /// Open a display list of the category.
    List(DrawList),
    /// Submit the display list of the category.
    Submit(DrawList),
}

impl PassState {
    /// Whether the request changes the pass: a list is opened only for a
    /// category that is closed, and submitted only for one that is open.
    pub open spec fn honours(self, request: ListRequest) -> bool {
        match request {
            ListRequest::List(list) => self.accepts(list),
            ListRequest::Submit(list) => self.state(list) == ListState::Open,
        }
    }

    /// The pass after one request. A request that is not honoured changes
    /// nothing.
    pub open spec fn step(self, request: ListRequest) -> PassState {
        if self.honours(request) {
            match request {
                ListRequest::List(list) => self.begin(list),
                ListRequest::Submit(list) => self.finish(list),
            }
        } else {
            self
        }
    }

    /// The pass after a sequence of requests.
    pub open spec fn run(self, requests: Seq<ListRequest>) -> PassState
        decreases requests.len(),
    {
        if requests.len() == 0 {
            self
        } else {
            self.run(requests.drop_last()).step(requests.last())
        }
    }

    /// How many of the requests in the sequence are honoured and are the
    /// given one.
    pub open spec fn honoured(self, requests: Seq<ListRequest>, request: ListRequest) -> nat
        decreases requests.len(),
    {
        if requests.len() == 0 {
            0
        } else {
            self.honoured(requests.drop_last(), request) + if requests.last() == request
                && self.run(requests.drop_last()).honours(request) {
                1nat
            } else {
                0nat
            }
        }
    }
}

/// A list may be opened for exactly the categories that are closed.
pub proof fn theorem_accepts_exactly_when_closed(pass: PassState, list: DrawList)
    ensures
        pass.accepts(list) <==> pass.state(list) == ListState::Closed,
{
}

/// One request moves the category it names one state forward, or changes
/// nothing, and leaves every other category where it was.
pub proof fn theorem_one_state_at_a_time(pass: PassState, request: ListRequest, list: DrawList)
    ensures
        pass.honours(request) && (request == ListRequest::List(list) || request
            == ListRequest::Submit(list)) ==> rank(pass.step(request).state(list)) == rank(
            pass.state(list),
        ) + 1,
        !(pass.honours(request) && (request == ListRequest::List(list) || request
            == ListRequest::Submit(list))) ==> pass.step(request).state(list) == pass.state(list),
{
}

/// No category ever moves backwards: whatever is asked of a pass, a category
/// that was open is not closed afterwards, and one that was submitted stays
/// submitted.
pub proof fn theorem_forward_only(pass: PassState, requests: Seq<ListRequest>, list: DrawList)
    ensures
        rank(pass.state(list)) <= rank(pass.run(requests).state(list)),
    decreases requests.len(),
{
    if requests.len() > 0 {
        theorem_forward_only(pass, requests.drop_last(), list);
        theorem_one_state_at_a_time(pass.run(requests.drop_last()), requests.last(), list);
    }
}

/// A category that has been opened or submitted cannot be opened again:
/// whatever is asked of the pass in between, a later request to open it is
/// refused.
pub proof fn theorem_no_second_opening(
    pass: PassState,
    requests: Seq<ListRequest>,
    list: DrawList,
)
    requires
        !pass.accepts(list),
    ensures
        !pass.run(requests).accepts(list),
        !pass.run(requests).honours(ListRequest::List(list)),
{
    theorem_forward_only(pass, requests, list);
}

/// Each category is opened at most once and submitted at most once: over any
/// sequence of requests, one request to open it is honoured if it started out
/// closed and did not stay so, and none otherwise; one request to submit it
/// is honoured if it ended up submitted and did not start out so, and none
/// otherwise.
pub proof fn theorem_each_transition_at_most_once(
    pass: PassState,
    requests: Seq<ListRequest>,
    list: DrawList,
)
    ensures
        pass.honoured(requests, ListRequest::List(list)) == if pass.state(list)
            == ListState::Closed && pass.run(requests).state(list) != ListState::Closed {
            1nat
        } else {
            0nat
        },
        pass.honoured(requests, ListRequest::Submit(list)) == if pass.state(list)
            != ListState::Submitted && pass.run(requests).state(list) == ListState::Submitted {
            1nat
        } else {
            0nat
        },
    decreases requests.len(),
{
    if requests.len() > 0 {
        let before = pass.run(requests.drop_last());
        theorem_each_transition_at_most_once(pass, requests.drop_last(), list);
        theorem_one_state_at_a_time(before, requests.last(), list);
        theorem_forward_only(pass, requests.drop_last(), list);
    }
}

/// In a pass that starts out fresh, a list is submitted only after it was
/// opened: the categories submitted are among those opened.
pub proof fn theorem_submitted_were_opened(requests: Seq<ListRequest>)
    ensures
        PassState::fresh().run(requests).submitted.subset_of(
            PassState::fresh().run(requests).open,
        ),
    decreases requests.len(),
{
    if requests.len() > 0 {
        theorem_submitted_were_opened(requests.drop_last());
    }
}

} // verus!
