//! Who holds the accelerator.
//!
//! The accelerator is a single piece of hardware, so at any time at most one
//! context may stand for it. [`ManagerState`] is what the context manager
//! knows; [`World`] adds the contexts it has handed out, so that whole
//! histories of requests can be reasoned about.

use vstd::prelude::*;
use crate::pvr::types::BringUp;

verus! {

/// What the context manager knows about the accelerator.
pub ghost struct ManagerState {
    /// The tile accelerator has been set up.
    pub initialized: bool,
    /// A context is out and has not been released.
    pub held: bool,
}

impl ManagerState {
    /// The manager before anything was asked of it.
    pub open spec fn fresh() -> ManagerState {
        ManagerState { initialized: false, held: false }
    }

    /// Whether a request for a context is granted.
    pub open spec fn grants(self) -> bool {
        !self.held
    }

    /// The manager after a request for a context. A request that is not
    /// granted changes nothing.
    pub open spec fn acquire(self) -> ManagerState {
        if self.grants() {
            ManagerState { initialized: true, held: true }
        } else {
            self
        }
    }

    /// What a request for a context asks the caller to do to the hardware:
    /// to set the accelerator up, if the request is granted and that was
    /// never done before.
    pub open spec fn bring_up(self) -> BringUp {
        if self.grants() && !self.initialized {
            BringUp::Required
        } else {
            BringUp::NotRequired
        }
    }

    /// The manager after a context was released.
    pub open spec fn release(self) -> ManagerState {
        ManagerState { initialized: self.initialized, held: false }
    }
}

/// A request made of the context manager.
pub ghost enum Request {
    /// Ask for a context.
    Create,
    /// Destroy the context that was granted as the n-th, counted from zero.
    Destroy(int),
}

/// The number of contexts in `contexts` that are valid.
pub open spec fn valid_count(contexts: Seq<bool>) -> nat
    decreases contexts.len(),
{
    if contexts.len() == 0 {
        0
    } else {
        valid_count(contexts.drop_last()) + if contexts.last() {
            1nat
        } else {
            0nat
        }
    }
}

/// The context manager together with every context it has granted.
pub ghost struct World {
    pub manager: ManagerState,
    /// For each context granted so far, in order, whether it is valid.
    pub contexts: Seq<bool>,
    /// How often the caller was asked to set the accelerator up.
    pub bring_ups: nat,
}

impl World {
    /// The world at start-up: a fresh manager and no context.
    pub open spec fn boot() -> World {
        World { manager: ManagerState::fresh(), contexts: Seq::empty(), bring_ups: 0 }
    }

    /// Whether `request` names a context that was granted.
    pub open spec fn knows(self, request: Request) -> bool {
        request matches Request::Destroy(n) ==> 0 <= n < self.contexts.len()
    }

    /// The world after one request. A request to destroy a context that was
    /// never granted changes nothing.
    pub open spec fn step(self, request: Request) -> World {
        match request {
            Request::Create => if self.manager.grants() {
                World {
                    manager: self.manager.acquire(),
                    contexts: self.contexts.push(true),
                    bring_ups: self.bring_ups + if self.manager.bring_up() == BringUp::Required {
                        1nat
                    } else {
                        0nat
                    },
                }
            } else {
                self
            },
            Request::Destroy(n) => if self.knows(request) {
                World {
                    manager: self.manager.release(),
                    contexts: self.contexts.update(n, false),
                    bring_ups: self.bring_ups,
                }
            } else {
                self
            },
        }
    }

    /// The world after a sequence of requests.
    pub open spec fn run(self, requests: Seq<Request>) -> World
        decreases requests.len(),
    {
        if requests.len() == 0 {
            self
        } else {
            self.run(requests.drop_last()).step(requests.last())
        }
    }

    /// Whether `request` would take the accelerator away from its holder: it
    /// destroys a context that is no longer valid while another context holds
    /// the accelerator.
    pub open spec fn usurps(self, request: Request) -> bool {
        request matches Request::Destroy(n) && 0 <= n < self.contexts.len() && !self.contexts[n]
            && self.manager.held
    }

    /// Whether no request in the sequence takes the accelerator away from its
    /// holder.
    pub open spec fn orderly(self, requests: Seq<Request>) -> bool
        decreases requests.len(),
    {
        if requests.len() == 0 {
            true
        } else {
            self.orderly(requests.drop_last()) && !self.run(requests.drop_last()).usurps(
                requests.last(),
            )
        }
    }

    /// Whether the manager's books agree with the contexts that are out: the
    /// accelerator is held exactly when one context is valid, and no more
    /// than one ever is.
    pub open spec fn consistent(self) -> bool {
        valid_count(self.contexts) == if self.manager.held {
            1nat
        } else {
            0nat
        }
    }

    /// Whether the caller was asked to set the accelerator up exactly as
    /// often as the manager believes it was set up.
    pub open spec fn accounted(self) -> bool {
        self.bring_ups == if self.manager.initialized {
            1nat
        } else {
            0nat
        }
    }
}

proof fn lemma_valid_count_push(contexts: Seq<bool>, valid: bool)
    ensures
        valid_count(contexts.push(valid)) == valid_count(contexts) + if valid {
            1nat
        } else {
            0nat
        },
{
    assert(contexts.push(valid).drop_last() == contexts);
}

proof fn lemma_valid_count_invalidate(contexts: Seq<bool>, n: int)
    requires
        0 <= n < contexts.len(),
    ensures
        valid_count(contexts.update(n, false)) + if contexts[n] {
            1nat
        } else {
            0nat
        } == valid_count(contexts),
    decreases contexts.len(),
{
    let after = contexts.update(n, false);
    if n == contexts.len() - 1 {
        assert(after.drop_last() == contexts.drop_last());
    } else {
        assert(after.drop_last() == contexts.drop_last().update(n, false));
        lemma_valid_count_invalidate(contexts.drop_last(), n);
    }
}

/// A request that does not take the accelerator away from its holder keeps
/// the manager's books in agreement with the contexts that are out.
pub proof fn lemma_step_keeps_consistent(world: World, request: Request)
    requires
        world.consistent(),
        !world.usurps(request),
    ensures
        world.step(request).consistent(),
{
    match request {
        Request::Create => {
            lemma_valid_count_push(world.contexts, true);
        },
        Request::Destroy(n) => {
            if world.knows(request) {
                lemma_valid_count_invalidate(world.contexts, n);
            }
        },
    }
}

/// At most one context is valid at any time: from a world whose books are in
/// order, after any sequence of requests none of which takes the accelerator
/// away from its holder, at most one context is valid, and one is valid
/// exactly when the manager has the accelerator down as held.
pub proof fn theorem_at_most_one_valid_context(world: World, requests: Seq<Request>)
    requires
        world.consistent(),
        world.orderly(requests),
    ensures
        world.run(requests).consistent(),
        valid_count(world.run(requests).contexts) <= 1,
        world.run(requests).manager.held <==> valid_count(world.run(requests).contexts) == 1,
    decreases requests.len(),
{
    if requests.len() > 0 {
        theorem_at_most_one_valid_context(world, requests.drop_last());
        lemma_step_keeps_consistent(world.run(requests.drop_last()), requests.last());
    }
}

/// From start-up on, at most one context is valid at any time, as long as no
/// request takes the accelerator away from its holder.
pub proof fn theorem_at_most_one_valid_context_from_boot(requests: Seq<Request>)
    requires
        World::boot().orderly(requests),
    ensures
        valid_count(World::boot().run(requests).contexts) <= 1,
        World::boot().run(requests).manager.held <==> valid_count(
            World::boot().run(requests).contexts,
        ) == 1,
{
    theorem_at_most_one_valid_context(World::boot(), requests);
}

/// While a context is out, every further request for one is refused: after a
/// request for a context, whether it was granted or not, the next request is
/// not granted and changes nothing, and nothing is asked of the hardware.
pub proof fn theorem_second_request_refused(manager: ManagerState)
    ensures
        !manager.acquire().grants(),
        manager.acquire().acquire() == manager.acquire(),
        manager.acquire().bring_up() == BringUp::NotRequired,
{
}

/// Releasing frees the accelerator: the request after a release is granted,
/// whatever went before.
pub proof fn theorem_release_frees(manager: ManagerState)
    ensures
        manager.release().grants(),
        manager.release().acquire().held,
{
}

/// Destroying a context twice is the same as destroying it once, for the
/// manager and for the context alike, and leaves the context invalid.
pub proof fn theorem_destroy_idempotent(world: World, n: int)
    ensures
        world.step(Request::Destroy(n)).step(Request::Destroy(n)) == world.step(
            Request::Destroy(n),
        ),
        world.knows(Request::Destroy(n)) ==> !world.step(Request::Destroy(n)).contexts[n],
        world.manager.release().release() == world.manager.release(),
{
    let once = world.step(Request::Destroy(n));
    let twice = once.step(Request::Destroy(n));
    if world.knows(Request::Destroy(n)) {
        assert(once.knows(Request::Destroy(n)));
        assert(twice.contexts =~= once.contexts);
    }
}

/// The accelerator is set up once and never again: over any sequence of
/// requests the caller is asked to set it up at most once, and has been asked
/// exactly when the manager has it down as set up.
pub proof fn theorem_bring_up_at_most_once(world: World, requests: Seq<Request>)
    requires
        world.accounted(),
    ensures
        world.run(requests).accounted(),
        world.run(requests).bring_ups <= 1,
    decreases requests.len(),
{
    if requests.len() > 0 {
        theorem_bring_up_at_most_once(world, requests.drop_last());
    }
}

/// The accelerator is set up by the first context that is granted: a fresh
/// manager asks for it, and a manager that has granted a context never asks
/// again.
pub proof fn theorem_bring_up_on_first_grant(manager: ManagerState)
    ensures
        ManagerState::fresh().bring_up() == BringUp::Required,
        manager.grants() ==> manager.acquire().initialized,
        manager.initialized ==> manager.bring_up() == BringUp::NotRequired,
        manager.release().initialized == manager.initialized,
{
}

} // verus!
