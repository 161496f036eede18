//! The handle by which an application talks to the platform.

use std::collections::HashMap;

use vstd::prelude::*;
use vstd::std_specs::hash::*;

use crate::util::Counter;
use crate::window;
use crate::window::{IdleToken, WindowDescription, WindowId};

verus! {

/// Something that the platform is asked to do.
#[derive(Debug)]
pub enum Request {
    /// Stop controlling the current thread.
    Stop,
    /// Create a window, which has its identifier already.
    NewWindow(WindowDescription),
    /// Use a scale for a window, given as the bits of a double.
    SetWindowScale { win: WindowId, scale: u64 },
}

/// A handle that can enqueue tasks on the application loop
#[derive(Clone, Copy, Debug, PartialEq, Eq, Structural)]
pub struct RawLoopHandle(pub u64);

/// A handle that can enqueue tasks on the application loop, for a handler of a known type.
#[derive(Clone, Copy, Debug, PartialEq, Eq, Structural)]
pub struct LoopHandle {
    pub raw: RawLoopHandle,
    /// The type of the handler.
    pub handler_type: u64,
}

impl LoopHandle {
    /// The handle for any handler.
    pub fn deref(&self) -> (raw: RawLoopHandle)
        ensures
            raw == self.raw,
    {
        self.raw
    }
}

/// A short-lived handle for communication with the platform,
/// which is available whilst an event handler is being called
#[derive(Debug)]
pub struct Glazier {
    /// What the platform is asked to do, in order.
    requests: Vec<Request>,
    /// The type of the user's handler.
    handler_type: u64,
    /// Names the application loop.
    loop_sender: u64,
}

/// Two descriptions of the same window, but for its identifier.
pub open spec fn same_window(first: WindowDescription, second: WindowDescription) -> bool {
    &&& first.title == second.title
    &&& first.resizable == second.resizable
    &&& first.show_titlebar == second.show_titlebar
    &&& first.transparent == second.transparent
}

/// A description of a window as an application that says nothing gets it.
pub open spec fn is_default(desc: WindowDescription) -> bool {
    &&& desc.title@ == "Glazier Application Window"@
    &&& desc.resizable
    &&& desc.show_titlebar
    &&& !desc.transparent
    &&& desc.id is None
}

/// A request for a window as it is described, under an identifier.
pub open spec fn asks_for(request: Request, desc: WindowDescription, id: WindowId) -> bool {
    match request {
        Request::NewWindow(asked) => {
            &&& same_window(asked, desc)
            &&& asked.id is Some
            &&& asked.id->0.held() == id
            &&& desc.id matches Some(held) ==> held.held() == id
        },
        _ => false,
    }
}

impl Glazier {
    /// What the platform is asked to do, in order.
    pub closed spec fn asked(self) -> Seq<Request> {
        self.requests@
    }

    /// The type of the user's handler.
    pub closed spec fn handled_by(self) -> u64 {
        self.handler_type
    }

    /// Names the application loop.
    pub closed spec fn sender(self) -> u64 {
        self.loop_sender
    }

    /// A handle for the loop that `loop_sender` names, and a handler of the given type.
    pub fn new(handler_type: u64, loop_sender: u64) -> (glazier: Glazier)
        ensures
            glazier.asked().len() == 0,
            glazier.handled_by() == handler_type,
            glazier.sender() == loop_sender,
    {
        Glazier { requests: Vec::new(), handler_type, loop_sender }
    }

    /// Takes what the platform is asked to do.
    pub fn take_requests(&mut self) -> (requests: Vec<Request>)
        ensures
            requests@ == old(self).asked(),
            final(self).asked().len() == 0,
            final(self).handled_by() == old(self).handled_by(),
            final(self).sender() == old(self).sender(),
    {
        let mut requests: Vec<Request> = Vec::new();
        std::mem::swap(&mut requests, &mut self.requests);
        requests
    }

    /// Request that this Glazier stop controlling the current thread
    ///
    /// This should be called after all windows have been closed
    pub fn stop(&mut self)
        ensures
            final(self).asked() == old(self).asked().push(Request::Stop),
            final(self).handled_by() == old(self).handled_by(),
            final(self).sender() == old(self).sender(),
    {
        self.requests.push(Request::Stop);
    }

    /// Get a handle that can be used to schedule tasks on the application loop. The type has to be
    /// that of the handler.
    pub fn handle(&mut self, handler_type: u64) -> (handle: LoopHandle)
        requires
            handler_type == old(self).handled_by(),
        ensures
            handle == (LoopHandle {
                raw: RawLoopHandle(old(self).sender()),
                handler_type,
            }),
            *final(self) == *old(self),
    {
        LoopHandle { raw: RawLoopHandle(self.loop_sender), handler_type }
    }

    /// Get a handle that can be used to schedule tasks on an application loop
    /// with any handler.
    pub fn raw_handle(&mut self) -> (handle: RawLoopHandle)
        ensures
            handle == RawLoopHandle(old(self).sender()),
            *final(self) == *old(self),
    {
        RawLoopHandle(self.loop_sender)
    }

    /// Asks for a window, and says which identifier it has: the one in the description, or else a
    /// new one.
    pub fn new_window(&mut self, desc: WindowDescription, ids: &mut Counter) -> (id: WindowId)
        ensures
            final(self).asked().len() == old(self).asked().len() + 1,
            final(self).asked().drop_last() == old(self).asked(),
            asks_for(final(self).asked().last(), desc, id),
            desc.id is Some ==> final(ids)@ == old(ids)@,
            desc.id is None ==> id.number() == window::id_from(old(ids)@) && final(ids)@
                == crate::util::after(id.number()),
            final(self).handled_by() == old(self).handled_by(),
            final(self).sender() == old(self).sender(),
    {
        let mut desc = desc;
        let id = desc.assign_id(ids);
        self.requests.push(Request::NewWindow(desc));
        assert(self.asked().drop_last() =~= old(self).asked());
        id
    }

    /// Asks for a window that `builder` describes, from a description that says nothing yet.
    pub fn build_new_window<F: FnOnce(WindowDescription) -> WindowDescription>(
        &mut self,
        builder: F,
        ids: &mut Counter,
    ) -> (id: WindowId)
        requires
            forall|desc: WindowDescription|
                is_default(desc) ==> #[trigger] builder.requires((desc,)),
        ensures
            final(self).asked().len() == old(self).asked().len() + 1,
            final(self).asked().drop_last() == old(self).asked(),
            exists|start: WindowDescription, desc: WindowDescription| #[trigger]
                builder.ensures((start,), desc) && is_default(start) && asks_for(
                    final(self).asked().last(),
                    desc,
                    id,
                ) && (desc.id is Some ==> final(ids)@ == old(ids)@) && (desc.id is None
                    ==> id.number() == window::id_from(old(ids)@) && final(ids)@
                    == crate::util::after(id.number())),
            final(self).handled_by() == old(self).handled_by(),
            final(self).sender() == old(self).sender(),
    {
        let desc = builder(WindowDescription::default());
        self.new_window(desc, ids)
    }

    /// Windows cannot be closed yet.
    pub fn close_window(&mut self, _win: WindowId)
        ensures
            *final(self) == *old(self),
    {
    }

    /// Set the scale which will be used for this Window, as the bits of a double.
    pub fn set_window_scale(&mut self, win: WindowId, scale: u64)
        ensures
            final(self).asked() == old(self).asked().push(Request::SetWindowScale { win, scale }),
            final(self).handled_by() == old(self).handled_by(),
            final(self).sender() == old(self).sender(),
    {
        self.requests.push(Request::SetWindowScale { win, scale });
    }
}

/// Allows configuring a `Glazier` before initialising the system
#[derive(Debug)]
pub struct GlazierBuilder {
    windows: Vec<WindowDescription>,
}

/// Requests for some windows, in order, under the identifiers that they have.
pub open spec fn ask_in_order(requests: Seq<Request>, windows: Seq<WindowDescription>) -> bool {
    &&& requests.len() == windows.len()
    &&& forall|i: int|
        0 <= i < windows.len() ==> asks_for(
            #[trigger] requests[i],
            windows[i],
            windows[i].id->0.held(),
        )
}

impl GlazierBuilder {
    /// The windows that were queued, in order.
    pub closed spec fn queued(self) -> Seq<WindowDescription> {
        self.windows@
    }

    /// Every window that was queued has its identifier.
    pub open spec fn wf(self) -> bool {
        forall|i: int| 0 <= i < self.queued().len() ==> (#[trigger] self.queued()[i]).id is Some
    }

    /// Prepare to interact with the desktop environment
    pub fn new() -> (builder: GlazierBuilder)
        ensures
            builder.wf(),
            builder.queued().len() == 0,
    {
        GlazierBuilder { windows: Vec::new() }
    }

    /// Queues the creation of a new window for when the `Glazier` is created
    pub fn new_window(&mut self, builder: WindowDescription, ids: &mut Counter) -> (id: WindowId)
        requires
            old(self).wf(),
        ensures
            final(self).wf(),
            final(self).queued().len() == old(self).queued().len() + 1,
            final(self).queued().drop_last() == old(self).queued(),
            same_window(final(self).queued().last(), builder),
            final(self).queued().last().id->0.held() == id,
            builder.id matches Some(held) ==> held.held() == id && final(ids)@ == old(ids)@,
            builder.id is None ==> id.number() == window::id_from(old(ids)@) && final(ids)@
                == crate::util::after(id.number()),
    {
        let mut builder = builder;
        let id = builder.assign_id(ids);
        self.windows.push(builder);
        proof {
            assert(self.queued().drop_last() =~= old(self).queued());
            assert forall|i: int| 0 <= i < self.queued().len() implies (
            #[trigger] self.queued()[i]).id is Some by {
                if i < old(self).queued().len() {
                    assert(self.queued()[i] == old(self).queued()[i]);
                }
            }
        }
        id
    }

    /// What stands in a handle once the windows that were queued are asked for: after what it was
    /// asked for before, a request for each of them, in order.
    pub open spec fn applied(self, before: Glazier, ready: Glazier) -> bool {
        let done = before.asked().len() as int;
        &&& ready.asked().len() == done + self.queued().len()
        &&& ready.asked().take(done) == before.asked()
        &&& ask_in_order(ready.asked().skip(done), self.queued())
        &&& ready.handled_by() == before.handled_by()
        &&& ready.sender() == before.sender()
    }

    /// Asks for the windows that were queued, in order. This comes before anything else that the
    /// application does when the event loop starts.
    pub fn launch(self, glazier: &mut Glazier, ids: &mut Counter)
        requires
            self.wf(),
        ensures
            self.applied(*old(glazier), *final(glazier)),
            final(ids)@ == old(ids)@,
    {
        let ghost before = glazier.asked();
        let ghost windows = self.queued();
        let mut rest = self.windows;
        let ghost mut done: int = 0;
        while rest.len() > 0
            invariant
                0 <= done <= windows.len(),
                rest@ == windows.skip(done),
                forall|i: int| 0 <= i < windows.len() ==> (#[trigger] windows[i]).id is Some,
                glazier.asked().len() == before.len() + done,
                glazier.asked().take(before.len() as int) == before,
                ask_in_order(glazier.asked().skip(before.len() as int), windows.take(done)),
                ids@ == old(ids)@,
                glazier.handled_by() == old(glazier).handled_by(),
                glazier.sender() == old(glazier).sender(),
            decreases rest.len(),
        {
            let ghost asked = glazier.asked();
            let desc = rest.remove(0);
            assert(desc == windows[done]);
            glazier.new_window(desc, ids);
            proof {
                let now = glazier.asked();
                assert(now.take(before.len() as int) =~= asked.take(before.len() as int)) by {
                    assert forall|i: int| 0 <= i < before.len() implies now[i] == asked[i] by {
                        assert(now.drop_last()[i] == asked[i]);
                    }
                }
                let then_requests = asked.skip(before.len() as int);
                let requests = now.skip(before.len() as int);
                assert forall|i: int| 0 <= i < done + 1 implies asks_for(
                    #[trigger] requests[i],
                    windows.take(done + 1)[i],
                    windows.take(done + 1)[i].id->0.held(),
                ) by {
                    if i < done {
                        assert(now.drop_last()[before.len() + i] == asked[before.len() + i]);
                        assert(requests[i] == then_requests[i]);
                        assert(windows.take(done + 1)[i] == windows.take(done)[i]);
                    } else {
                        assert(requests[i] == now.last());
                    }
                }
                assert(rest@ =~= windows.skip(done + 1));
                done = done + 1;
            }
        }
        assert(windows.take(done) =~= windows);
    }

    /// Starts interacting with the platform, then runs a one-time callback
    ///
    /// `on_init` is called once, with the event handler, after the windows that were queued are
    /// asked for. It gives back the handler and the handle, which then holds what the platform is
    /// asked to do in all.
    pub fn launch_then<H, F: FnOnce(H, Glazier) -> (H, Glazier)>(
        self,
        handler: H,
        glazier: Glazier,
        ids: &mut Counter,
        on_init: F,
    ) -> (end: (H, Glazier))
        requires
            self.wf(),
            forall|ready: Glazier| #[trigger]
                self.applied(glazier, ready) ==> on_init.requires((handler, ready)),
        ensures
            exists|ready: Glazier| #[trigger]
                self.applied(glazier, ready) && on_init.ensures((handler, ready), end),
            final(ids)@ == old(ids)@,
    {
        let ghost builder = self;
        let mut ready = glazier;
        self.launch(&mut ready, ids);
        assert(builder.applied(glazier, ready));
        on_init(handler, ready)
    }

    /// As [`Self::launch_then`], for a handler in a box.
    pub fn launch_then_dyn<H, F: FnOnce(Box<H>, Glazier) -> (Box<H>, Glazier)>(
        self,
        event_handler: Box<H>,
        glazier: Glazier,
        ids: &mut Counter,
        on_init: F,
    ) -> (end: (Box<H>, Glazier))
        requires
            self.wf(),
            forall|ready: Glazier| #[trigger]
                self.applied(glazier, ready) ==> on_init.requires((event_handler, ready)),
        ensures
            exists|ready: Glazier| #[trigger]
                self.applied(glazier, ready) && on_init.ensures((event_handler, ready), end),
            final(ids)@ == old(ids)@,
    {
        self.launch_then(event_handler, glazier, ids, on_init)
    }
}

/// Something to do when there is nothing else to do.
#[derive(Clone, Copy, Debug, PartialEq, Eq, Structural)]
pub enum IdleAction {
    /// Run the callback that was stored under this number.
    Callback(u64),
    Token(IdleToken),
}

/// Takes everything that waits for an idle moment. What is added while it is being done waits for
/// the next one.
pub fn take_idle_actions(idle_actions: &mut Vec<IdleAction>) -> (actions: Vec<IdleAction>)
    ensures
        actions@ == old(idle_actions)@,
        final(idle_actions)@.len() == 0,
{
    let mut actions: Vec<IdleAction> = Vec::new();
    std::mem::swap(&mut actions, idle_actions);
    actions
}

/// A window that could not be created, and why.
#[derive(Debug)]
pub struct CreationFailure<E> {
    pub window: WindowId,
    pub error: E,
}

/// The windows of an application whose windows are created between calls of its handler.
#[derive(Debug)]
pub struct GlazierState {
    windows: HashMap<u64, u64>,
    operations: Vec<WindowDescription>,
}

/// The windows that exist after some were tried to be created, one after another.
pub open spec fn created<E>(
    windows: Map<u64, u64>,
    operations: Seq<WindowDescription>,
    results: Seq<Result<u64, E>>,
) -> Map<u64, u64>
    decreases results.len(),
{
    if results.len() == 0 {
        windows
    } else {
        let before = created(windows, operations, results.drop_last());
        match results.last() {
            Ok(handle) => before.insert(
                operations[results.len() - 1].id->0.held().number(),
                handle,
            ),
            Err(_) => before,
        }
    }
}

/// The windows that could not be created, in order.
pub open spec fn failed<E>(
    operations: Seq<WindowDescription>,
    results: Seq<Result<u64, E>>,
) -> Seq<CreationFailure<E>>
    decreases results.len(),
{
    if results.len() == 0 {
        Seq::empty()
    } else {
        let before = failed(operations, results.drop_last());
        match results.last() {
            Ok(_) => before,
            Err(error) => before.push(
                CreationFailure { window: operations[results.len() - 1].id->0.held(), error },
            ),
        }
    }
}

impl GlazierState {
    /// The windows that exist, each with the handle of its backend.
    pub closed spec fn existing(self) -> Map<u64, u64> {
        self.windows@
    }

    /// The windows that are still to be created, in order.
    pub closed spec fn waiting(self) -> Seq<WindowDescription> {
        self.operations@
    }

    /// Every window that is to be created has its identifier.
    pub open spec fn wf(self) -> bool {
        forall|i: int| 0 <= i < self.waiting().len() ==> (#[trigger] self.waiting()[i]).id is Some
    }

    pub fn new() -> (state: GlazierState)
        ensures
            state.wf(),
            state.existing() == Map::<u64, u64>::empty(),
            state.waiting().len() == 0,
    {
        broadcast use vstd::std_specs::hash::group_hash_axioms;

        GlazierState { windows: HashMap::new(), operations: Vec::new() }
    }

    /// Notes that a window is to be created, and says which identifier it has.
    pub fn new_window(&mut self, builder: WindowDescription, ids: &mut Counter) -> (id: WindowId)
        requires
            old(self).wf(),
        ensures
            final(self).wf(),
            final(self).existing() == old(self).existing(),
            final(self).waiting().len() == old(self).waiting().len() + 1,
            final(self).waiting().drop_last() == old(self).waiting(),
            same_window(final(self).waiting().last(), builder),
            final(self).waiting().last().id->0.held() == id,
            builder.id matches Some(held) ==> held.held() == id && final(ids)@ == old(ids)@,
            builder.id is None ==> id.number() == window::id_from(old(ids)@) && final(ids)@
                == crate::util::after(id.number()),
    {
        let mut builder = builder;
        let id = builder.assign_id(ids);
        self.operations.push(builder);
        proof {
            assert(self.waiting().drop_last() =~= old(self).waiting());
            assert forall|i: int| 0 <= i < self.waiting().len() implies (
            #[trigger] self.waiting()[i]).id is Some by {
                if i < old(self).waiting().len() {
                    assert(self.waiting()[i] == old(self).waiting()[i]);
                }
            }
        }
        id
    }

    /// The backend has tried to create the windows that were waiting, with a result for each.
    /// Returns the failures that the handler is told of, in order.
    pub fn finish_operations<E>(&mut self, results: Vec<Result<u64, E>>) -> (failures: Vec<
        CreationFailure<E>,
    >)
        requires
            old(self).wf(),
            results@.len() == old(self).waiting().len(),
        ensures
            final(self).wf(),
            final(self).waiting().len() == 0,
            final(self).existing() == created(
                old(self).existing(),
                old(self).waiting(),
                results@,
            ),
            failures@ == failed(old(self).waiting(), results@),
    {
        broadcast use vstd::std_specs::hash::group_hash_axioms;

        let ghost all = results@;
        let ghost operations = self.operations@;
        let mut failures: Vec<CreationFailure<E>> = Vec::new();
        let mut rest = results;
        let mut i: usize = 0;
        assert(all.take(0) =~= Seq::empty());
        while i < self.operations.len()
            invariant
                i <= operations.len(),
                self.operations@ == operations,
                operations.len() == all.len(),
                forall|j: int| 0 <= j < operations.len() ==> (#[trigger] operations[j]).id is Some,
                rest@ == all.skip(i as int),
                self.windows@ == created(old(self).existing(), operations, all.take(i as int)),
                failures@ == failed(operations, all.take(i as int)),
            decreases operations.len() - i,
        {
            proof {
                assert(all.take(i as int + 1).drop_last() =~= all.take(i as int));
            }
            let result = rest.remove(0);
            if let Some(held) = &self.operations[i].id {
                let window = held.id();
                match result {
                    Ok(handle) => {
                        self.windows.insert(window.to_raw(), handle);
                    },
                    Err(error) => {
                        failures.push(CreationFailure { window, error });
                    },
                }
            }
            assert(rest@ =~= all.skip(i as int + 1));
            i += 1;
        }
        assert(all.take(i as int) =~= all);
        self.operations = Vec::new();
        failures
    }
}

/// Every window that was to be created exists afterwards, or its failure is told, as the backend
/// found.
pub proof fn law_every_window_is_accounted_for<E>(
    windows: Map<u64, u64>,
    operations: Seq<WindowDescription>,
    results: Seq<Result<u64, E>>,
    i: int,
)
    requires
        0 <= i < results.len() == operations.len(),
    ensures
        results[i] is Ok ==> created(windows, operations, results).dom().contains(
            operations[i].id->0.held().number(),
        ),
        results[i] matches Err(error) ==> failed(operations, results).contains(
            CreationFailure { window: operations[i].id->0.held(), error },
        ),
        failed(operations, results).len() <= results.len(),
    decreases results.len(),
{
    lemma_accounted_for(windows, operations, results, i);
}

proof fn lemma_accounted_for<E>(
    windows: Map<u64, u64>,
    operations: Seq<WindowDescription>,
    results: Seq<Result<u64, E>>,
    i: int,
)
    requires
        0 <= i < results.len() <= operations.len(),
    ensures
        results[i] is Ok ==> created(windows, operations, results).dom().contains(
            operations[i].id->0.held().number(),
        ),
        results[i] matches Err(error) ==> failed(operations, results).contains(
            CreationFailure { window: operations[i].id->0.held(), error },
        ),
        failed(operations, results).len() <= results.len(),
    decreases results.len(),
{
    let before = results.drop_last();
    if i < before.len() {
        lemma_accounted_for(windows, operations, before, i);
        if let Err(error) = results[i] {
            let failure = CreationFailure { window: operations[i].id->0.held(), error };
            let earlier = failed(operations, before);
            let k = choose|k: int| 0 <= k < earlier.len() && earlier[k] == failure;
            assert(failed(operations, results)[k] == failure);
        }
    } else {
        if before.len() > 0 {
            lemma_accounted_for(windows, operations, before, 0);
        }
        if let Err(error) = results[i] {
            let failure = CreationFailure { window: operations[i].id->0.held(), error };
            assert(failed(operations, results).last() == failure);
        }
    }
}

/// A request for a window says of it what was described, under the identifier that was given.
pub proof fn law_requests_carry_the_description(
    request: Request,
    desc: WindowDescription,
    id: WindowId,
)
    requires
        asks_for(request, desc, id),
    ensures
        request matches Request::NewWindow(asked) && asked.title@ == desc.title@ && asked.resizable
            == desc.resizable && asked.show_titlebar == desc.show_titlebar && asked.transparent
            == desc.transparent && (asked.id matches Some(held) && held.held() == id),
        desc.id matches Some(held) ==> held.held() == id,
{
}

/// Each window that was queued is asked for once the application starts, after all that was asked
/// for before and in the order in which they were queued.
pub proof fn law_queued_windows_are_asked_for(
    builder: GlazierBuilder,
    before: Glazier,
    ready: Glazier,
    i: int,
)
    requires
        builder.wf(),
        builder.applied(before, ready),
    ensures
        0 <= i < before.asked().len() ==> ready.asked()[i] == before.asked()[i],
        0 <= i < builder.queued().len() ==> (ready.asked()[before.asked().len() + i] matches
            Request::NewWindow(asked) && asked.title == builder.queued()[i].title && asked.id is Some
            && asked.id->0.held() == builder.queued()[i].id->0.held()),
        ready.asked().len() == before.asked().len() + builder.queued().len(),
        ready.sender() == before.sender(),
        ready.handled_by() == before.handled_by(),
{
    let done = before.asked().len() as int;
    if 0 <= i < done {
        assert(ready.asked().take(done)[i] == ready.asked()[i]);
    }
    if 0 <= i < builder.queued().len() {
        assert(ready.asked().skip(done)[i] == ready.asked()[done + i]);
        assert(asks_for(
            ready.asked().skip(done)[i],
            builder.queued()[i],
            builder.queued()[i].id->0.held(),
        ));
    }
}

/// A window has the handle that the backend gave it last. Other windows are left alone, and only
/// those that the backend could create are new.
pub proof fn law_windows_have_their_handles<E>(
    windows: Map<u64, u64>,
    operations: Seq<WindowDescription>,
    results: Seq<Result<u64, E>>,
    i: int,
    id: u64,
)
    requires
        results.len() <= operations.len(),
    ensures
        0 <= i < results.len() && results[i] is Ok && operations[i].id->0.held().number() == id && (
        forall|j: int|
            i < j < results.len() && #[trigger] operations[j].id->0.held().number() == id
                ==> results[j] is Err) ==> created(windows, operations, results).dom().contains(id)
            && created(windows, operations, results)[id] == results[i]->Ok_0,
        (forall|j: int|
            0 <= j < results.len() && #[trigger] operations[j].id->0.held().number() == id
                ==> results[j] is Err) ==> created(windows, operations, results).dom().contains(id)
            == windows.dom().contains(id) && (windows.dom().contains(id) ==> created(
            windows,
            operations,
            results,
        )[id] == windows[id]),
    decreases results.len(),
{
    if results.len() > 0 {
        let before = results.drop_last();
        let last = results.len() - 1;
        law_windows_have_their_handles(windows, operations, before, i, id);
        assert(operations[last].id->0.held().number() == id
            || operations[last].id->0.held().number() != id);
        if forall|j: int|
            0 <= j < results.len() && #[trigger] operations[j].id->0.held().number() == id
                ==> results[j] is Err {
            assert forall|j: int|
                0 <= j < before.len() && #[trigger] operations[j].id->0.held().number()
                    == id implies before[j] is Err by {
                assert(results[j] is Err);
            }
        }
        if 0 <= i < before.len() && (forall|j: int|
            i < j < results.len() && #[trigger] operations[j].id->0.held().number() == id
                ==> results[j] is Err) {
            assert forall|j: int|
                i < j < before.len() && #[trigger] operations[j].id->0.held().number()
                    == id implies before[j] is Err by {
                assert(results[j] is Err);
            }
        }
    }
}

/// Each failure that is told is one that the backend reported for that window, and they are told in
/// the order in which the windows were tried.
pub proof fn law_failures_are_told_in_order<E>(
    operations: Seq<WindowDescription>,
    results: Seq<Result<u64, E>>,
    tried: int,
)
    requires
        0 <= tried <= results.len() <= operations.len(),
    ensures
        failed(operations, results.take(tried)).is_prefix_of(failed(operations, results)),
        0 < tried && results[tried - 1] is Err ==> failed(operations, results.take(tried)).last() == (
        CreationFailure {
            window: operations[tried - 1].id->0.held(),
            error: results[tried - 1]->Err_0,
        }) && failed(operations, results.take(tried)).len() == failed(
            operations,
            results.take(tried - 1),
        ).len() + 1,
        0 < tried && results[tried - 1] is Ok ==> failed(operations, results.take(tried)) == failed(
            operations,
            results.take(tried - 1),
        ),
    decreases results.len(),
{
    if tried > 0 {
        assert(results.take(tried).drop_last() =~= results.take(tried - 1));
    }
    if tried == results.len() {
        assert(results.take(tried) =~= results);
    } else {
        let before = results.drop_last();
        law_failures_are_told_in_order(operations, before, tried);
        assert(before.take(tried) =~= results.take(tried));
    }
}

} // verus!
