//! The bridge between native asynchronous work and a host that is called
//! back. The bridge keeps the book: which operations were scheduled and
//! which of them still owe their callback. The program around it runs the
//! work and makes the call; what it is to do next is decided here.

use std::collections::HashMap;
use vstd::prelude::*;
use vstd::string::StringSliceAdditionalSpecFns;

use crate::error::{simple_error_of, Error, ErrorView, SimpleError, SimpleErrorView};
use crate::registry::{Registry, NO_HANDLE};
use crate::json::{json_document, Json, MemberFault};
use crate::request::{
    headers_of, request_fault_text, request_of_text, uppercased, Method, RequestDescription,
    RequestError, RequestFault, RequestView,
};

verus! {

broadcast use vstd::std_specs::hash::group_hash_axioms;

/// What goes wrong on the way to a callback.
#[derive(Debug, Clone, PartialEq, Eq)]
pub enum BridgeError {
    /// An error of the SDK
    OpenApi(Error),
    /// Anything else, by its message
    Other(String),
}

/// A [`BridgeError`] with its strings as sequences of characters.
pub enum BridgeErrorView {
    OpenApi(ErrorView),
    Other(Seq<char>),
}

impl View for BridgeError {
    type V = BridgeErrorView;

    open spec fn view(&self) -> BridgeErrorView {
        match *self {
            BridgeError::OpenApi(e) => BridgeErrorView::OpenApi(e@),
            BridgeError::Other(message) => BridgeErrorView::Other(message@),
        }
    }
}

/// The form in which an error crosses to the host.
pub open spec fn host_error_of(e: BridgeErrorView) -> SimpleErrorView {
    match e {
        BridgeErrorView::OpenApi(e) => simple_error_of(e),
        BridgeErrorView::Other(message) => SimpleErrorView::Other(message),
    }
}

/// What a callback carries: the payload of a success as it came from the
/// transport, or the reduced error.
pub open spec fn callback_of(outcome: Result<String, BridgeError>) -> Result<Seq<char>, SimpleErrorView> {
    match outcome {
        Ok(payload) => Ok(payload@),
        Err(e) => Err(host_error_of(e@)),
    }
}

/// The message for a handle that is not live.
pub open spec fn unknown_handle_text() -> Seq<char> {
    "unknown or released handle"@
}

/// The message for a bridge that has no operation number left.
pub open spec fn exhausted_text() -> Seq<char> {
    "no operation can be scheduled"@
}

impl BridgeError {
    /// Reduces the error to the form in which it crosses to the host.
    pub fn into_simple_error(self) -> (r: SimpleError)
        ensures
            r@ == host_error_of(self@),
    {
        match self {
            BridgeError::OpenApi(e) => e.into_simple_error(),
            BridgeError::Other(message) => SimpleError::Other(message),
        }
    }
}

/// The book of a bridge: the operations that still owe their callback,
/// each with the handle that it works on, and the number of the operation
/// that is scheduled next.
pub struct BridgeView {
    pub pending: Map<u64, i64>,
    pub next: int,
}

impl BridgeView {
    /// Every pending operation has been scheduled.
    pub open spec fn well_formed(self) -> bool {
        &&& 1 <= self.next <= u64::MAX
        &&& self.pending.dom().finite()
        &&& forall|operation: u64| #[trigger]
            self.pending.contains_key(operation) ==> 1 <= operation < self.next
    }

    /// Whether `operation` has been scheduled.
    pub open spec fn scheduled(self, operation: u64) -> bool {
        1 <= operation < self.next
    }

    /// Whether the callback of `operation` has been made.
    pub open spec fn delivered(self, operation: u64) -> bool {
        self.scheduled(operation) && !self.pending.contains_key(operation)
    }

    /// Whether an operation number is left.
    pub open spec fn has_room(self) -> bool {
        self.next < u64::MAX
    }

    /// The book after an operation on `handle` has been scheduled.
    pub open spec fn after_schedule(self, handle: i64) -> BridgeView {
        BridgeView { pending: self.pending.insert(self.next as u64, handle), next: self.next + 1 }
    }

    /// The book after `operation` has completed.
    pub open spec fn after_complete(self, operation: u64) -> BridgeView {
        BridgeView { pending: self.pending.remove(operation), next: self.next }
    }
}

/// What happens on a bridge.
pub enum BridgeEvent {
    /// An operation on the given handle is scheduled.
    Schedule(i64),
    /// The given operation completes.
    Complete(u64),
}

impl BridgeView {
    /// The book after one event. Scheduling changes nothing where no
    /// operation number is left.
    pub open spec fn step(self, event: BridgeEvent) -> BridgeView {
        match event {
            BridgeEvent::Schedule(handle) => if self.has_room() {
                self.after_schedule(handle)
            } else {
                self
            },
            BridgeEvent::Complete(operation) => self.after_complete(operation),
        }
    }

    /// Whether the event makes the callback of `operation`: it completes
    /// the operation while the callback is owed.
    pub open spec fn calls_back(self, event: BridgeEvent, operation: u64) -> bool {
        event == BridgeEvent::Complete(operation) && self.pending.contains_key(operation)
    }

    /// The book after a run of events, one after the other.
    pub open spec fn run(self, events: Seq<BridgeEvent>) -> BridgeView
        decreases events.len(),
    {
        if events.len() == 0 {
            self
        } else {
            self.step(events[0]).run(events.drop_first())
        }
    }

    /// How many times the callback of `operation` is made in a run of
    /// events.
    pub open spec fn callbacks(self, events: Seq<BridgeEvent>, operation: u64) -> nat
        decreases events.len(),
    {
        if events.len() == 0 {
            0
        } else {
            let made: nat = if self.calls_back(events[0], operation) {
                1
            } else {
                0
            };
            made + self.step(events[0]).callbacks(events.drop_first(), operation)
        }
    }
}

/// One callback that is to be made.
#[derive(Debug, PartialEq, Eq)]
pub struct Delivery {
    /// The operation that has completed
    pub operation: u64,
    /// The handle that it worked on
    pub handle: i64,
    /// What the callback carries
    pub outcome: Result<String, SimpleError>,
}

impl Delivery {
    /// What the callback carries.
    pub open spec fn carried(&self) -> Result<Seq<char>, SimpleErrorView> {
        match self.outcome {
            Ok(payload) => Ok(payload@),
            Err(e) => Err(e@),
        }
    }
}

/// The bridge's book. It is well formed from `new` on: no operation takes
/// that away.
pub struct Bridge {
    pending: HashMap<u64, i64>,
    next: u64,
}

impl View for Bridge {
    type V = BridgeView;

    closed spec fn view(&self) -> BridgeView {
        BridgeView { pending: self.pending@, next: self.next as int }
    }
}

impl Bridge {
    /// A bridge on which nothing has been scheduled; its first operation
    /// is number 1.
    pub fn new() -> (r: Bridge)
        ensures
            r@.pending == Map::<u64, i64>::empty(),
            r@.next == 1,
            r@.well_formed(),
    {
        Bridge { pending: HashMap::new(), next: 1 }
    }

    /// Schedules an operation on `handle` and gives its number out. From
    /// then on the operation owes one callback. Where no number is left,
    /// nothing is scheduled and nothing is owed.
    pub fn schedule(&mut self, handle: i64) -> (r: Option<u64>)
        requires
            old(self)@.well_formed(),
        ensures
            final(self)@.well_formed(),
            match r {
                Some(operation) => {
                    &&& old(self)@.has_room()
                    &&& operation == old(self)@.next
                    &&& final(self)@ == old(self)@.after_schedule(handle)
                    &&& final(self)@.pending.contains_key(operation)
                },
                None => !old(self)@.has_room() && final(self)@ == old(self)@,
            },
    {
        if self.next == u64::MAX {
            return None;
        }
        let operation = self.next;
        self.pending.insert(operation, handle);
        self.next = operation + 1;
        proof {
            assert(self@.pending =~= old(self)@.after_schedule(handle).pending);
            lemma_schedule_keeps_well_formed(old(self)@, handle);
        }
        Some(operation)
    }

    /// Whether `operation` still owes its callback.
    pub fn is_pending(&self, operation: u64) -> (r: bool)
        ensures
            r == self@.pending.contains_key(operation),
    {
        self.pending.contains_key(&operation)
    }

    /// How many operations still owe their callback.
    pub fn pending_count(&self) -> (r: usize)
        ensures
            r == self@.pending.len(),
    {
        self.pending.len()
    }

    /// Takes note that `operation` has completed with `outcome` and says
    /// which callback is to be made for it: the one callback that the
    /// operation owes. An operation that owes none, because its callback
    /// was made before or it was never scheduled, gets none.
    pub fn complete(&mut self, operation: u64, outcome: Result<String, BridgeError>) -> (r: Option<
        Delivery,
    >)
        requires
            old(self)@.well_formed(),
        ensures
            final(self)@.well_formed(),
            final(self)@ == old(self)@.after_complete(operation),
            !final(self)@.pending.contains_key(operation),
            match r {
                Some(delivery) => {
                    &&& old(self)@.pending.contains_key(operation)
                    &&& delivery.operation == operation
                    &&& delivery.handle == old(self)@.pending[operation]
                    &&& delivery.carried() == callback_of(outcome)
                },
                None => !old(self)@.pending.contains_key(operation) && final(self)@ == old(self)@,
            },
    {
        let taken = self.pending.remove(&operation);
        proof {
            if taken is None {
                assert(self.pending@ =~= old(self).pending@);
            }
            lemma_complete_keeps_well_formed(old(self)@, operation);
        }
        match taken {
            None => None,
            Some(handle) => {
                let carried = match outcome {
                    Ok(payload) => Ok(payload),
                    Err(e) => Err(e.into_simple_error()),
                };
                Some(Delivery { operation, handle, outcome: carried })
            },
        }
    }
}

/// A well-formed book stays so when an operation is scheduled.
pub proof fn lemma_schedule_keeps_well_formed(bridge: BridgeView, handle: i64)
    requires
        bridge.well_formed(),
        bridge.has_room(),
    ensures
        bridge.after_schedule(handle).well_formed(),
        bridge.after_schedule(handle).pending.contains_key(bridge.next as u64),
        !bridge.after_schedule(handle).delivered(bridge.next as u64),
{
}

/// A well-formed book stays so when an operation completes.
pub proof fn lemma_complete_keeps_well_formed(bridge: BridgeView, operation: u64)
    requires
        bridge.well_formed(),
    ensures
        bridge.after_complete(operation).well_formed(),
{
}

/// A callback is made once: after an operation has completed it is
/// delivered, it owes nothing, and completing it again changes nothing.
pub proof fn lemma_callback_is_made_once(bridge: BridgeView, operation: u64)
    requires
        bridge.well_formed(),
        bridge.scheduled(operation),
    ensures
        bridge.after_complete(operation).delivered(operation),
        !bridge.after_complete(operation).pending.contains_key(operation),
        bridge.after_complete(operation).after_complete(operation) == bridge.after_complete(
            operation,
        ),
{
    assert(bridge.after_complete(operation).pending.remove(operation)
        =~= bridge.after_complete(operation).pending);
}

/// What has been delivered stays delivered, and what is pending stays
/// pending until it completes itself: scheduling another operation or
/// completing another one changes neither.
pub proof fn lemma_other_operations_do_not_interfere(
    bridge: BridgeView,
    operation: u64,
    handle: i64,
    other: u64,
)
    requires
        bridge.well_formed(),
        bridge.scheduled(operation),
        other != operation,
    ensures
        bridge.has_room() ==> bridge.after_schedule(handle).delivered(operation)
            == bridge.delivered(operation),
        bridge.after_complete(other).delivered(operation) == bridge.delivered(operation),
        bridge.after_complete(other).pending.contains_key(operation)
            == bridge.pending.contains_key(operation),
{
}

/// Every scheduled operation is either pending or delivered, never both;
/// so once nothing is pending, every operation that was scheduled has had
/// its callback.
pub proof fn lemma_nothing_pending_means_all_delivered(bridge: BridgeView, operation: u64)
    requires
        bridge.well_formed(),
        bridge.scheduled(operation),
    ensures
        bridge.pending.contains_key(operation) != bridge.delivered(operation),
        bridge.pending.len() == 0 ==> bridge.delivered(operation),
{
    if bridge.pending.len() == 0 && bridge.pending.contains_key(operation) {
        vstd::set_lib::lemma_set_empty_equivalency_len(bridge.pending.dom());
    }
}

/// The message for a registry that has no handle left.
pub open spec fn no_handle_text() -> Seq<char> {
    "no handle can be given out"@
}

/// Takes the resource that a construction gave into the registry and gives
/// its handle out. Where the construction failed, its error is handed on
/// and no handle is given out; the registry stays as it was.
pub fn open_handle<T>(registry: &mut Registry<T>, constructed: Result<T, BridgeError>) -> (r: Result<
    i64,
    BridgeError,
>)
    requires
        old(registry)@.well_formed(),
    ensures
        final(registry)@.well_formed(),
        match r {
            Ok(handle) => {
                &&& constructed matches Ok(resource)
                &&& old(registry)@.has_room()
                &&& handle == old(registry)@.next
                &&& handle != NO_HANDLE
                &&& final(registry)@ == old(registry)@.created(resource)
            },
            Err(e) => {
                &&& final(registry)@ == old(registry)@
                &&& match constructed {
                    Err(cause) => e == cause,
                    Ok(_) => !old(registry)@.has_room() && e@ == BridgeErrorView::Other(
                        no_handle_text(),
                    ),
                }
            },
        },
{
    match constructed {
        Err(cause) => Err(cause),
        Ok(resource) => match registry.create(resource) {
            Ok(handle) => Ok(handle),
            Err(_) => Err(BridgeError::Other(String::from_str("no handle can be given out"))),
        },
    }
}

/// Releases `handle` and gives the resource behind it back, for the caller
/// to drop once no operation uses it any more. A handle that is not live
/// gives nothing back: releasing twice does no harm.
pub fn close_handle<T>(registry: &mut Registry<T>, handle: i64) -> (r: Option<T>)
    requires
        old(registry)@.well_formed(),
    ensures
        final(registry)@.well_formed(),
        final(registry)@ == old(registry)@.released(handle),
        !final(registry)@.live.contains_key(handle),
        match r {
            Some(resource) => old(registry)@.live.contains_key(handle) && old(
                registry,
            )@.live[handle] == resource,
            None => !old(registry)@.live.contains_key(handle) && final(registry)@ == old(
                registry,
            )@,
        },
{
    registry.release(handle)
}

/// In any run of events the callback of an operation is made exactly once
/// if the operation comes to be delivered in that run, and not at all
/// otherwise: never twice, and never for an operation that was delivered
/// before. What is delivered stays delivered.
pub proof fn lemma_callback_exactly_once(
    bridge: BridgeView,
    events: Seq<BridgeEvent>,
    operation: u64,
)
    requires
        bridge.well_formed(),
    ensures
        bridge.run(events).well_formed(),
        bridge.delivered(operation) ==> bridge.run(events).delivered(operation),
        bridge.callbacks(events, operation) == if bridge.run(events).delivered(operation)
            && !bridge.delivered(operation) {
            1nat
        } else {
            0nat
        },
    decreases events.len(),
{
    if events.len() > 0 {
        let next = bridge.step(events[0]);
        match events[0] {
            BridgeEvent::Schedule(handle) => {
                if bridge.has_room() {
                    lemma_schedule_keeps_well_formed(bridge, handle);
                }
            },
            BridgeEvent::Complete(other) => {
                lemma_complete_keeps_well_formed(bridge, other);
                if !bridge.pending.contains_key(other) {
                    assert(bridge.pending.remove(other) =~= bridge.pending);
                }
            },
        }
        lemma_callback_exactly_once(next, events.drop_first(), operation);
    }
}

/// How the first, synchronous part of a request ends.
#[derive(Debug, PartialEq, Eq)]
pub enum Begin {
    /// Nothing was scheduled: the caller is told at once, no callback is
    /// owed.
    Rejected(BridgeError),
    /// The operation was scheduled; the request is to be sent and the
    /// operation completed with what comes back.
    Send {
        /// The operation's number
        operation: u64,
        /// The request to send
        request: RequestDescription,
    },
    /// The operation was scheduled, but there is nothing to send: it is to
    /// be completed with this error.
    Fail {
        /// The operation's number
        operation: u64,
        /// The error to complete it with
        error: BridgeError,
    },
}

/// A [`Begin`] with its strings as sequences of characters.
pub enum BeginView {
    /// Nothing was scheduled.
    Rejected(BridgeErrorView),
    /// The request is to be sent.
    Send { operation: u64, request: RequestView },
    /// The operation is to be completed with the error.
    Fail { operation: u64, error: BridgeErrorView },
}

impl View for Begin {
    type V = BeginView;

    open spec fn view(&self) -> BeginView {
        match *self {
            Begin::Rejected(e) => BeginView::Rejected(e@),
            Begin::Send { operation, request } => BeginView::Send { operation, request: request@ },
            Begin::Fail { operation, error } => BeginView::Fail { operation, error: error@ },
        }
    }
}

/// How a request begins, given whether its handle is live, what its text
/// describes and the book of the bridge. A handle that is not live is
/// turned down first, then a text that is no document or describes no
/// request. What is left has the shape of a request and is scheduled, if
/// an operation number is left: a request to be sent, or, where its method
/// is not known, a failure to be delivered.
pub open spec fn begin_of(
    live: bool,
    described: Result<RequestView, Result<RequestFault, Seq<char>>>,
    bridge: BridgeView,
) -> BeginView {
    if !live {
        BeginView::Rejected(BridgeErrorView::Other(unknown_handle_text()))
    } else {
        match described {
            Err(Err(message)) => BeginView::Rejected(BridgeErrorView::Other(message)),
            Err(Ok(RequestFault::UnknownMethod)) => if bridge.has_room() {
                BeginView::Fail {
                    operation: bridge.next as u64,
                    error: BridgeErrorView::Other(request_fault_text(RequestFault::UnknownMethod)),
                }
            } else {
                BeginView::Rejected(BridgeErrorView::Other(exhausted_text()))
            },
            Err(Ok(fault)) => BeginView::Rejected(
                BridgeErrorView::Other(request_fault_text(fault)),
            ),
            Ok(request) => if bridge.has_room() {
                BeginView::Send { operation: bridge.next as u64, request }
            } else {
                BeginView::Rejected(BridgeErrorView::Other(exhausted_text()))
            },
        }
    }
}

/// A text that does not have the shape of a request is turned down at
/// once, whatever method it names: nothing is scheduled and no callback is
/// owed. Only a document of the right shape can fail through its callback.
pub proof fn lemma_malformed_request_is_turned_down(
    live: bool,
    bytes: Seq<u8>,
    document: Json,
    bridge: BridgeView,
)
    ensures
        json_document(bytes) is Err ==> begin_of(live, request_of_text(bytes), bridge) is Rejected,
        ({
            &&& json_document(bytes) == Ok::<Json, Seq<char>>(document)
            &&& (document.member_text("method"@) is Err || document.member_text("path"@) is Err
                || headers_of(document.member("headers"@)) is Err)
        }) ==> begin_of(live, request_of_text(bytes), bridge) is Rejected,
        ({
            &&& json_document(bytes) == Ok::<Json, Seq<char>>(document)
            &&& begin_of(live, request_of_text(bytes), bridge) is Fail
        }) ==> {
            &&& document.member_text("method"@) is Ok
            &&& document.member_text("path"@) is Ok
            &&& headers_of(document.member("headers"@)) is Ok
        },
{
}

/// A request for `GET` on a path, without body and without headers, on a
/// live handle is scheduled and sent as it is described: the method `GET`,
/// the path, no body, no header. The body that the transport answers with
/// is what the callback carries, character for character.
pub proof fn lemma_plain_get_is_sent_and_answered(
    bytes: Seq<u8>,
    document: Json,
    path: Seq<char>,
    bridge: BridgeView,
    body: String,
)
    ensures
        ({
            &&& json_document(bytes) == Ok::<Json, Seq<char>>(document)
            &&& document.member_text("method"@) == Ok::<Seq<char>, MemberFault>("GET"@)
            &&& uppercased("GET"@) == "GET"@
            &&& document.member_text("path"@) == Ok::<Seq<char>, MemberFault>(path)
            &&& (document.member("data"@) is None || document.member("data"@) == Some(Json::Null))
            &&& (document.member("headers"@) is None || document.member("headers"@) == Some(
                Json::Null,
            ))
            &&& bridge.has_room()
        }) ==> begin_of(true, request_of_text(bytes), bridge) == (BeginView::Send {
            operation: bridge.next as u64,
            request: RequestView {
                method: Method::Get,
                path,
                data: None,
                headers: Seq::empty(),
            },
        }),
        callback_of(Ok::<String, BridgeError>(body)) == Ok::<Seq<char>, SimpleErrorView>(body@),
{
}

/// Begins a request on `handle`: the handle is resolved, the description is
/// read, and the operation is scheduled. A handle that is not live and a
/// text that describes no request are turned down at once, and nothing is
/// scheduled. A description of the right shape whose method is not known
/// is scheduled and fails through its callback.
pub fn begin_request<T>(registry: &Registry<T>, bridge: &mut Bridge, handle: i64, text: &str) -> (r:
    Begin)
    requires
        old(bridge)@.well_formed(),
    ensures
        final(bridge)@.well_formed(),
        r@ == begin_of(
            registry@.live.contains_key(handle),
            request_of_text(text.spec_bytes()),
            old(bridge)@,
        ),
        final(bridge)@ == if r is Rejected {
            old(bridge)@
        } else {
            old(bridge)@.after_schedule(handle)
        },
        r matches Begin::Send { request, .. } ==> request.well_formed(),
{
    if !registry.is_live(handle) {
        return Begin::Rejected(BridgeError::Other(String::from_str("unknown or released handle")));
    }
    match RequestDescription::parse(text) {
        Err(RequestError::Document(message)) => Begin::Rejected(BridgeError::Other(message)),
        Err(RequestError::Shape(RequestFault::UnknownMethod)) => match bridge.schedule(handle) {
            Some(operation) => Begin::Fail {
                operation,
                error: BridgeError::Other(
                    String::from_str(RequestFault::UnknownMethod.describe()),
                ),
            },
            None => Begin::Rejected(
                BridgeError::Other(String::from_str("no operation can be scheduled")),
            ),
        },
        Err(RequestError::Shape(fault)) => Begin::Rejected(
            BridgeError::Other(String::from_str(fault.describe())),
        ),
        Ok(request) => match bridge.schedule(handle) {
            Some(operation) => Begin::Send { operation, request },
            None => Begin::Rejected(
                BridgeError::Other(String::from_str("no operation can be scheduled")),
            ),
        },
    }
}

} // verus!
