use vstd::prelude::*;

use std::collections::HashMap;

use crate::error::{DispatchError, Error};
use crate::numbers::{average_of, ring_put, NumberBuffer, NUM_VEC_LEN};
use crate::remote::{build_request, HttpRequest, HTTP_REMOTE_REQUEST};

verus! {

broadcast use vstd::std_specs::hash::group_hash_axioms;

/// Accounts are named by numbers.
pub type AccountId = u64;

/// The task that a worker reads on each fetch.
pub const TASK_SENTINEL: u32 = 1;

/// Who dispatched a call.
#[derive(Clone, Copy, Debug, PartialEq, Eq)]
pub enum Origin {
    /// A transaction signed by this account.
    Signed(AccountId),
    /// An unsigned transaction, admitted by the pool's policy.
    Unsigned,
    /// The ledger itself.
    Root,
}

/// A pending fetch: the remote target and the `User-Agent` header value.
#[derive(Clone, Debug, PartialEq, Eq)]
pub struct TaskQueue {
    pub http_remote_reqst: Vec<u8>,
    pub http_header_usr: Vec<u8>,
}

/// A notification that the ledger raises.
#[derive(Clone, Copy, Debug, PartialEq, Eq)]
pub enum Event {
    /// A number was accepted into the ring, from this account or unsigned.
    NewNumber(Option<AccountId>, u64),
}

/// The operations that the ledger dispatches.
#[derive(Clone, Debug, PartialEq, Eq)]
pub enum Call {
    InsertNewTask(u32, Vec<u8>, Vec<u8>),
    EmptyTasks,
    SubmitAgentSigned(Vec<u8>),
    SubmitNumberSigned(u64),
    SubmitNumberUnsigned(u64),
}

/// The kind of a call, without its arguments.
#[derive(Clone, Copy, Debug, PartialEq, Eq)]
pub enum CallKind {
    InsertNewTask,
    EmptyTasks,
    SubmitAgentSigned,
    SubmitNumberSigned,
    SubmitNumberUnsigned,
}

/// The branch that one worker activation takes.
#[derive(Clone, Copy, Debug, PartialEq, Eq)]
pub enum Activation {
    /// A task was queued: run the fetch.
    Fetch,
    /// No task was queued: submit the cached agent.
    SubmitAgent,
}

/// The kind of a call.
pub open spec fn kind_of(c: Call) -> CallKind {
    match c {
        Call::InsertNewTask(..) => CallKind::InsertNewTask,
        Call::EmptyTasks => CallKind::EmptyTasks,
        Call::SubmitAgentSigned(_) => CallKind::SubmitAgentSigned,
        Call::SubmitNumberSigned(_) => CallKind::SubmitNumberSigned,
        Call::SubmitNumberUnsigned(_) => CallKind::SubmitNumberUnsigned,
    }
}

impl Call {
    pub fn kind(&self) -> (r: CallKind)
        ensures
            r == kind_of(*self),
    {
        match self {
            Call::InsertNewTask(..) => CallKind::InsertNewTask,
            Call::EmptyTasks => CallKind::EmptyTasks,
            Call::SubmitAgentSigned(_) => CallKind::SubmitAgentSigned,
            Call::SubmitNumberSigned(_) => CallKind::SubmitNumberSigned,
            Call::SubmitNumberUnsigned(_) => CallKind::SubmitNumberUnsigned,
        }
    }
}

impl TaskQueue {
    /// The task read where none was stored: both fields empty.
    pub fn empty() -> (r: TaskQueue)
        ensures
            r.http_remote_reqst@.len() == 0,
            r.http_header_usr@.len() == 0,
    {
        TaskQueue { http_remote_reqst: Vec::new(), http_header_usr: Vec::new() }
    }

    /// A copy with the same bytes.
    pub fn copy(&self) -> (r: TaskQueue)
        ensures
            r.http_remote_reqst@ == self.http_remote_reqst@,
            r.http_header_usr@ == self.http_header_usr@,
    {
        TaskQueue {
            http_remote_reqst: self.http_remote_reqst.clone(),
            http_header_usr: self.http_header_usr.clone(),
        }
    }
}

/// The account of a signed origin; `BadOrigin` for any other.
pub fn ensure_signed(origin: Origin) -> (r: Result<AccountId, DispatchError>)
    ensures
        origin matches Origin::Signed(who) ==> r == Ok::<AccountId, DispatchError>(who),
        !(origin is Signed) ==> r == Err::<AccountId, DispatchError>(DispatchError::BadOrigin),
{
    match origin {
        Origin::Signed(who) => Ok(who),
        _ => Err(DispatchError::BadOrigin),
    }
}

/// Succeeds for an unsigned origin only; `BadOrigin` for any other.
pub fn ensure_none(origin: Origin) -> (r: Result<(), DispatchError>)
    ensures
        origin is Unsigned ==> r is Ok,
        !(origin is Unsigned) ==> r == Err::<(), DispatchError>(DispatchError::BadOrigin),
{
    match origin {
        Origin::Unsigned => Ok(()),
        _ => Err(DispatchError::BadOrigin),
    }
}

/// The header bytes of task `id`: empty where no task is stored under `id`.
pub open spec fn header_of(tasks: Map<u32, TaskQueue>, id: u32) -> Seq<u8> {
    if tasks.contains_key(id) {
        tasks[id].http_header_usr@
    } else {
        Seq::empty()
    }
}

/// The ledger state that this module owns, with its dispatchable calls.
pub struct Module {
    numbers: NumberBuffer,
    task_queue_by_number: HashMap<u32, TaskQueue>,
    queue_available: bool,
    user_agent_on_chain: Vec<u8>,
    events: Vec<Event>,
}

impl Module {
    pub closed spec fn wf(&self) -> bool {
        self.numbers.wf()
    }

    /// The ring of recent numbers.
    pub closed spec fn numbers_ring(&self) -> NumberBuffer {
        self.numbers
    }

    /// The stored tasks by number.
    pub closed spec fn tasks(&self) -> Map<u32, TaskQueue> {
        self.task_queue_by_number@
    }

    /// Whether a task waits to be fetched.
    pub closed spec fn queue_flag(&self) -> bool {
        self.queue_available
    }

    /// The last agent submitted.
    pub closed spec fn agent(&self) -> Seq<u8> {
        self.user_agent_on_chain@
    }

    /// The notifications raised so far, oldest first.
    pub closed spec fn event_log(&self) -> Seq<Event> {
        self.events@
    }

    /// Fresh storage: no numbers, no tasks, no task waiting, no agent, no
    /// notifications.
    pub fn new() -> (r: Module)
        ensures
            r.wf(),
            r.numbers_ring()@.len() == 0,
            r.numbers_ring().slot() == 0,
            r.tasks().is_empty(),
            !r.queue_flag(),
            r.agent().len() == 0,
            r.event_log().len() == 0,
    {
        Module {
            numbers: NumberBuffer::new(),
            task_queue_by_number: HashMap::new(),
            queue_available: false,
            user_agent_on_chain: Vec::new(),
            events: Vec::new(),
        }
    }

    /// The numbers held, in slot order.
    pub fn numbers(&self) -> (r: Vec<u64>)
        ensures
            r@ == self.numbers_ring()@,
    {
        self.numbers.to_vec()
    }

    pub fn queue_available(&self) -> (r: bool)
        ensures
            r == self.queue_flag(),
    {
        self.queue_available
    }

    pub fn user_agent_on_chain(&self) -> (r: Vec<u8>)
        ensures
            r@ == self.agent(),
    {
        self.user_agent_on_chain.clone()
    }

    pub fn events(&self) -> (r: Vec<Event>)
        ensures
            r@ == self.event_log(),
    {
        self.events.clone()
    }

    /// The task stored under `id`, or an empty task where there is none.
    pub fn task_queue_by_number(&self, id: u32) -> (r: TaskQueue)
        ensures
            self.tasks().contains_key(id) ==> r.http_remote_reqst@ == self.tasks()[id].http_remote_reqst@,
            !self.tasks().contains_key(id) ==> r.http_remote_reqst@.len() == 0,
            r.http_header_usr@ == header_of(self.tasks(), id),
    {
        match self.task_queue_by_number.get(&id) {
            Some(t) => t.copy(),
            None => TaskQueue::empty(),
        }
    }

    /// Stores a task under `task_number`, over any task stored there, and
    /// flags the queue. Only a signed origin may do this.
    pub fn insert_new_task(
        &mut self,
        origin: Origin,
        task_number: u32,
        http_remote_reqst: Vec<u8>,
        http_header_usr: Vec<u8>,
    ) -> (r: Result<(), DispatchError>)
        requires
            old(self).wf(),
        ensures
            final(self).wf(),
            r is Ok <==> origin is Signed,
            r is Err ==> r == Err::<(), DispatchError>(DispatchError::BadOrigin) && *final(self) == *old(self),
            r is Ok ==> final(self).tasks() == old(self).tasks().insert(
                task_number,
                TaskQueue { http_remote_reqst, http_header_usr },
            ) && final(self).queue_flag() && final(self).numbers_ring() == old(self).numbers_ring()
                && final(self).agent() == old(self).agent() && final(self).event_log() == old(
                self,
            ).event_log(),
    {
        if let Err(e) = ensure_signed(origin) {
            return Err(e);
        }
        let task_queue = TaskQueue { http_remote_reqst, http_header_usr };
        self.task_queue_by_number.insert(task_number, task_queue);
        self.queue_available = true;
        Ok(())
    }

    /// Clears the queue flag; stored tasks stay. Only a signed origin may
    /// do this.
    pub fn empty_tasks(&mut self, origin: Origin) -> (r: Result<(), DispatchError>)
        requires
            old(self).wf(),
        ensures
            final(self).wf(),
            r is Ok <==> origin is Signed,
            r is Err ==> r == Err::<(), DispatchError>(DispatchError::BadOrigin) && *final(self) == *old(self),
            r is Ok ==> !final(self).queue_flag() && final(self).tasks() == old(self).tasks()
                && final(self).numbers_ring() == old(self).numbers_ring() && final(self).agent() == old(
                self,
            ).agent() && final(self).event_log() == old(self).event_log(),
    {
        if let Err(e) = ensure_signed(origin) {
            return Err(e);
        }
        self.queue_available = false;
        Ok(())
    }

    /// Records `agent` as the agent on the ledger, over the one before.
    /// Only a signed origin may do this.
    pub fn submit_agent_signed(&mut self, origin: Origin, agent: Vec<u8>) -> (r: Result<(), DispatchError>)
        requires
            old(self).wf(),
        ensures
            final(self).wf(),
            r is Ok <==> origin is Signed,
            r is Err ==> r == Err::<(), DispatchError>(DispatchError::BadOrigin) && *final(self) == *old(self),
            r is Ok ==> final(self).agent() == agent@ && final(self).tasks() == old(self).tasks()
                && final(self).queue_flag() == old(self).queue_flag() && final(self).numbers_ring()
                == old(self).numbers_ring() && final(self).event_log() == old(self).event_log(),
    {
        if let Err(e) = ensure_signed(origin) {
            return Err(e);
        }
        self.update_agent(agent);
        Ok(())
    }

    fn update_agent(&mut self, agent: Vec<u8>)
        ensures
            final(self).user_agent_on_chain == agent,
            final(self).numbers == old(self).numbers,
            final(self).task_queue_by_number == old(self).task_queue_by_number,
            final(self).queue_available == old(self).queue_available,
            final(self).events == old(self).events,
    {
        self.user_agent_on_chain = agent;
    }

    /// Writes `number` into the ring (appended while there is room, else
    /// over the slot of this write), raises `NewNumber(who, number)`, and
    /// returns the mean of the ring afterwards, rounded down.
    pub fn append_or_replace_number(&mut self, who: Option<AccountId>, number: u64) -> (average: u64)
        requires
            old(self).wf(),
        ensures
            final(self).wf(),
            final(self).numbers_ring()@ == ring_put(
                old(self).numbers_ring()@,
                old(self).numbers_ring().slot(),
                number,
            ),
            final(self).numbers_ring().slot() == (old(self).numbers_ring().slot() + 1) % (NUM_VEC_LEN as int),
            final(self).event_log() == old(self).event_log().push(Event::NewNumber(who, number)),
            average == average_of(final(self).numbers_ring()@),
            final(self).tasks() == old(self).tasks(),
            final(self).queue_flag() == old(self).queue_flag(),
            final(self).agent() == old(self).agent(),
    {
        self.numbers.append_or_replace(number);
        let average = self.numbers.average();
        self.events.push(Event::NewNumber(who, number));
        average
    }

    /// Writes `number` into the ring on behalf of the signing account.
    pub fn submit_number_signed(&mut self, origin: Origin, number: u64) -> (r: Result<(), DispatchError>)
        requires
            old(self).wf(),
        ensures
            final(self).wf(),
            r is Ok <==> origin is Signed,
            r is Err ==> r == Err::<(), DispatchError>(DispatchError::BadOrigin) && *final(self) == *old(self),
            r is Ok ==> final(self).numbers_ring()@ == ring_put(
                old(self).numbers_ring()@,
                old(self).numbers_ring().slot(),
                number,
            ) && final(self).numbers_ring().slot() == (old(self).numbers_ring().slot() + 1) % (
            NUM_VEC_LEN as int) && final(self).event_log() == old(self).event_log().push(
                Event::NewNumber(Some(origin->Signed_0), number),
            ) && final(self).tasks() == old(self).tasks() && final(self).queue_flag() == old(
                self,
            ).queue_flag() && final(self).agent() == old(self).agent(),
    {
        let who = match ensure_signed(origin) {
            Ok(who) => who,
            Err(e) => return Err(e),
        };
        self.append_or_replace_number(Some(who), number);
        Ok(())
    }

    /// Writes `number` into the ring with no account. Only an unsigned
    /// origin may do this.
    pub fn submit_number_unsigned(&mut self, origin: Origin, number: u64) -> (r: Result<(), DispatchError>)
        requires
            old(self).wf(),
        ensures
            final(self).wf(),
            r is Ok <==> origin is Unsigned,
            r is Err ==> r == Err::<(), DispatchError>(DispatchError::BadOrigin) && *final(self) == *old(self),
            r is Ok ==> final(self).numbers_ring()@ == ring_put(
                old(self).numbers_ring()@,
                old(self).numbers_ring().slot(),
                number,
            ) && final(self).numbers_ring().slot() == (old(self).numbers_ring().slot() + 1) % (
            NUM_VEC_LEN as int) && final(self).event_log() == old(self).event_log().push(
                Event::NewNumber(None, number),
            ) && final(self).tasks() == old(self).tasks() && final(self).queue_flag() == old(
                self,
            ).queue_flag() && final(self).agent() == old(self).agent(),
    {
        if let Err(e) = ensure_none(origin) {
            return Err(e);
        }
        self.append_or_replace_number(None, number);
        Ok(())
    }

    /// One worker activation's decision: with a task queued, the flag is
    /// cleared and the fetch runs; otherwise the cached agent is submitted.
    pub fn on_activation(&mut self) -> (r: Activation)
        requires
            old(self).wf(),
        ensures
            final(self).wf(),
            r == (if old(self).queue_flag() { Activation::Fetch } else { Activation::SubmitAgent }),
            !final(self).queue_flag(),
            final(self).tasks() == old(self).tasks(),
            final(self).numbers_ring() == old(self).numbers_ring(),
            final(self).agent() == old(self).agent(),
            final(self).event_log() == old(self).event_log(),
    {
        if self.queue_available {
            self.queue_available = false;
            Activation::Fetch
        } else {
            Activation::SubmitAgent
        }
    }

    /// The request of a fetch: the fixed endpoint, the header of task
    /// `TASK_SENTINEL` (empty where there is none), and a deadline
    /// `FETCH_TIMEOUT_MS` after `now_ms`; `HttpFetchingError3` where that
    /// header is not UTF-8.
    pub fn fetch_request(&self, now_ms: u64) -> (r: Result<HttpRequest, Error>)
        ensures
            !vstd::utf8::valid_utf8(header_of(self.tasks(), TASK_SENTINEL)) ==> r == Err::<
                HttpRequest,
                Error,
            >(Error::HttpFetchingError3),
            vstd::utf8::valid_utf8(header_of(self.tasks(), TASK_SENTINEL)) ==> (r matches Ok(req)
                && req.url@ == HTTP_REMOTE_REQUEST@ && req.user_agent@ == vstd::utf8::decode_utf8(
                header_of(self.tasks(), TASK_SENTINEL),
            ) && req.deadline_ms == crate::remote::deadline_after(now_ms)),
    {
        let task = self.task_queue_by_number(TASK_SENTINEL);
        let endpoint = HTTP_REMOTE_REQUEST.as_bytes();
        proof {
            vstd::utf8::encode_utf8_valid_utf8(HTTP_REMOTE_REQUEST@);
            vstd::utf8::encode_utf8_decode_utf8(HTTP_REMOTE_REQUEST@);
        }
        build_request(endpoint, task.http_header_usr.as_slice(), now_ms)
    }
}

} // verus!
