use vstd::prelude::*;
use crate::event::InputEvent;

verus! {

/// What one read of the device handle gave.
pub enum ReadOutcome {
    /// The next event.
    Event(InputEvent),
    /// Nothing to read now; the error says so.
    WouldBlock(std::io::Error),
    /// Any other failure.
    Failed(std::io::Error),
}

/// Why a read is made.
#[derive(Clone, Copy, Debug, PartialEq, Eq, Structural)]
pub enum ReadStage {
    /// The handle reported an event held in its own buffer.
    Buffered,
    /// The descriptor was reported readable.
    Woken,
}

/// The next thing a poll of the event source does.
pub enum PollAction {
    /// Ask the handle whether it holds a buffered event.
    CheckBuffer,
    /// Read one event.
    Read(ReadStage),
    /// Wait until the descriptor is readable.
    AwaitReadable,
    /// Hand this item to the consumer.
    Yield(Result<InputEvent, std::io::Error>),
}

/// A buffered event is read at once; otherwise the poll waits for the descriptor.
pub open spec fn start_action(has_pending: bool) -> PollAction {
    if has_pending {
        PollAction::Read(ReadStage::Buffered)
    } else {
        PollAction::AwaitReadable
    }
}

/// A readable descriptor is read; a failed wait is handed on.
pub open spec fn readable_action(r: Result<(), std::io::Error>) -> PollAction {
    match r {
        Ok(()) => PollAction::Read(ReadStage::Woken),
        Err(e) => PollAction::Yield(Err(e)),
    }
}

/// An event or an error is handed on, except a would-block after a wakeup,
/// which starts the poll over.
pub open spec fn read_action(stage: ReadStage, o: ReadOutcome) -> PollAction {
    match o {
        ReadOutcome::Event(ev) => PollAction::Yield(Ok(ev)),
        ReadOutcome::WouldBlock(e) => if stage == ReadStage::Woken {
            PollAction::CheckBuffer
        } else {
            PollAction::Yield(Err(e))
        },
        ReadOutcome::Failed(e) => PollAction::Yield(Err(e)),
    }
}

/// The first step of a poll.
pub fn poll_start(has_pending: bool) -> (r: PollAction)
    ensures
        r == start_action(has_pending),
{
    if has_pending {
        PollAction::Read(ReadStage::Buffered)
    } else {
        PollAction::AwaitReadable
    }
}

/// The step after waiting for the descriptor.
pub fn after_readable(r: Result<(), std::io::Error>) -> (a: PollAction)
    ensures
        a == readable_action(r),
{
    match r {
        Ok(()) => PollAction::Read(ReadStage::Woken),
        Err(e) => PollAction::Yield(Err(e)),
    }
}

/// The step after one read.
pub fn after_read(stage: ReadStage, o: ReadOutcome) -> (a: PollAction)
    ensures
        a == read_action(stage, o),
        stage == ReadStage::Woken && o is WouldBlock ==> a is CheckBuffer,
{
    match o {
        ReadOutcome::Event(ev) => PollAction::Yield(Ok(ev)),
        ReadOutcome::WouldBlock(e) => {
            if stage == ReadStage::Woken {
                PollAction::CheckBuffer
            } else {
                PollAction::Yield(Err(e))
            }
        },
        ReadOutcome::Failed(e) => PollAction::Yield(Err(e)),
    }
}

/// A device handle that reads ahead: the kernel's queue of unread events,
/// and the events that one read already took from the kernel but has not
/// handed out.
pub struct HandleModel {
    pub kernel: Seq<InputEvent>,
    pub buffered: Seq<InputEvent>,
}

/// Every event not yet handed out, oldest first.
pub open spec fn undelivered(d: HandleModel) -> Seq<InputEvent> {
    d.buffered + d.kernel
}

/// The kernel queues an event.
pub open spec fn inject(d: HandleModel, e: InputEvent) -> HandleModel {
    HandleModel { kernel: d.kernel.push(e), buffered: d.buffered }
}

/// The descriptor signals readability while the kernel holds unread events.
pub open spec fn is_readable(d: HandleModel) -> bool {
    d.kernel.len() > 0
}

/// One read: the oldest buffered event; with an empty buffer, one read of
/// the descriptor takes every queued event, hands out the first and keeps
/// the rest; `None` when there is nothing at all.
pub open spec fn model_read(d: HandleModel) -> Option<(InputEvent, HandleModel)> {
    if d.buffered.len() > 0 {
        Some((d.buffered[0], HandleModel { kernel: d.kernel, buffered: d.buffered.drop_first() }))
    } else if d.kernel.len() > 0 {
        Some((d.kernel[0], HandleModel { kernel: Seq::empty(), buffered: d.kernel.drop_first() }))
    } else {
        None
    }
}

/// A poll of the event source on the model, following the poll's steps:
/// the item handed out and the handle after it, or `None` where the poll
/// waits on a descriptor that is not readable.
pub open spec fn model_drive(d: HandleModel, a: PollAction, fuel: nat) -> Option<
    (Result<InputEvent, std::io::Error>, HandleModel),
>
    decreases fuel,
{
    if fuel == 0 {
        None
    } else {
        match a {
            PollAction::Yield(r) => Some((r, d)),
            PollAction::CheckBuffer => model_drive(d, start_action(d.buffered.len() > 0), (fuel - 1) as nat),
            PollAction::AwaitReadable => if is_readable(d) {
                model_drive(d, readable_action(Ok(())), (fuel - 1) as nat)
            } else {
                None
            },
            PollAction::Read(stage) => match model_read(d) {
                Some((ev, n)) => model_drive(n, read_action(stage, ReadOutcome::Event(ev)), (fuel - 1) as nat),
                None => None,
            },
        }
    }
}

/// One poll on the model, from its first step.
pub open spec fn model_poll(d: HandleModel) -> Option<(Result<InputEvent, std::io::Error>, HandleModel)> {
    model_drive(d, PollAction::CheckBuffer, 4)
}

/// A poll hands out the oldest undelivered event, whether it sits in the
/// handle's buffer or in the kernel, and waits only when nothing is left.
pub proof fn lemma_poll_takes_oldest(d: HandleModel)
    ensures
        undelivered(d).len() == 0 ==> model_poll(d) is None,
        undelivered(d).len() > 0 ==> {
            &&& model_poll(d) is Some
            &&& model_poll(d).unwrap().0 == Ok::<InputEvent, std::io::Error>(undelivered(d)[0])
            &&& undelivered(model_poll(d).unwrap().1) == undelivered(d).drop_first()
        },
{
    reveal_with_fuel(model_drive, 5);
    if d.buffered.len() > 0 {
        let n = HandleModel { kernel: d.kernel, buffered: d.buffered.drop_first() };
        assert(undelivered(n) =~= undelivered(d).drop_first());
    } else if d.kernel.len() > 0 {
        let n = HandleModel { kernel: Seq::empty(), buffered: d.kernel.drop_first() };
        assert(undelivered(d) =~= d.kernel);
        assert(undelivered(n) =~= undelivered(d).drop_first());
    }
}

/// One step of a session on the model: the kernel queues an event, or the
/// consumer polls the event source.
pub enum HandleOp {
    Inject(InputEvent),
    Poll,
}

/// The events a session queues, in order.
pub open spec fn injected(ops: Seq<HandleOp>) -> Seq<InputEvent>
    decreases ops.len(),
{
    if ops.len() == 0 {
        Seq::empty()
    } else {
        match ops[0] {
            HandleOp::Inject(e) => seq![e] + injected(ops.drop_first()),
            HandleOp::Poll => injected(ops.drop_first()),
        }
    }
}

/// The events a session hands to the consumer, in order, and the handle
/// at its end. A poll that waits hands out nothing.
pub open spec fn model_run(d: HandleModel, ops: Seq<HandleOp>) -> (Seq<InputEvent>, HandleModel)
    decreases ops.len(),
{
    if ops.len() == 0 {
        (Seq::empty(), d)
    } else {
        let (out, n) = match ops[0] {
            HandleOp::Inject(e) => (Seq::<InputEvent>::empty(), inject(d, e)),
            HandleOp::Poll => match model_poll(d) {
                Some((Ok(e), n)) => (seq![e], n),
                _ => (Seq::<InputEvent>::empty(), d),
            },
        };
        let (rest, last) = model_run(n, ops.drop_first());
        (out + rest, last)
    }
}

/// Over any session, the events handed out followed by those still
/// undelivered are exactly the events that were undelivered at its start
/// followed by those queued during it: none is lost, repeated or reordered,
/// also where one read took a whole batch into the handle's buffer.
pub proof fn lemma_session_keeps_order(d: HandleModel, ops: Seq<HandleOp>)
    ensures
        model_run(d, ops).0 + undelivered(model_run(d, ops).1) == undelivered(d) + injected(ops),
    decreases ops.len(),
{
    if ops.len() > 0 {
        let rest = ops.drop_first();
        match ops[0] {
            HandleOp::Inject(e) => {
                let n = inject(d, e);
                lemma_session_keeps_order(n, rest);
                assert(undelivered(n) =~= undelivered(d).push(e));
                assert(undelivered(d) + injected(ops) =~= undelivered(n) + injected(rest));
                assert(model_run(d, ops).0 =~= model_run(n, rest).0);
            },
            HandleOp::Poll => {
                lemma_poll_takes_oldest(d);
                match model_poll(d) {
                    Some((Ok(e), n)) => {
                        lemma_session_keeps_order(n, rest);
                        assert(undelivered(d) =~= seq![e] + undelivered(n));
                        assert(model_run(d, ops).0 =~= seq![e] + model_run(n, rest).0);
                        assert(undelivered(d) + injected(ops) =~= seq![e] + (undelivered(n)
                            + injected(rest)));
                    },
                    _ => {
                        lemma_session_keeps_order(d, rest);
                        assert(model_run(d, ops).0 =~= model_run(d, rest).0);
                    },
                }
            },
        }
    }
}

} // verus!
