//! The worker that polls the mailbox and answers the requests it finds.
//!
//! One pass is a poll, then the requests of the batch one after another,
//! then a sleep. A request is answered only when its sender is the address
//! registered for its identifier; after each mail that went out the worker
//! waits before it turns to the next request. A request to stop is kept in
//! a single slot and looked at once per pass, when the sleep has ended.

use vstd::prelude::*;
use crate::config::MailConfig;
use crate::error::Failure;
use crate::mail::receive::{RequestView, ResetPasswordRequest, UnreadMails};
use crate::student::{check_student_email, Registry};

verus! {

/// Where the mail worker stands.
#[derive(Clone, Copy, Debug, PartialEq, Eq, Structural)]
pub enum MailPhase {
    /// A poll of the mailbox is under way.
    Polling,
    /// The mail for the current request is being sent.
    Sending,
    /// The current request has been turned down and is being logged.
    Rejecting,
    /// The worker waits after a mail that went out.
    Throttling,
    /// The worker sleeps between two passes.
    Resting,
    /// The worker has ended on request.
    Stopped,
}

/// What happened to what the worker asked for.
pub enum MailEvent {
    /// The poll is over; `None` when it failed.
    Polled(Option<UnreadMails>),
    /// The mail was handed to the mail server, or (`false`) could not be.
    Sent(bool),
    /// The rejection has been logged.
    Noted,
    /// The wait is over.
    Waited,
}

/// What the worker asks for.
pub enum MailAction {
    /// Poll the mailbox.
    Poll,
    /// Issue a token for `student_id` and mail it to `to`.
    Send { to: String, student_id: String },
    /// Log that the request was turned down; nothing is sent.
    Reject { email: String, student_id: String, reason: Failure },
    /// Wait for this many seconds.
    Wait(u64),
    /// End the worker.
    Stop,
}

/// The mail worker.
pub struct MailWorker {
    phase: MailPhase,
    queue: Vec<ResetPasswordRequest>,
    cursor: usize,
    send_duration: u64,
    check_duration: u64,
    stop_requested: bool,
}

/// The content of a [`MailWorker`].
pub struct MailWorkerView {
    pub phase: MailPhase,
    /// The requests of the batch at hand.
    pub queue: Seq<RequestView>,
    /// How many of them have been dealt with.
    pub cursor: nat,
    pub send_duration: u64,
    pub check_duration: u64,
    pub stop_requested: bool,
}

/// Whether `request` comes from the address registered for its identifier.
pub open spec fn authorized(registry: Map<Seq<char>, Seq<char>>, request: RequestView) -> bool {
    registry.contains_key(request.student_id) && registry[request.student_id] == request.email
}

/// The worker as it turns to the request at its cursor: it sends when the
/// request is authorized, turns it down when it is not, and goes to sleep
/// when the batch is done.
pub open spec fn turned_to_next(worker: MailWorkerView, registry: Map<Seq<char>, Seq<char>>) -> MailWorkerView {
    if worker.cursor >= worker.queue.len() {
        MailWorkerView { phase: MailPhase::Resting, ..worker }
    } else if authorized(registry, worker.queue[worker.cursor as int]) {
        MailWorkerView { phase: MailPhase::Sending, ..worker }
    } else {
        MailWorkerView { phase: MailPhase::Rejecting, ..worker }
    }
}

/// The requests that a poll gave.
pub open spec fn polled_requests(polled: Option<UnreadMails>) -> Seq<RequestView> {
    match polled {
        Some(mails) => mails@.parsed,
        None => Seq::empty(),
    }
}

/// The worker after `event`, with `registry` as the registry of that
/// moment.
///
/// A poll that failed gives an empty batch. A mail that went out is followed
/// by a wait; one that did not, and a request that was turned down, by the
/// next request at once. The stop request is looked at when the sleep
/// between two passes has ended, and nowhere else. An event that the worker
/// is not waiting for changes nothing.
pub open spec fn mail_step(
    worker: MailWorkerView,
    event: MailEvent,
    registry: Map<Seq<char>, Seq<char>>,
) -> MailWorkerView {
    match (worker.phase, event) {
        (MailPhase::Polling, MailEvent::Polled(polled)) => turned_to_next(
            MailWorkerView { queue: polled_requests(polled), cursor: 0, ..worker },
            registry,
        ),
        (MailPhase::Sending, MailEvent::Sent(true)) => MailWorkerView {
            phase: MailPhase::Throttling,
            cursor: worker.cursor + 1,
            ..worker
        },
        (MailPhase::Sending, MailEvent::Sent(false)) => turned_to_next(
            MailWorkerView { cursor: worker.cursor + 1, ..worker },
            registry,
        ),
        (MailPhase::Rejecting, MailEvent::Noted) => turned_to_next(
            MailWorkerView { cursor: worker.cursor + 1, ..worker },
            registry,
        ),
        (MailPhase::Throttling, MailEvent::Waited) => turned_to_next(worker, registry),
        (MailPhase::Resting, MailEvent::Waited) => if worker.stop_requested {
            MailWorkerView { phase: MailPhase::Stopped, ..worker }
        } else {
            MailWorkerView { phase: MailPhase::Polling, ..worker }
        },
        _ => worker,
    }
}

/// Whether `action` is what a worker in the state `worker` is waiting for.
pub open spec fn is_pending(action: MailAction, worker: MailWorkerView) -> bool {
    match worker.phase {
        MailPhase::Polling => action is Poll,
        MailPhase::Sending => {
            &&& worker.cursor < worker.queue.len()
            &&& action matches MailAction::Send { to, student_id }
            &&& to@ == worker.queue[worker.cursor as int].email
            &&& student_id@ == worker.queue[worker.cursor as int].student_id
        },
        MailPhase::Rejecting => {
            &&& worker.cursor < worker.queue.len()
            &&& action matches MailAction::Reject { email, student_id, reason }
            &&& email@ == worker.queue[worker.cursor as int].email
            &&& student_id@ == worker.queue[worker.cursor as int].student_id
            &&& reason == Failure::AuthorizationMismatch
        },
        MailPhase::Throttling => action matches MailAction::Wait(seconds) && seconds
            == worker.send_duration,
        MailPhase::Resting => action matches MailAction::Wait(seconds) && seconds
            == worker.check_duration,
        MailPhase::Stopped => action is Stop,
    }
}

impl View for MailWorker {
    type V = MailWorkerView;

    closed spec fn view(&self) -> MailWorkerView {
        MailWorkerView {
            phase: self.phase,
            queue: self.queue@.map_values(|r: ResetPasswordRequest| r@),
            cursor: self.cursor as nat,
            send_duration: self.send_duration,
            check_duration: self.check_duration,
            stop_requested: self.stop_requested,
        }
    }
}

impl MailWorker {
    #[verifier::type_invariant]
    spec fn well_formed(self) -> bool {
        &&& self.cursor <= self.queue@.len()
        &&& (self.phase == MailPhase::Sending || self.phase == MailPhase::Rejecting)
            ==> self.cursor < self.queue@.len()
    }

    /// Where the worker stands.
    pub fn phase(&self) -> (phase: MailPhase)
        ensures
            phase == self@.phase,
    {
        self.phase
    }

    /// Turns to the request at the cursor.
    fn turn_to_next(
        queue: Vec<ResetPasswordRequest>,
        cursor: usize,
        send_duration: u64,
        check_duration: u64,
        stop_requested: bool,
        registry: &Registry,
    ) -> (next: (MailWorker, MailAction))
        requires
            cursor <= queue@.len(),
        ensures
            next.0@ == turned_to_next(
                MailWorkerView {
                    phase: MailPhase::Polling,
                    queue: queue@.map_values(|r: ResetPasswordRequest| r@),
                    cursor: cursor as nat,
                    send_duration,
                    check_duration,
                    stop_requested,
                },
                registry@,
            ),
            is_pending(next.1, next.0@),
    {
        if cursor >= queue.len() {
            let worker = MailWorker {
                phase: MailPhase::Resting,
                queue,
                cursor,
                send_duration,
                check_duration,
                stop_requested,
            };
            (worker, MailAction::Wait(check_duration))
        } else {
            let request = &queue[cursor];
            let email = request.email.clone();
            let student_id = request.student_id.clone();
            if check_student_email(registry, request.student_id.as_str(), request.email.as_str()) {
                let worker = MailWorker {
                    phase: MailPhase::Sending,
                    queue,
                    cursor,
                    send_duration,
                    check_duration,
                    stop_requested,
                };
                (worker, MailAction::Send { to: email, student_id })
            } else {
                let worker = MailWorker {
                    phase: MailPhase::Rejecting,
                    queue,
                    cursor,
                    send_duration,
                    check_duration,
                    stop_requested,
                };
                (
                    worker,
                    MailAction::Reject {
                        email,
                        student_id,
                        reason: Failure::AuthorizationMismatch,
                    },
                )
            }
        }
    }

    /// What the worker is waiting for.
    fn pending(&self) -> (action: MailAction)
        ensures
            is_pending(action, self@),
    {
        proof {
            use_type_invariant(self);
        }
        match self.phase {
            MailPhase::Polling => MailAction::Poll,
            MailPhase::Sending => MailAction::Send {
                to: self.queue[self.cursor].email.clone(),
                student_id: self.queue[self.cursor].student_id.clone(),
            },
            MailPhase::Rejecting => MailAction::Reject {
                email: self.queue[self.cursor].email.clone(),
                student_id: self.queue[self.cursor].student_id.clone(),
                reason: Failure::AuthorizationMismatch,
            },
            MailPhase::Throttling => MailAction::Wait(self.send_duration),
            MailPhase::Resting => MailAction::Wait(self.check_duration),
            MailPhase::Stopped => MailAction::Stop,
        }
    }

    /// Takes what happened and says what to do next. `registry` is the
    /// registry as it stands now.
    pub fn advance(self, event: MailEvent, registry: &Registry) -> (next: (MailWorker, MailAction))
        ensures
            next.0@ == mail_step(self@, event, registry@),
            is_pending(next.1, next.0@),
    {
        proof {
            use_type_invariant(&self);
        }
        let ghost before = self@;
        match (self.phase, event) {
            (MailPhase::Polling, MailEvent::Polled(polled)) => {
                let queue = match polled {
                    Some(mails) => mails.parsed,
                    None => Vec::new(),
                };
                assert(queue@.map_values(|r: ResetPasswordRequest| r@) =~= polled_requests(polled));
                MailWorker::turn_to_next(
                    queue,
                    0,
                    self.send_duration,
                    self.check_duration,
                    self.stop_requested,
                    registry,
                )
            },
            (MailPhase::Sending, MailEvent::Sent(true)) => {
                let MailWorker { phase, queue, cursor, send_duration, check_duration, stop_requested } =
                    self;
                let total = queue.len();
                let worker = MailWorker {
                    phase: MailPhase::Throttling,
                    queue,
                    cursor: cursor + 1,
                    send_duration,
                    check_duration,
                    stop_requested,
                };
                (worker, MailAction::Wait(send_duration))
            },
            (MailPhase::Sending, MailEvent::Sent(false)) | (MailPhase::Rejecting, MailEvent::Noted) => {
                let MailWorker { phase, queue, cursor, send_duration, check_duration, stop_requested } =
                    self;
                let total = queue.len();
                MailWorker::turn_to_next(
                    queue,
                    cursor + 1,
                    send_duration,
                    check_duration,
                    stop_requested,
                    registry,
                )
            },
            (MailPhase::Throttling, MailEvent::Waited) => {
                let MailWorker { phase, queue, cursor, send_duration, check_duration, stop_requested } =
                    self;
                MailWorker::turn_to_next(
                    queue,
                    cursor,
                    send_duration,
                    check_duration,
                    stop_requested,
                    registry,
                )
            },
            (MailPhase::Resting, MailEvent::Waited) => {
                let MailWorker { phase, queue, cursor, send_duration, check_duration, stop_requested } =
                    self;
                if stop_requested {
                    let worker = MailWorker {
                        phase: MailPhase::Stopped,
                        queue,
                        cursor,
                        send_duration,
                        check_duration,
                        stop_requested,
                    };
                    (worker, MailAction::Stop)
                } else {
                    let worker = MailWorker {
                        phase: MailPhase::Polling,
                        queue,
                        cursor,
                        send_duration,
                        check_duration,
                        stop_requested,
                    };
                    (worker, MailAction::Poll)
                }
            },
            _ => {
                let action = self.pending();
                (self, action)
            },
        }
    }
}

/// Sets the worker up: it begins with a poll.
pub fn spin_up_mail_worker(config: &MailConfig) -> (begun: (MailWorker, MailAction))
    ensures
        begun.0@ == (MailWorkerView {
            phase: MailPhase::Polling,
            queue: Seq::empty(),
            cursor: 0,
            send_duration: config.send_duration,
            check_duration: config.check_duration,
            stop_requested: false,
        }),
        begun.1 is Poll,
{
    let worker = MailWorker {
        phase: MailPhase::Polling,
        queue: Vec::new(),
        cursor: 0,
        send_duration: config.send_duration,
        check_duration: config.check_duration,
        stop_requested: false,
    };
    assert(worker@.queue =~= Seq::empty());
    (worker, MailAction::Poll)
}

/// Asks the worker to stop. The request is kept until the worker looks at
/// it; asking again changes nothing.
pub fn shutdown_mail_worker(worker: &mut MailWorker)
    ensures
        final(worker)@ == (MailWorkerView { stop_requested: true, ..old(worker)@ }),
{
    proof {
        use_type_invariant(&*worker);
    }
    worker.stop_requested = true;
}

/// The worker ends only where it looks at the stop request: when the sleep
/// between two passes has ended and a stop was asked for. A poll in
/// progress, a mail being sent and the wait behind it are never cut short.
pub proof fn lemma_mail_worker_stops_only_between_passes(
    worker: MailWorkerView,
    event: MailEvent,
    registry: Map<Seq<char>, Seq<char>>,
)
    requires
        worker.phase != MailPhase::Stopped,
    ensures
        mail_step(worker, event, registry).phase == MailPhase::Stopped <==> (worker.phase
            == MailPhase::Resting && event is Waited && worker.stop_requested),
        mail_step(worker, event, registry).stop_requested == worker.stop_requested,
{
}

/// A request whose sender is not the registered address is never answered:
/// the worker turns to it in the phase `Rejecting`, where the only thing it
/// asks for is the log entry, and a mail that it sends from there is for a
/// later request.
pub proof fn lemma_mismatch_is_never_answered(
    worker: MailWorkerView,
    registry: Map<Seq<char>, Seq<char>>,
    action: MailAction,
)
    requires
        worker.cursor < worker.queue.len(),
        !authorized(registry, worker.queue[worker.cursor as int]),
        is_pending(action, turned_to_next(worker, registry)),
    ensures
        turned_to_next(worker, registry).phase == MailPhase::Rejecting,
        action matches MailAction::Reject { reason, .. } && reason
            == Failure::AuthorizationMismatch,
        forall|event: MailEvent, later: Map<Seq<char>, Seq<char>>|
            (#[trigger] mail_step(turned_to_next(worker, registry), event, later)).phase
                == MailPhase::Sending ==> mail_step(
                turned_to_next(worker, registry),
                event,
                later,
            ).cursor == worker.cursor + 1,
{
}

/// After a mail that went out the worker waits for the configured delay
/// before it turns to the next request.
pub proof fn lemma_delay_follows_each_mail(
    worker: MailWorkerView,
    registry: Map<Seq<char>, Seq<char>>,
    action: MailAction,
)
    requires
        worker.phase == MailPhase::Sending,
        is_pending(action, mail_step(worker, MailEvent::Sent(true), registry)),
    ensures
        mail_step(worker, MailEvent::Sent(true), registry).phase == MailPhase::Throttling,
        action matches MailAction::Wait(seconds) && seconds == worker.send_duration,
{
}

} // verus!
