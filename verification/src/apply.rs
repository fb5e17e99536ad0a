//! Carrying out position requests, one after the other.
//!
//! Each request takes up to three questions to the display system: which
//! device has the number, what its mode is, and the writing of that mode with
//! the new position. A request that fails at one of them is given up and
//! reported, and the next one is taken up. Nothing that went before is undone.

use vstd::prelude::*;
use crate::command::{request_views, PositionRequest, RequestView};
use crate::device::copy_name;
use crate::mode::{DisplayMode, ModeView};
use crate::system::{write_succeeded, Query, QueryView, Reply, ReplyView, WRITE_SUCCESSFUL};

verus! {

/// The step at which a request was given up.
#[derive(Clone, Copy, Debug, PartialEq, Eq, Structural)]
pub enum Failure {
    /// The enumeration has no device with the number.
    Resolve,
    /// The device has no current mode to read.
    Read,
    /// The display system did not take the new mode.
    Write,
}

impl Failure {
    /// The words in which the failure is told to the user.
    pub open spec fn message_text(self) -> Seq<char> {
        match self {
            Failure::Resolve => "Operation failed! Unable to connect to display."@,
            Failure::Read => "Operation failed! Unable to read display settings."@,
            Failure::Write => "Operation failed! Unable to write to display settings."@,
        }
    }

    /// The words in which the failure is told to the user.
    pub fn message(&self) -> (text: &'static str)
        ensures
            text@ == self.message_text(),
    {
        match self {
            Failure::Resolve => "Operation failed! Unable to connect to display.",
            Failure::Read => "Operation failed! Unable to read display settings.",
            Failure::Write => "Operation failed! Unable to write to display settings.",
        }
    }
}

/// How one request ended.
#[derive(Clone, Copy, Debug, PartialEq, Eq)]
pub struct Outcome {
    /// The request.
    pub request: PositionRequest,
    /// Where it failed, or `None` where the display was moved.
    pub failure: Option<Failure>,
}

/// What an [`Outcome`] holds.
pub ghost struct OutcomeView {
    pub request: RequestView,
    pub failure: Option<Failure>,
}

impl View for Outcome {
    type V = OutcomeView;

    open spec fn view(&self) -> OutcomeView {
        OutcomeView { request: self.request@, failure: self.failure }
    }
}

/// How far the request in hand has come.
#[derive(Debug)]
enum Phase {
    Resolving,
    Reading { device: Vec<u16> },
    Writing { device: Vec<u16>, mode: DisplayMode },
}

/// How far the request in hand has come.
pub ghost enum PhaseView {
    /// Its display is being looked up in the enumeration.
    Resolving,
    /// The mode of its device is being read.
    Reading { device: Seq<u16> },
    /// The mode with the new position is being written.
    Writing { device: Seq<u16>, mode: ModeView },
}

/// The state of a run over a list of requests, as mathematical values.
pub ghost struct ApplyView {
    /// All requests of the run, in the order given.
    pub requests: Seq<RequestView>,
    /// How many of them have ended.
    pub cursor: nat,
    /// How far the next one has come.
    pub phase: PhaseView,
}

impl ApplyView {
    /// The state before anything was asked.
    pub open spec fn start(requests: Seq<RequestView>) -> ApplyView {
        ApplyView { requests, cursor: 0, phase: PhaseView::Resolving }
    }

    /// No more requests have ended than there are, and past the last one
    /// nothing is in hand.
    pub open spec fn wf(self) -> bool {
        &&& self.cursor <= self.requests.len()
        &&& self.cursor == self.requests.len() ==> self.phase is Resolving
    }

    /// Every request has ended.
    pub open spec fn finished(self) -> bool {
        self.cursor >= self.requests.len()
    }

    /// The request in hand.
    pub open spec fn current(self) -> RequestView
        recommends
            !self.finished(),
    {
        self.requests[self.cursor as int]
    }

    /// A request is in hand and its display is being looked up.
    pub open spec fn resolving(self) -> bool {
        !self.finished() && self.phase is Resolving
    }

    /// The question that the run waits to have answered.
    pub open spec fn pending(self) -> Option<QueryView> {
        if self.finished() {
            None
        } else {
            match self.phase {
                PhaseView::Resolving => Some(
                    QueryView::enumerate((self.current().display - 1) as u32),
                ),
                PhaseView::Reading { device } => Some(QueryView::read_mode(device)),
                PhaseView::Writing { device, mode } => Some(QueryView::write_mode(device, mode)),
            }
        }
    }

    /// The state with the request in hand ended and the next one taken up.
    pub open spec fn moved_on(self) -> ApplyView {
        ApplyView { cursor: self.cursor + 1, phase: PhaseView::Resolving, ..self }
    }

    /// The state after `reply`. A reply that does not answer the pending
    /// question changes nothing.
    pub open spec fn after(self, reply: ReplyView) -> ApplyView {
        if self.finished() {
            self
        } else {
            match (self.phase, reply) {
                (PhaseView::Resolving, ReplyView::Device(Some(found))) => ApplyView {
                    phase: PhaseView::Reading { device: found.name },
                    ..self
                },
                (PhaseView::Resolving, ReplyView::Device(None)) => self.moved_on(),
                (PhaseView::Reading { device }, ReplyView::Mode(Some(mode))) => ApplyView {
                    phase: PhaseView::Writing {
                        device,
                        mode: mode.repositioned(self.current().x, self.current().y),
                    },
                    ..self
                },
                (PhaseView::Reading { .. }, ReplyView::Mode(None)) => self.moved_on(),
                (PhaseView::Writing { .. }, ReplyView::Written { .. }) => self.moved_on(),
                _ => self,
            }
        }
    }

    /// How the request in hand ends with `reply`, if it ends with it.
    pub open spec fn outcome(self, reply: ReplyView) -> Option<OutcomeView> {
        if self.finished() {
            None
        } else {
            match (self.phase, reply) {
                (PhaseView::Resolving, ReplyView::Device(None)) => Some(
                    OutcomeView { request: self.current(), failure: Some(Failure::Resolve) },
                ),
                (PhaseView::Reading { .. }, ReplyView::Mode(None)) => Some(
                    OutcomeView { request: self.current(), failure: Some(Failure::Read) },
                ),
                (PhaseView::Writing { .. }, ReplyView::Written { code }) => Some(
                    OutcomeView {
                        request: self.current(),
                        failure: if write_succeeded(code) {
                            None
                        } else {
                            Some(Failure::Write)
                        },
                    },
                ),
                _ => None,
            }
        }
    }
}

/// A run over a list of position requests.
#[derive(Debug)]
pub struct ApplyRun {
    requests: Vec<PositionRequest>,
    cursor: usize,
    phase: Phase,
}

impl Phase {
    spec fn view(self) -> PhaseView {
        match self {
            Phase::Resolving => PhaseView::Resolving,
            Phase::Reading { device } => PhaseView::Reading { device: device@ },
            Phase::Writing { device, mode } => PhaseView::Writing { device: device@, mode: mode@ },
        }
    }
}

impl View for ApplyRun {
    type V = ApplyView;

    closed spec fn view(&self) -> ApplyView {
        ApplyView {
            requests: request_views(self.requests@),
            cursor: self.cursor as nat,
            phase: self.phase.view(),
        }
    }
}

impl ApplyRun {
    #[verifier::type_invariant]
    spec fn within_requests(self) -> bool {
        &&& self.cursor <= self.requests@.len()
        &&& self.cursor == self.requests@.len() ==> self.phase is Resolving
    }

    /// A run over `requests`, with nothing asked yet.
    pub fn new(requests: Vec<PositionRequest>) -> (run: ApplyRun)
        ensures
            run@ == ApplyView::start(request_views(requests@)),
            run@.wf(),
    {
        ApplyRun { requests, cursor: 0, phase: Phase::Resolving }
    }

    /// Whether every request has ended.
    pub fn is_finished(&self) -> (finished: bool)
        ensures
            finished == self@.finished(),
    {
        proof {
            use_type_invariant(self);
        }
        self.cursor >= self.requests.len()
    }

    /// The request in hand, or `None` where every request has ended.
    pub fn current(&self) -> (request: Option<PositionRequest>)
        ensures
            request is None <==> self@.finished(),
            request matches Some(r) ==> r@ == self@.current(),
    {
        if self.cursor < self.requests.len() {
            Some(self.requests[self.cursor])
        } else {
            None
        }
    }

    /// The question to put to the display system next, or `None` where every
    /// request has ended.
    pub fn pending(&self) -> (query: Option<Query>)
        ensures
            self@.wf(),
            query is None <==> self@.pending() is None,
            query matches Some(q) ==> self@.pending() == Some(q@),
    {
        proof {
            use_type_invariant(self);
        }
        if self.cursor >= self.requests.len() {
            return None;
        }
        match &self.phase {
            Phase::Resolving => Some(Query::enumerate(self.requests[self.cursor].index())),
            Phase::Reading { device } => Some(Query::read_mode(copy_name(device))),
            Phase::Writing { device, mode } => Some(
                Query::write_mode(copy_name(device), mode.duplicate()),
            ),
        }
    }

    /// Takes the answer of the display system to the pending question. The
    /// result is the run in its next state and, where the request in hand has
    /// ended with this answer, how it ended.
    pub fn step(self, reply: Reply) -> (next: (ApplyRun, Option<Outcome>))
        ensures
            next.0@ == self@.after(reply@),
            next.1 is None <==> self@.outcome(reply@) is None,
            next.1 matches Some(outcome) ==> self@.outcome(reply@) == Some(outcome@),
            next.0@.wf(),
    {
        proof {
            use_type_invariant(&self);
        }
        if self.cursor >= self.requests.len() {
            return (self, None);
        }
        let request: PositionRequest = self.requests[self.cursor];
        let ended: usize = self.cursor + 1;
        let next: (ApplyRun, Option<Outcome>) = match (self.phase, reply) {
            (Phase::Resolving, Reply::Device(Some(found))) => (
                ApplyRun {
                    requests: self.requests,
                    cursor: self.cursor,
                    phase: Phase::Reading { device: found.name },
                },
                None,
            ),
            (Phase::Resolving, Reply::Device(None)) => (
                ApplyRun { requests: self.requests, cursor: ended, phase: Phase::Resolving },
                Some(Outcome { request, failure: Some(Failure::Resolve) }),
            ),
            (Phase::Reading { device }, Reply::Mode(Some(mode))) => (
                ApplyRun {
                    requests: self.requests,
                    cursor: self.cursor,
                    phase: Phase::Writing {
                        device,
                        mode: mode.reposition(request.x(), request.y()),
                    },
                },
                None,
            ),
            (Phase::Reading { .. }, Reply::Mode(None)) => (
                ApplyRun { requests: self.requests, cursor: ended, phase: Phase::Resolving },
                Some(Outcome { request, failure: Some(Failure::Read) }),
            ),
            (Phase::Writing { .. }, Reply::Written { code }) => {
                let failure: Option<Failure> = if code == WRITE_SUCCESSFUL {
                    None
                } else {
                    Some(Failure::Write)
                };
                (
                    ApplyRun { requests: self.requests, cursor: ended, phase: Phase::Resolving },
                    Some(Outcome { request, failure }),
                )
            },
            (phase, _) => (
                ApplyRun { requests: self.requests, cursor: self.cursor, phase },
                None,
            ),
        };
        proof {
            use_type_invariant(&next.0);
        }
        next
    }
}

impl ApplyView {
    /// The state after `replies`, taken one after the other.
    pub open spec fn run(self, replies: Seq<ReplyView>) -> ApplyView
        decreases replies.len(),
    {
        if replies.len() == 0 {
            self
        } else {
            self.run(replies.drop_last()).after(replies.last())
        }
    }

    /// The state in which reply number `i` of `replies` arrives.
    pub open spec fn at(self, replies: Seq<ReplyView>, i: int) -> ApplyView {
        self.run(replies.take(i))
    }

    /// Reply number `i` of `replies` answers the question that is pending
    /// when it arrives.
    pub open spec fn answered_at(self, replies: Seq<ReplyView>, i: int) -> bool {
        match self.at(replies, i).pending() {
            Some(query) => query.answered_by(replies[i]),
            None => false,
        }
    }

    /// Every one of `replies` answers the question that is pending when it
    /// arrives: the display system is asked one question at a time and its
    /// answer is handed back before the next.
    pub open spec fn answered_throughout(self, replies: Seq<ReplyView>) -> bool {
        forall|i: int| 0 <= i < replies.len() ==> #[trigger] self.answered_at(replies, i)
    }

    /// How many questions at least have been answered in this state.
    pub open spec fn progress(self) -> nat {
        3 * self.cursor + match self.phase {
            PhaseView::Resolving => 0nat,
            PhaseView::Reading { .. } => 1nat,
            PhaseView::Writing { .. } => 2nat,
        }
    }
}

/// An answer to the pending question takes the run forward: to the next
/// question of the request in hand, or to the next request.
pub proof fn lemma_answer_advances(state: ApplyView, reply: ReplyView)
    requires
        state.wf(),
        state.pending() matches Some(query) && query.answered_by(reply),
    ensures
        state.after(reply).wf(),
        state.after(reply).requests == state.requests,
        state.after(reply).progress() > state.progress(),
        state.after(reply).cursor == state.cursor || state.after(reply) == state.moved_on(),
{
}

/// The state in which a reply arrives is the state after the reply before
/// it.
pub proof fn lemma_at_next(start: ApplyView, replies: Seq<ReplyView>, i: int)
    requires
        0 <= i < replies.len(),
    ensures
        start.at(replies, i + 1) == start.at(replies, i).after(replies[i]),
        start.at(replies, 0) == start,
        start.at(replies, replies.len() as int) == start.run(replies),
{
    assert(replies.take(i + 1).drop_last() =~= replies.take(i));
    assert(replies.take(replies.len() as int) =~= replies);
}

/// While the replies answer the questions, the run stays well formed, keeps
/// its requests, and moves forward with every reply.
pub proof fn lemma_progress(start: ApplyView, replies: Seq<ReplyView>, i: int, j: int)
    requires
        start.wf(),
        start.answered_throughout(replies),
        0 <= i <= j <= replies.len(),
    ensures
        start.at(replies, j).wf(),
        start.at(replies, j).requests == start.requests,
        start.at(replies, i).progress() + (j - i) <= start.at(replies, j).progress(),
    decreases j,
{
    if j == 0 {
        assert(replies.take(0) =~= Seq::<ReplyView>::empty());
    } else {
        let earlier = if i < j {
            i
        } else {
            0
        };
        lemma_progress(start, replies, earlier, j - 1);
        assert(start.answered_at(replies, j - 1));
        lemma_at_next(start, replies, j - 1);
        lemma_answer_advances(start.at(replies, j - 1), replies[j - 1]);
    }
}

/// The display of a request is looked up at the place one before its number:
/// the enumeration counts from zero, the requests from one.
pub proof fn resolving_asks_for_the_place_before_the_number(state: ApplyView)
    requires
        state.resolving(),
        state.current().display >= 1,
    ensures
        state.pending() matches Some(QueryView::Enumerate { index, flags }) && index
            == state.current().display - 1 && flags == crate::system::INTERFACE_NAME,
{
}

/// No request has its display looked up twice: of two moments at which the
/// enumeration is asked, the later belongs to a later request.
pub proof fn each_request_is_resolved_once(
    start: ApplyView,
    replies: Seq<ReplyView>,
    i: int,
    j: int,
)
    requires
        start.wf(),
        start.answered_throughout(replies),
        0 <= i < j <= replies.len(),
        start.at(replies, i).resolving(),
        start.at(replies, j).resolving(),
    ensures
        start.at(replies, i).cursor < start.at(replies, j).cursor,
{
    lemma_progress(start, replies, i, j);
}

/// Every request is taken up: before a run has gone past request number `k`
/// there was a moment at which the display of that request was looked up,
/// however the requests before it ended.
pub proof fn every_request_is_attempted(start: ApplyView, replies: Seq<ReplyView>, k: nat)
    requires
        start.wf(),
        start.phase is Resolving,
        start.answered_throughout(replies),
        start.cursor <= k <= start.run(replies).cursor,
        k < start.requests.len(),
    ensures
        exists|i: int|
            0 <= i <= replies.len() && (#[trigger] start.at(replies, i)).cursor == k && start.at(
                replies,
                i,
            ).resolving(),
    decreases replies.len(),
{
    let n = replies.len() as int;
    if n == 0 {
        assert(replies.take(0) =~= replies);
        assert(start.at(replies, 0).cursor == k);
    } else {
        let before = replies.drop_last();
        lemma_progress(start, replies, 0, n - 1);
        lemma_at_next(start, replies, n - 1);
        assert(start.answered_at(replies, n - 1));
        lemma_answer_advances(start.at(replies, n - 1), replies[n - 1]);
        assert(replies.take(n - 1) =~= before);
        if k <= start.run(before).cursor {
            assert forall|i: int| 0 <= i < before.len() implies #[trigger] start.answered_at(
                before,
                i,
            ) by {
                assert(start.answered_at(replies, i));
                assert(before.take(i) =~= replies.take(i));
            }
            every_request_is_attempted(start, before, k);
            let i = choose|i: int|
                0 <= i <= before.len() && (#[trigger] start.at(before, i)).cursor == k && start.at(
                    before,
                    i,
                ).resolving();
            assert(before.take(i) =~= replies.take(i));
            assert(start.at(replies, i).cursor == k && start.at(replies, i).resolving());
        } else {
            lemma_progress(start, replies, 0, n);
            assert(start.at(replies, n).cursor == k && start.at(replies, n).resolving());
        }
    }
}

/// A write that fails ends its own request and no other: the failure is
/// reported for that request, and the run goes on to look up the display of
/// the request after it.
pub proof fn write_failure_moves_on(state: ApplyView, code: i32)
    requires
        state.wf(),
        !state.finished(),
        state.phase is Writing,
        !write_succeeded(code),
    ensures
        state.outcome(ReplyView::Written { code }) == Some(
            OutcomeView { request: state.current(), failure: Some(Failure::Write) },
        ),
        state.after(ReplyView::Written { code }) == state.moved_on(),
        state.moved_on().wf(),
        state.moved_on().requests == state.requests,
        !state.moved_on().finished() ==> state.moved_on().resolving() && state.moved_on().current()
            == state.requests[state.cursor as int + 1],
{
}

/// The mode that is written is the mode that was read, moved: the position
/// is the one asked for, the selector names the position alone, and
/// resolution and every uninterpreted byte are those that were read.
pub proof fn written_mode_is_read_mode_moved(state: ApplyView, read: ModeView)
    requires
        !state.finished(),
        state.phase is Reading,
    ensures
        state.after(ReplyView::Mode(Some(read))).pending() matches Some(
            QueryView::WriteMode { device, mode, flags },
        ) && device == state.phase->Reading_device && flags == crate::system::WRITE_FLAGS && mode
            == read.repositioned(state.current().x, state.current().y) && mode.x
            == state.current().x && mode.y == state.current().y && mode.is_position_only()
            && mode.width == read.width && mode.height == read.height && mode.opaque
            == read.opaque,
{
}

} // verus!
