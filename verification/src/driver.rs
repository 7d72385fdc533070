//! The pagination state machine.
//!
//! Pagination is inherently sequential: the token for page N + 1 lives
//! inside page N's response, so the machine carries the current token as
//! state and advances one response at a time. The caller performs the
//! fetch itself — the one operation that blocks — and hands the machine
//! either the parsed page or the fetch error; the machine decides
//! everything else: how the token is transformed, when the run ends, and
//! in what order batches reach the aggregate.

use vstd::prelude::*;
use crate::action::ChatAction;
use crate::aggregator::Aggregator;
use crate::fetcher::{FetchError, PageModel, PageResult};
use crate::token::{strip_continuation_padding, strip_padding};

verus! {

/// The phase of a run.
#[derive(Clone, Copy, PartialEq, Eq, Structural, Debug)]
pub enum DriverPhase {
    /// A next page remains: the machine holds the token to fetch it with.
    Fetching,
    /// The designed termination: a page arrived without a next token.
    Done,
    /// A fetch failed. Terminal; what was aggregated stays retrievable.
    Failed,
}

/// The mathematical state of the machine.
pub ghost struct DriverModel {
    pub phase: DriverPhase,
    pub token: Seq<char>,
    pub batches: Seq<Seq<ChatAction>>,
    pub fetches: nat,
    pub failure: Option<FetchError>,
}

/// One step of the machine on a successfully fetched page: the batch is
/// recorded in fetch order; a present next token, stripped of its
/// padding, keeps the machine fetching; an absent one ends the stream.
pub open spec fn on_page_model(m: DriverModel, p: PageModel) -> DriverModel {
    DriverModel {
        phase: if p.next is Some {
            DriverPhase::Fetching
        } else {
            DriverPhase::Done
        },
        token: if p.next is Some {
            strip_padding(p.next->Some_0)
        } else {
            m.token
        },
        batches: m.batches.push(p.actions),
        fetches: m.fetches + 1,
        failure: m.failure,
    }
}

/// One step of the machine on a failed fetch: terminal, nothing
/// aggregated is dropped.
pub open spec fn on_error_model(m: DriverModel, e: FetchError) -> DriverModel {
    DriverModel {
        phase: DriverPhase::Failed,
        token: m.token,
        batches: m.batches,
        fetches: m.fetches,
        failure: Some(e),
    }
}

/// The machine run over a sequence of page responses, consumed in order
/// for as long as the machine still fetches.
pub open spec fn run_model(m: DriverModel, pages: Seq<PageModel>) -> DriverModel
    decreases pages.len(),
{
    if pages.len() == 0 || !(m.phase is Fetching) {
        m
    } else {
        run_model(on_page_model(m, pages.first()), pages.drop_first())
    }
}

/// The batches a sequence of pages carries, in page order.
pub open spec fn batches_of(pages: Seq<PageModel>) -> Seq<Seq<ChatAction>> {
    pages.map_values(|p: PageModel| p.actions)
}

/// Drives one replay run: owns the current continuation token, feeds each
/// fetched batch to the aggregator, and terminates the run.
pub struct PaginationDriver {
    phase: DriverPhase,
    token: String,
    failure: Option<FetchError>,
    aggregator: Aggregator,
    fetches: Ghost<nat>,
}

impl View for PaginationDriver {
    type V = DriverModel;

    closed spec fn view(&self) -> DriverModel {
        DriverModel {
            phase: self.phase,
            token: self.token@,
            batches: self.aggregator.batches(),
            fetches: self.fetches@,
            failure: self.failure,
        }
    }
}

impl PaginationDriver {
    /// The aggregate inside the driver is well-formed.
    pub closed spec fn wf(&self) -> bool {
        self.aggregator.wf()
    }

    /// Starts a run from the session's initial continuation token.
    pub fn new(initial_token: String) -> (r: PaginationDriver)
        ensures
            r.wf(),
            r@ == (DriverModel {
                phase: DriverPhase::Fetching,
                token: initial_token@,
                batches: Seq::<Seq<ChatAction>>::empty(),
                fetches: 0,
                failure: None,
            }),
    {
        PaginationDriver {
            phase: DriverPhase::Fetching,
            token: initial_token,
            failure: None,
            aggregator: Aggregator::new(),
            fetches: Ghost(0),
        }
    }

    /// The token the next fetch must submit.
    pub fn current_token(&self) -> (r: &str)
        requires
            self@.phase is Fetching,
        ensures
            r@ == self@.token,
    {
        self.token.as_str()
    }

    /// True while a next page remains to be fetched.
    pub fn is_fetching(&self) -> (r: bool)
        ensures
            r == (self@.phase is Fetching),
    {
        self.phase == DriverPhase::Fetching
    }

    /// The error that ended the run, when one did.
    pub fn failure(&self) -> (r: Option<FetchError>)
        ensures
            r == self@.failure,
    {
        self.failure
    }

    /// Advances the machine on one fetched page: commits the batch in
    /// fetch order, then either adopts the stripped next token and keeps
    /// fetching, or terminates at end of stream. Returns whether another
    /// page remains.
    pub fn on_page(&mut self, page: PageResult) -> (more: bool)
        requires
            old(self).wf(),
            old(self)@.phase is Fetching,
        ensures
            final(self).wf(),
            final(self)@ == on_page_model(old(self)@, page@),
            more == (final(self)@.phase is Fetching),
    {
        let PageResult { next_continuation, actions } = page;
        let more = match next_continuation {
            Some(token) => {
                self.token = strip_continuation_padding(token.as_str());
                true
            },
            None => {
                self.phase = DriverPhase::Done;
                false
            },
        };
        self.aggregator.submit(actions);
        proof {
            self.fetches@ = self.fetches@ + 1;
        }
        more
    }

    /// Records a fatal fetch error: the run is over, and everything
    /// aggregated so far stays retrievable through `finalize`.
    pub fn on_fetch_error(&mut self, error: FetchError)
        requires
            old(self).wf(),
            old(self)@.phase is Fetching,
        ensures
            final(self).wf(),
            final(self)@ == on_error_model(old(self)@, error),
    {
        self.phase = DriverPhase::Failed;
        self.failure = Some(error);
    }

    /// Ends the run and hands back the aggregate: every committed batch,
    /// concatenated in fetch order. After a completed run this is the
    /// whole replay; after a failed one it is the explicit partial
    /// result.
    pub fn finalize(self) -> (r: Vec<ChatAction>)
        requires
            self.wf(),
        ensures
            r@ == self@.batches.flatten(),
    {
        self.aggregator.finalize()
    }
}

/// Law: the run terminates at the first page with no next token. When
/// pages `0 .. k` each carry a next token and page `k` carries none, a
/// machine still fetching consumes exactly `k + 1` pages — performing
/// exactly `k + 1` fetches — ends in `Done`, and has recorded exactly the
/// batches of those `k + 1` pages, in fetch order.
pub proof fn lemma_termination(m: DriverModel, pages: Seq<PageModel>, k: int)
    requires
        m.phase is Fetching,
        0 <= k < pages.len(),
        forall|i: int| 0 <= i < k ==> (#[trigger] pages[i]).next is Some,
        pages[k].next is None,
    ensures
        run_model(m, pages).phase is Done,
        run_model(m, pages).fetches == m.fetches + k + 1,
        run_model(m, pages).batches == m.batches + batches_of(pages.subrange(0, k + 1)),
    decreases k,
{
    let m1 = on_page_model(m, pages.first());
    let rest = pages.drop_first();
    assert(run_model(m, pages) == run_model(m1, rest));
    if k == 0 {
        assert(m1.phase is Done);
        assert(run_model(m1, rest) == m1);
        assert(m.batches + batches_of(pages.subrange(0, 1)) =~= m.batches.push(pages[0].actions));
    } else {
        assert(m1.phase is Fetching);
        assert(forall|i: int| 0 <= i < k - 1 ==> (#[trigger] rest[i]).next is Some);
        assert(rest[k - 1].next is None);
        lemma_termination(m1, rest, k - 1);
        assert(rest.subrange(0, k) =~= pages.subrange(1, k + 1));
        assert(m.batches + batches_of(pages.subrange(0, k + 1)) =~= m.batches.push(
            pages[0].actions,
        ) + batches_of(pages.subrange(1, k + 1)));
    }
}

/// Law: order preservation, end to end. Under the conditions of
/// `lemma_termination`, the aggregate a fresh machine hands back through
/// `finalize` — the flattening of its recorded batches — is exactly the
/// concatenation of the batches of the `k + 1` consumed pages, in fetch
/// order, however the bookkeeping around the run was scheduled.
pub proof fn lemma_replay_is_ordered_concatenation(
    m: DriverModel,
    pages: Seq<PageModel>,
    k: int,
)
    requires
        m.phase is Fetching,
        m.batches == Seq::<Seq<ChatAction>>::empty(),
        0 <= k < pages.len(),
        forall|i: int| 0 <= i < k ==> (#[trigger] pages[i]).next is Some,
        pages[k].next is None,
    ensures
        run_model(m, pages).batches.flatten() == batches_of(pages.subrange(0, k + 1)).flatten(),
{
    lemma_termination(m, pages, k);
    assert(m.batches + batches_of(pages.subrange(0, k + 1)) =~= batches_of(
        pages.subrange(0, k + 1),
    ));
}

} // verus!
