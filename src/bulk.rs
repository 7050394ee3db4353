use crate::errors::Errs;
use vstd::prelude::*;

verus! {

/// An object key, or a message, as text.
pub type Text = Seq<char>;

/// One page of a listing of the objects under a prefix.
pub struct Page {
    /// The keys on this page, in listing order.
    pub keys: Vec<String>,
    /// Whether more pages follow.
    pub truncated: bool,
    /// The token that asks for the next page.
    pub next_token: Option<String>,
}

/// What one successful batch-delete call reported.
pub struct BatchResult {
    /// Keys reported as deleted; a submitted key that no failure names counts
    /// as deleted whether or not it is listed here.
    pub deleted: Vec<String>,
    /// Keys that could not be deleted, each with the backend's message, in the
    /// order reported.
    pub failed: Vec<(String, String)>,
}

/// What the storage answered to the last action.
pub enum Event {
    /// A list call returned a page.
    Listed(Page),
    /// A list call failed, with the backend's message.
    ListFailed(String),
    /// A batch-delete call returned per-key outcomes.
    Deleted(BatchResult),
    /// A batch-delete call failed as a whole, with the backend's message.
    DeleteFailed(String),
}

/// What the caller is to do next.
#[derive(PartialEq, Eq, Structural, Clone, Copy, Debug)]
pub enum Action {
    /// List the next page, with the continuation token that `token` gives.
    List,
    /// Delete the keys that `batch` gives, in one batch call.
    DeleteBatch,
    /// Stop: the run is over, and `into_result` gives its outcome.
    Stop,
}

/// The report of a bulk delete.
#[derive(Debug)]
pub struct DeleteSummary {
    /// Keys seen in the listing.
    pub total: u64,
    /// Keys deleted.
    pub deleted: u64,
    /// Keys that could not be deleted, with the backend's message.
    pub failed: Vec<(String, String)>,
}

/// A run that stopped on a fatal error, with what it had done before.
#[derive(Debug)]
pub struct Aborted {
    /// The error that stopped the run.
    pub error: Errs,
    /// What was seen and deleted before it.
    pub summary: DeleteSummary,
}

enum Phase {
    Listing,
    Deleting,
    Finished,
    ListFailed(String),
    DeleteFailed(String),
}

/// The state of one bulk delete by prefix: which call comes next, the
/// continuation token, the batch in flight and the summary so far.
pub struct BulkDelete {
    phase: Phase,
    token: Option<String>,
    batch: Vec<String>,
    summary: DeleteSummary,
}

// ---------------------------------------------------------------------------
// Mathematical model

/// Which call the run waits on, or how it ended.
pub enum PhaseModel {
    Listing,
    Deleting,
    Finished,
    ListFailed(Text),
    DeleteFailed(Text),
}

/// A summary as numbers and sequences of text.
pub struct SummaryModel {
    pub total: nat,
    pub deleted: nat,
    pub failed: Seq<(Text, Text)>,
}

/// The state of a run as the contracts speak of it.
pub struct DeleteState {
    pub phase: PhaseModel,
    pub token: Option<Text>,
    pub batch: Seq<Text>,
    pub summary: SummaryModel,
}

/// An event as the contracts speak of it: a page is its keys and the token
/// of the page that follows, if any.
pub enum EventModel {
    Listed { keys: Seq<Text>, next: Option<Text> },
    ListFailed(Text),
    Deleted { failed: Seq<(Text, Text)> },
    DeleteFailed(Text),
}

/// The text of each string.
pub open spec fn texts(v: Seq<String>) -> Seq<Text> {
    v.map_values(|s: String| s@)
}

/// The text of each pair of strings.
pub open spec fn text_pairs(v: Seq<(String, String)>) -> Seq<(Text, Text)> {
    v.map_values(|p: (String, String)| (p.0@, p.1@))
}

/// The text of an optional string.
pub open spec fn opt_text(o: Option<String>) -> Option<Text> {
    match o {
        Some(s) => Some(s@),
        None => None,
    }
}

/// Whether `failed` reports `key` as not deleted.
pub open spec fn reported_failed(failed: Seq<(Text, Text)>, key: Text) -> bool {
    exists|i: int| 0 <= i < failed.len() && (#[trigger] failed[i]).0 == key
}

/// How many of the submitted `keys` count as deleted: those that `failed`
/// does not name.
pub open spec fn count_deleted(keys: Seq<Text>, failed: Seq<(Text, Text)>) -> nat
    decreases keys.len(),
{
    if keys.len() == 0 {
        0
    } else {
        count_deleted(keys.drop_last(), failed) + if reported_failed(failed, keys.last()) {
            0nat
        } else {
            1nat
        }
    }
}

/// How many of the submitted `keys` `failed` names.
pub open spec fn count_failed(keys: Seq<Text>, failed: Seq<(Text, Text)>) -> nat
    decreases keys.len(),
{
    if keys.len() == 0 {
        0
    } else {
        count_failed(keys.drop_last(), failed) + if reported_failed(failed, keys.last()) {
            1nat
        } else {
            0nat
        }
    }
}

impl DeleteSummary {
    pub open spec fn view(&self) -> SummaryModel {
        SummaryModel { total: self.total as nat, deleted: self.deleted as nat, failed: text_pairs(self.failed@) }
    }
}

impl Page {
    /// The token of the page that follows, present only where more pages remain.
    pub open spec fn continuation(&self) -> Option<Text> {
        if self.truncated {
            opt_text(self.next_token)
        } else {
            None
        }
    }
}

impl Event {
    pub open spec fn view(&self) -> EventModel {
        match self {
            Event::Listed(p) => EventModel::Listed { keys: texts(p.keys@), next: p.continuation() },
            Event::ListFailed(m) => EventModel::ListFailed(m@),
            Event::Deleted(b) => EventModel::Deleted { failed: text_pairs(b.failed@) },
            Event::DeleteFailed(m) => EventModel::DeleteFailed(m@),
        }
    }
}

/// The summary of a run that has seen nothing.
pub open spec fn empty_summary() -> SummaryModel {
    SummaryModel { total: 0, deleted: 0, failed: Seq::empty() }
}

/// The state in which every run starts: nothing seen, the first page to list.
pub open spec fn initial() -> DeleteState {
    DeleteState { phase: PhaseModel::Listing, token: None, batch: Seq::empty(), summary: empty_summary() }
}

/// Whether the counters of `s` are consistent: nothing counted as deleted that
/// was not seen, and room for the batch in flight.
pub open spec fn consistent(s: DeleteState) -> bool {
    &&& s.summary.deleted <= s.summary.total
    &&& s.phase is Deleting ==> s.summary.deleted + s.batch.len() <= s.summary.total
}

/// Whether the counter of keys seen can take in what `e` brings.
pub open spec fn fits(s: DeleteState, e: EventModel) -> bool {
    e matches EventModel::Listed { keys, .. } ==> s.summary.total + keys.len() <= u64::MAX
}

/// One step of a bulk delete: the state after event `e`, and the next action.
/// An event that does not answer the pending action changes nothing, and the
/// pending action is asked for again.
pub open spec fn transition(s: DeleteState, e: EventModel) -> (DeleteState, Action) {
    match s.phase {
        PhaseModel::Listing => match e {
            EventModel::Listed { keys, next } => if keys.len() == 0 {
                (DeleteState { phase: PhaseModel::Finished, ..s }, Action::Stop)
            } else {
                (
                    DeleteState {
                        phase: PhaseModel::Deleting,
                        token: next,
                        batch: keys,
                        summary: SummaryModel { total: s.summary.total + keys.len(), ..s.summary },
                    },
                    Action::DeleteBatch,
                )
            },
            EventModel::ListFailed(m) => (DeleteState { phase: PhaseModel::ListFailed(m), ..s }, Action::Stop),
            _ => (s, Action::List),
        },
        PhaseModel::Deleting => match e {
            EventModel::Deleted { failed } => {
                let summary = SummaryModel {
                    total: s.summary.total,
                    deleted: s.summary.deleted + count_deleted(s.batch, failed),
                    failed: s.summary.failed + failed,
                };
                if s.token is Some {
                    (
                        DeleteState { phase: PhaseModel::Listing, token: s.token, batch: Seq::empty(), summary },
                        Action::List,
                    )
                } else {
                    (
                        DeleteState { phase: PhaseModel::Finished, token: None, batch: Seq::empty(), summary },
                        Action::Stop,
                    )
                }
            },
            EventModel::DeleteFailed(m) => (DeleteState { phase: PhaseModel::DeleteFailed(m), ..s }, Action::Stop),
            _ => (s, Action::DeleteBatch),
        },
        _ => (s, Action::Stop),
    }
}

/// Whether `r` is what a run in state `s` reports: nothing while it expects a
/// call, the summary once finished, the error and the partial summary once
/// aborted.
pub open spec fn outcome_of(s: DeleteState, r: Option<Result<DeleteSummary, Aborted>>) -> bool {
    match s.phase {
        PhaseModel::Listing | PhaseModel::Deleting => r is None,
        PhaseModel::Finished => match r {
            Some(Ok(x)) => x@ == s.summary,
            _ => false,
        },
        PhaseModel::ListFailed(m) => match r {
            Some(Err(a)) => a.summary@ == s.summary && match a.error {
                Errs::List(e) => e@ == m,
                _ => false,
            },
            _ => false,
        },
        PhaseModel::DeleteFailed(m) => match r {
            Some(Err(a)) => a.summary@ == s.summary && match a.error {
                Errs::Delete(e) => e@ == m,
                _ => false,
            },
            _ => false,
        },
    }
}

// ---------------------------------------------------------------------------
// Executable code

proof fn lemma_count_deleted_bound(keys: Seq<Text>, failed: Seq<(Text, Text)>)
    ensures
        count_deleted(keys, failed) <= keys.len(),
    decreases keys.len(),
{
    if keys.len() > 0 {
        lemma_count_deleted_bound(keys.drop_last(), failed);
    }
}

/// Whether `failed` names `key`.
fn is_reported_failed(failed: &Vec<(String, String)>, key: &String) -> (r: bool)
    ensures
        r == reported_failed(text_pairs(failed@), key@),
{
    let ghost fv = text_pairs(failed@);
    let mut i: usize = 0;
    while i < failed.len()
        invariant
            i <= failed.len(),
            fv == text_pairs(failed@),
            forall|j: int| 0 <= j < i ==> (#[trigger] fv[j]).0 != key@,
        decreases failed.len() - i,
    {
        if failed[i].0 == *key {
            assert(fv[i as int].0 == key@);
            return true;
        }
        i = i + 1;
    }
    false
}

/// How many of `keys` count as deleted when `failed` is what the batch call reported.
fn deleted_in_batch(keys: &Vec<String>, failed: &Vec<(String, String)>) -> (r: u64)
    requires
        keys@.len() <= u64::MAX,
    ensures
        r == count_deleted(texts(keys@), text_pairs(failed@)),
{
    let ghost kv = texts(keys@);
    let ghost fv = text_pairs(failed@);
    let mut n: u64 = 0;
    let mut i: usize = 0;
    while i < keys.len()
        invariant
            i <= keys.len(),
            keys@.len() <= u64::MAX,
            kv == texts(keys@),
            fv == text_pairs(failed@),
            n <= i,
            n == count_deleted(kv.take(i as int), fv),
        decreases keys.len() - i,
    {
        let reported = is_reported_failed(failed, &keys[i]);
        proof {
            assert(kv.take(i + 1).drop_last() =~= kv.take(i as int));
        }
        if !reported {
            n = n + 1;
        }
        i = i + 1;
    }
    proof {
        assert(kv.take(i as int) =~= kv);
    }
    n
}

impl BulkDelete {
    /// The state of this run.
    pub closed spec fn view(&self) -> DeleteState {
        DeleteState {
            phase: match self.phase {
                Phase::Listing => PhaseModel::Listing,
                Phase::Deleting => PhaseModel::Deleting,
                Phase::Finished => PhaseModel::Finished,
                Phase::ListFailed(m) => PhaseModel::ListFailed(m@),
                Phase::DeleteFailed(m) => PhaseModel::DeleteFailed(m@),
            },
            token: opt_text(self.token),
            batch: texts(self.batch@),
            summary: self.summary@,
        }
    }

    /// The counters are consistent (see `consistent`).
    pub closed spec fn well_formed(&self) -> bool {
        consistent(self@)
    }

    /// A fresh run: the first call is a list with no continuation token.
    pub fn new() -> (r: Self)
        ensures
            r@ == initial(),
            r.well_formed(),
    {
        let r = BulkDelete {
            phase: Phase::Listing,
            token: None,
            batch: Vec::new(),
            summary: DeleteSummary { total: 0, deleted: 0, failed: Vec::new() },
        };
        assert(r@.batch =~= Seq::<Text>::empty());
        assert(r@.summary.failed =~= Seq::<(Text, Text)>::empty());
        r
    }

    /// Takes in what the storage answered and says what to do next.
    pub fn step(&mut self, event: Event) -> (r: Action)
        requires
            old(self).well_formed(),
            fits(old(self)@, event@),
        ensures
            final(self).well_formed(),
            (final(self)@, r) == transition(old(self)@, event@),
    {
        match self.phase {
            Phase::Listing => match event {
                Event::Listed(page) => {
                    let Page { keys, truncated, next_token } = page;
                    if keys.len() == 0 {
                        self.phase = Phase::Finished;
                        Action::Stop
                    } else {
                        self.summary.total = self.summary.total + keys.len() as u64;
                        self.token = if truncated {
                            next_token
                        } else {
                            None
                        };
                        self.batch = keys;
                        self.phase = Phase::Deleting;
                        Action::DeleteBatch
                    }
                },
                Event::ListFailed(m) => {
                    self.phase = Phase::ListFailed(m);
                    Action::Stop
                },
                _ => Action::List,
            },
            Phase::Deleting => match event {
                Event::Deleted(res) => {
                    let BatchResult { deleted: _, failed } = res;
                    let mut failed = failed;
                    proof {
                        lemma_count_deleted_bound(texts(self.batch@), text_pairs(failed@));
                    }
                    let n = deleted_in_batch(&self.batch, &failed);
                    self.summary.deleted = self.summary.deleted + n;
                    let ghost before = self.summary.failed@;
                    let ghost added = failed@;
                    self.summary.failed.append(&mut failed);
                    assert(text_pairs(before + added) =~= text_pairs(before) + text_pairs(added));
                    self.batch = Vec::new();
                    assert(texts(self.batch@) =~= Seq::<Text>::empty());
                    if self.token.is_some() {
                        self.phase = Phase::Listing;
                        Action::List
                    } else {
                        self.phase = Phase::Finished;
                        Action::Stop
                    }
                },
                Event::DeleteFailed(m) => {
                    self.phase = Phase::DeleteFailed(m);
                    Action::Stop
                },
                _ => Action::DeleteBatch,
            },
            _ => Action::Stop,
        }
    }

    /// The continuation token for the next list call.
    pub fn token(&self) -> (r: &Option<String>)
        ensures
            opt_text(*r) == self@.token,
    {
        &self.token
    }

    /// The keys for the pending batch-delete call, in listing order.
    pub fn batch(&self) -> (r: &Vec<String>)
        ensures
            texts(r@) == self@.batch,
    {
        &self.batch
    }

    /// The summary so far.
    pub fn summary(&self) -> (r: &DeleteSummary)
        ensures
            r@ == self@.summary,
    {
        &self.summary
    }

    /// The outcome of a run that has stopped: the summary, or the fatal error
    /// together with the summary of what was done before it. `None` while the
    /// run still expects a call.
    pub fn into_result(self) -> (r: Option<Result<DeleteSummary, Aborted>>)
        ensures
            outcome_of(self@, r),
    {
        let BulkDelete { phase, token: _, batch: _, summary } = self;
        match phase {
            Phase::Listing => None,
            Phase::Deleting => None,
            Phase::Finished => Some(Ok(summary)),
            Phase::ListFailed(m) => Some(Err(Aborted { error: Errs::List(m), summary })),
            Phase::DeleteFailed(m) => Some(Err(Aborted { error: Errs::Delete(m), summary })),
        }
    }
}

} // verus!
