//! The record of applying a rule's action to the transfers it matched, and
//! the result that the record sums up to.
use vstd::prelude::*;
use vstd::string::*;
use crate::actions::{action_label, action_label_text};
use crate::model::{ActionType, ExecutionResult, ProcessedItem};
use crate::text::{decimal_string, decimal_text, join_texts, joined, texts};

verus! {

/// The most error messages that a result quotes.
pub const MAX_QUOTED_ERRORS: usize = 10;

/// The error messages of the items that failed, in order.
pub open spec fn failure_messages(items: Seq<ProcessedItem>) -> Seq<Seq<char>>
    decreases items.len(),
{
    if items.len() == 0 {
        Seq::empty()
    } else {
        let prev = failure_messages(items.drop_last());
        match items.last().error {
            Some(e) => prev.push(e@),
            None => prev,
        }
    }
}

/// The error messages that a result quotes: the first `MAX_QUOTED_ERRORS`.
pub open spec fn quoted_errors(items: Seq<ProcessedItem>) -> Seq<Seq<char>> {
    let f = failure_messages(items);
    if f.len() <= MAX_QUOTED_ERRORS {
        f
    } else {
        f.take(MAX_QUOTED_ERRORS as int)
    }
}

proof fn failures_at_most_items(items: Seq<ProcessedItem>)
    ensures
        failure_messages(items).len() <= items.len(),
    decreases items.len(),
{
    if items.len() > 0 {
        failures_at_most_items(items.drop_last());
    }
}

/// The number of items that failed.
pub open spec fn failure_count(items: Seq<ProcessedItem>) -> nat {
    failure_messages(items).len()
}

/// The part of the error message that reports items never reached.
pub open spec fn shortfall_text(done: i32, total: i32) -> Seq<char> {
    "Only processed "@ + decimal_text(done as int) + "/"@ + decimal_text(total as int) + " items"@
}

/// The part of the error message that reports failed items.
pub open spec fn failures_text(items: Seq<ProcessedItem>, done: i32) -> Seq<char> {
    decimal_text(failure_count(items) as int) + " of "@ + decimal_text(done as int)
        + " actions failed. "@ + joined(quoted_errors(items), "; "@)
}

/// The error message of a run over `total` items that recorded `items`, or
/// `None` where every item was reached and none failed.
pub open spec fn run_message(total: i32, items: Seq<ProcessedItem>) -> Option<Seq<char>> {
    let done = items.len() as i32;
    let partial = done < total;
    let failed = failure_count(items) > 0;
    if failed || partial {
        let first: Seq<Seq<char>> = if partial { seq![shortfall_text(done, total)] } else { Seq::empty() };
        let second: Seq<Seq<char>> = if failed { seq![failures_text(items, done)] } else { Seq::empty() };
        Some(joined(first + second, ". "@))
    } else {
        None
    }
}

/// The record of one item: its outcome, under the action's name.
pub open spec fn processed_item(id: i32, name: String, action: String, outcome: Result<(), String>) -> ProcessedItem {
    ProcessedItem {
        id: id,
        name: name,
        action: action,
        success: outcome is Ok,
        error: match outcome {
            Ok(()) => None,
            Err(e) => Some(e),
        },
    }
}

/// A run that recorded as many items as it was started for is not partial.
pub proof fn complete_run_not_partial(total: i32, items: Seq<ProcessedItem>)
    requires
        items.len() <= i32::MAX,
        total == items.len() as i32,
    ensures
        !((items.len() as i32) < total),
{
}

/// A run has an error message exactly when it failed: when an item failed or
/// some item was not reached.
pub proof fn message_iff_failed(total: i32, items: Seq<ProcessedItem>)
    ensures
        run_message(total, items) is None <==> (failure_count(items) == 0 && !((items.len() as i32) < total)),
{
}

/// A result quotes at most `MAX_QUOTED_ERRORS` messages, and they are the
/// first of the failures, in order.
pub proof fn quoted_errors_are_first_failures(items: Seq<ProcessedItem>)
    ensures
        quoted_errors(items).len() <= MAX_QUOTED_ERRORS,
        quoted_errors(items).is_prefix_of(failure_messages(items)),
{
}

/// Each record succeeded exactly where it carries no error.
pub open spec fn records_consistent(items: Seq<ProcessedItem>) -> bool {
    forall|i: int| 0 <= i < items.len() ==> #[trigger] items[i].success == (items[i].error is None)
}

/// Where each record succeeded exactly when it carries no error, no record
/// failed exactly when every record succeeded.
pub proof fn no_failures_iff_all_succeeded(items: Seq<ProcessedItem>)
    requires
        records_consistent(items),
    ensures
        failure_count(items) == 0 <==> forall|i: int| 0 <= i < items.len() ==> #[trigger] items[i].success,
    decreases items.len(),
{
    if items.len() > 0 {
        let prev = items.drop_last();
        assert forall|i: int| 0 <= i < prev.len() implies #[trigger] prev[i].success == (prev[i].error is None) by {
            assert(prev[i] == items[i]);
        }
        no_failures_iff_all_succeeded(prev);
        failures_at_most_items(prev);
        if failure_count(items) == 0 {
            assert forall|i: int| 0 <= i < items.len() implies #[trigger] items[i].success by {
                if i < prev.len() {
                    assert(prev[i] == items[i]);
                    assert(prev[i].success);
                } else {
                    assert(items[i] == items.last());
                }
            }
        } else if forall|i: int| 0 <= i < items.len() ==> #[trigger] items[i].success {
            assert(items[items.len() - 1].success);
            assert forall|i: int| 0 <= i < prev.len() implies #[trigger] prev[i].success by {
                assert(prev[i] == items[i]);
                assert(items[i].success);
            }
        }
    }
}

/// A run that recorded every item it was started for, each succeeding exactly
/// where it carries no error, succeeded exactly when every record succeeded,
/// and exactly then has no error message.
pub proof fn complete_run_success_iff_all_succeeded(total: i32, items: Seq<ProcessedItem>)
    requires
        records_consistent(items),
        items.len() <= i32::MAX,
        total == items.len() as i32,
    ensures
        (failure_count(items) == 0 && !((items.len() as i32) < total)) <==> forall|i: int|
            0 <= i < items.len() ==> #[trigger] items[i].success,
        run_message(total, items) is None <==> forall|i: int| 0 <= i < items.len() ==> #[trigger] items[i].success,
{
    no_failures_iff_all_succeeded(items);
}

/// Applying one action to a list of transfers, item by item.
pub struct ActionRun {
    total: i32,
    action: String,
    error_count: i32,
    errors: Vec<String>,
    processed: Vec<ProcessedItem>,
}

impl ActionRun {
    /// The counts and quoted errors agree with the items recorded so far.
    pub closed spec fn wf(self) -> bool {
        &&& records_consistent(self.processed@)
        &&& self.error_count == failure_count(self.processed@)
        &&& texts(self.errors@) == quoted_errors(self.processed@)
    }

    /// The number of items the run was started for.
    pub closed spec fn total_items(self) -> i32 {
        self.total
    }

    /// The name of the action, as each record carries it.
    pub closed spec fn action_name(self) -> String {
        self.action
    }

    /// The items recorded so far, in order.
    pub closed spec fn items(self) -> Seq<ProcessedItem> {
        self.processed@
    }

    /// Starts a run of `action` over `item_count` items; the count is kept as
    /// an `i32`, cut to its low 32 bits where it does not fit.
    pub fn start(action: ActionType, item_count: usize) -> (r: ActionRun)
        ensures
            r.wf(),
            r.total_items() == item_count as i32,
            r.action_name()@ == action_label_text(action),
            r.items() == Seq::<ProcessedItem>::empty(),
    {
        let r = ActionRun {
            total: #[verifier::truncate] (item_count as i32),
            action: action_label(action),
            error_count: 0,
            errors: Vec::new(),
            processed: Vec::new(),
        };
        assert(texts(r.errors@) =~= quoted_errors(r.processed@));
        r
    }

    /// How many of the items recorded so far failed.
    pub fn failed_count(&self) -> (n: i32)
        requires
            self.wf(),
        ensures
            n == failure_count(self.items()),
    {
        self.error_count
    }

    /// Records the final outcome of the action on the item `id` named `name`.
    pub fn record(&mut self, id: i32, name: String, outcome: Result<(), String>)
        requires
            old(self).wf(),
            outcome is Err ==> failure_count(old(self).items()) < i32::MAX,
        ensures
            final(self).wf(),
            final(self).total_items() == old(self).total_items(),
            final(self).action_name() == old(self).action_name(),
            final(self).items() == old(self).items().push(
                processed_item(id, name, old(self).action_name(), outcome),
            ),
    {
        let ghost before = self.processed@;
        proof {
            failures_at_most_items(before);
        }
        let ok = outcome.is_ok();
        let err: Option<String> = match outcome {
            Ok(()) => None,
            Err(e) => Some(e),
        };
        match &err {
            Some(e) => {
                self.error_count = self.error_count + 1;
                if self.errors.len() < MAX_QUOTED_ERRORS {
                    self.errors.push(e.clone());
                }
            },
            None => {},
        }
        let ghost recorded_error = err;
        let item = ProcessedItem { id, name, action: self.action.clone(), success: ok, error: err };
        self.processed.push(item);
        proof {
            assert(self.processed@.drop_last() =~= before);
            let f0 = failure_messages(before);
            let f1 = failure_messages(self.processed@);
            match recorded_error {
                Some(e) => {
                    assert(f1 == f0.push(e@));
                    assert(texts(old(self).errors@).len() == old(self).errors@.len());
                    if f0.len() < MAX_QUOTED_ERRORS {
                        assert(texts(self.errors@) =~= texts(old(self).errors@).push(e@));
                        assert(texts(self.errors@) =~= quoted_errors(self.processed@));
                    } else {
                        assert(self.errors@ == old(self).errors@);
                        assert(f1.take(MAX_QUOTED_ERRORS as int) =~= f0.take(MAX_QUOTED_ERRORS as int));
                        if f0.len() == MAX_QUOTED_ERRORS {
                            assert(f0.take(MAX_QUOTED_ERRORS as int) =~= f0);
                        }
                        assert(texts(self.errors@) =~= quoted_errors(self.processed@));
                    }
                },
                None => {
                    assert(f1 == f0);
                },
            }
        }
    }

    /// The result of the run: how many items were reached out of how many,
    /// whether all succeeded, the error message and the records.
    pub fn finish(self) -> (r: ExecutionResult)
        requires
            self.wf(),
        ensures
            r.items_processed == self.items().len() as i32,
            r.total_items == self.total_items(),
            r.partial == (r.items_processed < r.total_items),
            r.success == (failure_count(self.items()) == 0 && !r.partial),
            r.processed_items matches Some(v) && v@ == self.items(),
            records_consistent(self.items()),
            r.success == (r.error_message is None),
            r.success == (!r.partial && forall|i: int| 0 <= i < self.items().len() ==> #[trigger] self.items()[i].success),
            match run_message(self.total_items(), self.items()) {
                Some(m) => r.error_message matches Some(e) && e@ == m,
                None => r.error_message is None,
            },
    {
        proof {
            no_failures_iff_all_succeeded(self.processed@);
        }
        let done = #[verifier::truncate] (self.processed.len() as i32);
        let total = self.total;
        let partial = done < total;
        let failed = self.error_count > 0;
        let message = if failed || partial {
            let mut parts: Vec<String> = Vec::new();
            if partial {
                let mut s = String::from_str("Only processed ");
                s.append(decimal_string(done as i64).as_str());
                s.append("/");
                s.append(decimal_string(total as i64).as_str());
                s.append(" items");
                parts.push(s);
            }
            let ghost first = texts(parts@);
            if failed {
                let mut s = decimal_string(self.error_count as i64);
                s.append(" of ");
                s.append(decimal_string(done as i64).as_str());
                s.append(" actions failed. ");
                s.append(join_texts(&self.errors, "; ").as_str());
                parts.push(s);
            }
            proof {
                let items = self.processed@;
                let f: Seq<Seq<char>> = if partial { seq![shortfall_text(done, total)] } else { Seq::empty() };
                let g: Seq<Seq<char>> = if failed { seq![failures_text(items, done)] } else { Seq::empty() };
                assert(first =~= f);
                assert(texts(parts@) =~= f + g);
            }
            Some(join_texts(&parts, ". "))
        } else {
            None
        };
        ExecutionResult {
            items_processed: done,
            total_items: total,
            success: !failed && !partial,
            error_message: message,
            processed_items: Some(self.processed),
            partial,
        }
    }
}


/// The number of failed outcomes.
pub open spec fn outcome_failures(outcomes: Seq<Result<(), String>>) -> nat
    decreases outcomes.len(),
{
    if outcomes.len() == 0 {
        0
    } else {
        outcome_failures(outcomes.drop_last()) + if outcomes.last() is Err {
            1nat
        } else {
            0nat
        }
    }
}

/// The records of `items` with their `outcomes`, in order, under `action`.
pub open spec fn run_records(
    items: Seq<(i32, String)>,
    outcomes: Seq<Result<(), String>>,
    action: String,
) -> Seq<ProcessedItem> {
    Seq::new(items.len(), |i: int| processed_item(items[i].0, items[i].1, action, outcomes[i]))
}

proof fn outcome_failures_grow(outcomes: Seq<Result<(), String>>, i: int)
    requires
        0 <= i <= outcomes.len(),
    ensures
        outcome_failures(outcomes.take(i)) <= outcome_failures(outcomes),
    decreases outcomes.len(),
{
    if i < outcomes.len() {
        outcome_failures_grow(outcomes.drop_last(), i);
        assert(outcomes.drop_last().take(i) =~= outcomes.take(i));
    } else {
        assert(outcomes.take(i) =~= outcomes);
    }
}

/// Applies the bookkeeping of a run of `action` to every item of `items`,
/// whose final outcomes are `outcomes`, in order: the result of a complete
/// run.
pub fn run_all(action: ActionType, items: &Vec<(i32, String)>, outcomes: &Vec<Result<(), String>>) -> (r: ExecutionResult)
    requires
        items@.len() == outcomes@.len(),
        outcome_failures(outcomes@) <= i32::MAX,
    ensures
        r.items_processed == r.total_items,
        r.total_items == items@.len() as i32,
        !r.partial,
        r.processed_items matches Some(v) && {
            &&& v@.len() == items@.len()
            &&& forall|i: int|
                0 <= i < v@.len() ==> {
                    &&& #[trigger] v@[i].id == items@[i].0
                    &&& v@[i].name == items@[i].1
                    &&& v@[i].action@ == action_label_text(action)
                    &&& v@[i].success == outcomes@[i] is Ok
                    &&& v@[i].success == (v@[i].error is None)
                    &&& (outcomes@[i] matches Err(e) ==> v@[i].error == Some(e))
                }
            &&& match run_message(r.total_items, v@) {
                Some(m) => r.error_message matches Some(e) && e@ == m,
                None => r.error_message is None,
            }
        },
        r.success == (r.error_message is None),
        r.success == forall|i: int| 0 <= i < outcomes@.len() ==> #[trigger] outcomes@[i] is Ok,
{
    let n = items.len();
    let mut run = ActionRun::start(action, n);
    let ghost act = run.action_name();
    let mut i: usize = 0;
    while i < n
        invariant
            n == items@.len(),
            n == outcomes@.len(),
            i <= n,
            outcome_failures(outcomes@) <= i32::MAX,
            run.wf(),
            run.total_items() == n as i32,
            run.action_name() == act,
            act@ == action_label_text(action),
            run.items() == run_records(items@.take(i as int), outcomes@.take(i as int), act),
            failure_count(run.items()) == outcome_failures(outcomes@.take(i as int)),
        decreases n - i,
    {
        let outcome = match &outcomes[i] {
            Ok(()) => Ok(()),
            Err(e) => Err(e.clone()),
        };
        let ghost before = run.items();
        proof {
            outcome_failures_grow(outcomes@, i + 1);
            assert(outcomes@.take(i + 1).drop_last() =~= outcomes@.take(i as int));
        }
        run.record(items[i].0, items[i].1.clone(), outcome);
        proof {
            assert(run.items() =~= run_records(items@.take(i + 1), outcomes@.take(i + 1), act));
            assert(run.items().drop_last() =~= before);
        }
        i = i + 1;
    }
    proof {
        assert(items@.take(n as int) =~= items@);
        assert(outcomes@.take(n as int) =~= outcomes@);
    }
    let ghost recs = run.items();
    let r = run.finish();
    proof {
        no_failures_iff_all_succeeded(recs);
        assert forall|i: int| 0 <= i < n implies (#[trigger] outcomes@[i] is Ok) == recs[i].success by {
        }
    }
    r
}

} // verus!
