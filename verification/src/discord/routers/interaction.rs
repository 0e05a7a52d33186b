//! Interactions: each one goes to the first handler whose filter accepts it.
use vstd::prelude::*;

verus! {

/// A filter that tells whether an interaction is for this handler, and the
/// handler.
pub struct InteractionHandler<F, H> {
    pub filter: F,
    pub handler: H,
}

impl<F, H> InteractionHandler<F, H> {
    pub fn new(filter: F, handler: H) -> (r: Self)
        ensures
            r.filter == filter,
            r.handler == handler,
    {
        InteractionHandler { filter, handler }
    }

    /// Whether what a filter returned accepts the interaction: only `Ok(true)`
    /// does; a failing filter does not.
    pub fn filter_accepts<E>(outcome: &Result<bool, E>) -> (b: bool)
        ensures
            b == match *outcome {
                Ok(accepted) => accepted,
                Err(_) => false,
            },
    {
        match outcome {
            Ok(true) => true,
            _ => false,
        }
    }
}

/// The handlers, in the order they were added, with what they are given.
pub struct InteractionRouter<D, F, H> {
    pub handlers: Vec<InteractionHandler<F, H>>,
    pub di: D,
}

/// The next thing to do while routing an interaction.
#[derive(Clone, Copy, Debug, PartialEq, Eq, Structural)]
pub enum RouteAction {
    /// Ask the filter of handler `i`.
    Probe(usize),
    /// Run handler `i`.
    Handle(usize),
    /// No handler accepted the interaction: report that.
    ReportUnhandled,
}

/// The action that starts the routing among `n` handlers.
pub open spec fn route_start(n: nat) -> RouteAction {
    if n > 0 {
        RouteAction::Probe(0)
    } else {
        RouteAction::ReportUnhandled
    }
}

/// The action after the filter of handler `i`, among `n` handlers, answered
/// `accepted`.
pub open spec fn route_next(n: nat, i: nat, accepted: bool) -> RouteAction {
    if accepted {
        RouteAction::Handle(i as usize)
    } else if i + 1 < n {
        RouteAction::Probe((i + 1) as usize)
    } else {
        RouteAction::ReportUnhandled
    }
}

/// Routing among `n` handlers from `action`, when the filters answer as
/// `answers` says, for at most `steps` filter answers.
pub open spec fn route_run(n: nat, answers: Seq<bool>, action: RouteAction, steps: nat) -> RouteAction
    decreases steps,
{
    if steps == 0 {
        action
    } else {
        match action {
            RouteAction::Probe(i) => route_run(
                n,
                answers,
                route_next(n, i as nat, answers[i as int]),
                (steps - 1) as nat,
            ),
            _ => action,
        }
    }
}

/// An interaction goes to the first handler whose filter accepts it, and is
/// reported as unhandled when no filter accepts it.
pub proof fn lemma_route_picks_first_accepting(answers: Seq<bool>)
    requires
        answers.len() <= usize::MAX,
    ensures
        match route_run(answers.len(), answers, route_start(answers.len()), answers.len()) {
            RouteAction::Handle(k) => k < answers.len() && answers[k as int] && forall|j: int|
                0 <= j < k ==> !#[trigger] answers[j],
            RouteAction::ReportUnhandled => forall|j: int| 0 <= j < answers.len() ==> !#[trigger] answers[j],
            RouteAction::Probe(_) => false,
        },
{
    let n = answers.len();
    if n > 0 {
        lemma_route_run_from(answers, 0);
    }
}

proof fn lemma_route_run_from(answers: Seq<bool>, i: nat)
    requires
        answers.len() <= usize::MAX,
        i < answers.len(),
        forall|j: int| 0 <= j < i ==> !#[trigger] answers[j],
    ensures
        match route_run(answers.len(), answers, RouteAction::Probe(i as usize), (answers.len() - i) as nat) {
            RouteAction::Handle(k) => k < answers.len() && answers[k as int] && forall|j: int|
                0 <= j < k ==> !#[trigger] answers[j],
            RouteAction::ReportUnhandled => forall|j: int| 0 <= j < answers.len() ==> !#[trigger] answers[j],
            RouteAction::Probe(_) => false,
        },
    decreases answers.len() - i,
{
    let n = answers.len();
    let steps = (n - i) as nat;
    let next = route_next(n, i, answers[i as int]);
    assert(route_run(n, answers, RouteAction::Probe(i as usize), steps) == route_run(
        n,
        answers,
        next,
        (steps - 1) as nat,
    ));
    if answers[i as int] {
    } else if i + 1 < n {
        lemma_route_run_from(answers, i + 1);
    } else {
        assert forall|j: int| 0 <= j < n implies !#[trigger] answers[j] by {
            if j == i {
            }
        }
    }
}

/// The text that tells a user their interaction failed, and the log file
/// attached to it.
pub struct ErrorReport {
    pub content: String,
    pub file_name: String,
    pub file_body: String,
}

/// The name of the log file attached to an error report.
pub const REPORT_FILE_NAME: &'static str = "failed_interaction.rs-log";

/// The reply when a handler failed.
pub const HANDLER_FAILED_REPLY: &'static str = "Oops! We had an error handling that request for some reason, give the following file to a bot developer!";

/// The reply when no handler took the interaction.
pub const UNHANDLED_REPLY: &'static str = "Oops! We couldn't handle that request for some reason, give the following file to a bot developer!";

/// The start of an error report's log file.
pub const REPORT_HEAD: &'static str = "Failed to handle interaction with data:\n";

impl<D, F, H> InteractionRouter<D, F, H> {
    pub fn new(di: D) -> (r: Self)
        ensures
            r.handlers@.len() == 0,
            r.di == di,
    {
        InteractionRouter { handlers: Vec::new(), di }
    }

    /// Adds a handler after the ones already there.
    pub fn add_handler(&mut self, filter: F, handler: H)
        ensures
            final(self).di == old(self).di,
            final(self).handlers@.len() == old(self).handlers@.len() + 1,
            final(self).handlers@.take(old(self).handlers@.len() as int) == old(self).handlers@,
            final(self).handlers@.last().filter == filter,
            final(self).handlers@.last().handler == handler,
    {
        self.handlers.push(InteractionHandler::new(filter, handler));
        proof {
            assert(final(self).handlers@.take(old(self).handlers@.len() as int) =~= old(self).handlers@);
        }
    }

    /// The first thing to do with an interaction, once its answer is
    /// deferred.
    pub fn route_start(&self) -> (r: RouteAction)
        ensures
            r == route_start(self.handlers@.len()),
    {
        if self.handlers.len() > 0 {
            RouteAction::Probe(0)
        } else {
            RouteAction::ReportUnhandled
        }
    }

    /// The next thing to do once the filter of handler `index` answered.
    pub fn route_next(&self, index: usize, accepted: bool) -> (r: RouteAction)
        ensures
            r == route_next(self.handlers@.len(), index as nat, accepted),
    {
        proof {
            assert((index as nat) as usize == index);
            assert(self.handlers@.len() == self.handlers.len());
        }
        if accepted {
            RouteAction::Handle(index)
        } else if index < usize::MAX && index + 1 < self.handlers.len() {
            RouteAction::Probe(index + 1)
        } else {
            RouteAction::ReportUnhandled
        }
    }
}

/// Whether the user is told of a failure after a handler ran: exactly when
/// the handler failed.
pub fn report_after_handling<E>(result: &Result<(), E>) -> (b: bool)
    ensures
        b == result is Err,
{
    result.is_err()
}

/// The report for a handler that failed with `error` on the interaction
/// whose debug text is `interaction`.
pub fn handler_failure_report(interaction: &str, error: &str) -> (r: ErrorReport)
    ensures
        r.content@ == HANDLER_FAILED_REPLY@,
        r.file_name@ == REPORT_FILE_NAME@,
        r.file_body@ == REPORT_HEAD@ + interaction@ + "\n\nError: "@ + error@ + "\n"@,
{
    let mut body = REPORT_HEAD.to_owned();
    body.append(interaction);
    body.append("\n\nError: ");
    body.append(error);
    body.append("\n");
    ErrorReport {
        content: HANDLER_FAILED_REPLY.to_owned(),
        file_name: REPORT_FILE_NAME.to_owned(),
        file_body: body,
    }
}

/// The report for an interaction, with debug text `interaction`, that no
/// handler accepted.
pub fn unhandled_report(interaction: &str) -> (r: ErrorReport)
    ensures
        r.content@ == UNHANDLED_REPLY@,
        r.file_name@ == REPORT_FILE_NAME@,
        r.file_body@ == REPORT_HEAD@ + interaction@,
{
    let mut body = REPORT_HEAD.to_owned();
    body.append(interaction);
    ErrorReport {
        content: UNHANDLED_REPLY.to_owned(),
        file_name: REPORT_FILE_NAME.to_owned(),
        file_body: body,
    }
}

} // verus!
