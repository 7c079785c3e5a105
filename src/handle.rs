use crate::context::{RequestView, UploadContext, UploadRequest};
use crate::error::{BuildError, UploadError};
use crate::response::{build_spec, ResponseView, UploadResponse, UploadResponseBuilder};
use crate::text::{clone_opt, opt_view};
use vstd::prelude::*;

verus! {

/// The largest number of parts one upload can hold.
pub const MAX_PARTS: usize = 4294967295;

/// A part the service has accepted: its number and the integrity tag the
/// service returned for its bytes.
#[derive(Debug, Clone, PartialEq, Eq)]
pub struct CompletedPart {
    pub part_number: u32,
    pub e_tag: String,
}

/// The finalization call: the request's object and echoed parameters, the
/// session, and the completed parts in ascending part-number order.
#[derive(Debug)]
pub struct CompleteRequest {
    pub request: UploadRequest,
    pub upload_id: String,
    pub parts: Vec<CompletedPart>,
}

/// What the service returned from finalization.
#[derive(Debug, Clone, PartialEq, Eq)]
pub struct CompleteOutput {
    pub e_tag: Option<String>,
    pub expiration: Option<String>,
    pub version_id: Option<String>,
}

/// Where an upload stands.
#[derive(Debug, Clone, Copy, PartialEq, Eq, Structural)]
pub enum HandleState {
    /// Parts may still be scheduled.
    Accumulating,
    /// The consumer is waiting for the parts; none may be added.
    Joining,
    /// A part failed: the remaining tasks are cancelled and being awaited.
    Draining,
    /// Every part is in; the finalization call is in flight.
    Completing,
    /// The consumer aborted: the remaining tasks are cancelled and being awaited.
    Aborting,
    Completed,
    Failed,
    Aborted,
}

/// What the driver of the task set is to do next.
#[derive(Debug)]
pub enum Action {
    /// Wait for the next task of the set to end.
    AwaitNext,
    /// Cancel every task of the set, then wait for the next to end.
    CancelAll,
    /// Issue this finalization call and hand back its outcome.
    Finalize(CompleteRequest),
    /// Return this to the consumer: the upload is over.
    Finish(Result<UploadResponse, UploadError>),
}

/// An upload as values.
pub struct HandleView {
    pub state: HandleState,
    pub request: RequestView,
    pub session_id: Option<Seq<char>>,
    pub response: Option<ResponseView>,
    /// Entry `i` is the integrity tag of part `i + 1`, once it has come in.
    pub tags: Seq<Option<Seq<char>>>,
    /// Tasks scheduled and not yet awaited.
    pub in_flight: nat,
    /// The failure to report once draining ends.
    pub failure: Option<UploadError>,
}

/// The tags once part `part_number` has come in with `tag`.
pub open spec fn record_part(tags: Seq<Option<Seq<char>>>, part_number: u32, tag: Seq<char>) -> Seq<
    Option<Seq<char>>,
> {
    tags.update(part_number - 1, Some(tag))
}

/// Whether `part_number` was scheduled and has not come in yet.
pub open spec fn awaited_part(tags: Seq<Option<Seq<char>>>, part_number: u32) -> bool {
    1 <= part_number <= tags.len() && tags[part_number - 1] is None
}

/// Whether every scheduled part has come in.
pub open spec fn all_parts_in(tags: Seq<Option<Seq<char>>>) -> bool {
    forall|i: int| 0 <= i < tags.len() ==> (#[trigger] tags[i]) is Some
}

/// Whether `parts` lists parts `1..=tags.len()`, in that order, each with its tag.
pub open spec fn parts_match(parts: Seq<CompletedPart>, tags: Seq<Option<Seq<char>>>) -> bool {
    &&& parts.len() == tags.len()
    &&& forall|i: int|
        0 <= i < parts.len() ==> (#[trigger] parts[i]).part_number == i + 1 && tags[i] == Some(
            parts[i].e_tag@,
        )
}

/// The handle after it has given up, and what it hands the consumer.
pub open spec fn abort_done(pre: HandleView, post: HandleView, a: Action) -> bool {
    &&& post == (HandleView { state: HandleState::Aborted, in_flight: 0, ..pre })
    &&& a matches Action::Finish(Err(UploadError::AbortCleanupNotPerformed(id)))
    &&& opt_view(id) == pre.session_id
}

/// Whether `a` reports that the multipart upload failed with `cause`
/// before finalization, leaving the remote session `session` in place.
pub open spec fn reports_upload_failure(a: Action, cause: UploadError, session: Option<Seq<char>>) -> bool {
    &&& a matches Action::Finish(Err(UploadError::UploadFailed(c, pending)))
    &&& *c == cause
    &&& opt_view(pending) == session
}

/// Every task is in and none failed: finalize if every part has a tag.
pub open spec fn finish_joining(pre: HandleView, post: HandleView, a: Action) -> bool {
    if all_parts_in(pre.tags) {
        &&& post == (HandleView { state: HandleState::Completing, ..pre })
        &&& a matches Action::Finalize(req)
        &&& req.request@ == pre.request
        &&& pre.session_id == Some(req.upload_id@)
        &&& parts_match(req.parts@, pre.tags)
    } else {
        &&& post == (HandleView { state: HandleState::Failed, ..pre })
        &&& a matches Action::Finish(Err(UploadError::UploadFailed(c, pending)))
        &&& opt_view(pending) == pre.session_id
        &&& *c matches UploadError::MissingPart(n)
        &&& 1 <= n <= pre.tags.len()
        &&& pre.tags[n - 1] is None
    }
}

/// The upload failed with `f` while joining: cancel the rest, or report `f`,
/// with the session left uncleaned, if nothing is left to await.
pub open spec fn start_draining(
    pre: HandleView,
    f: UploadError,
    post: HandleView,
    a: Action,
) -> bool {
    if pre.in_flight == 0 {
        &&& post == (HandleView { state: HandleState::Failed, failure: None, ..pre })
        &&& reports_upload_failure(a, f, pre.session_id)
    } else {
        &&& post == (HandleView { state: HandleState::Draining, failure: Some(f), ..pre })
        &&& a is CancelAll
    }
}

/// What `part_finished` does: `pre` is the handle before, `result` what the
/// task that ended produced.
pub open spec fn part_finished_spec(
    pre: HandleView,
    result: Result<CompletedPart, UploadError>,
    post: HandleView,
    a: Action,
) -> bool {
    let left = HandleView { in_flight: (pre.in_flight - 1) as nat, ..pre };
    if pre.in_flight == 0 || !(pre.state is Joining || pre.state is Draining
        || pre.state is Aborting) {
        post == pre && a == Action::Finish(Err(UploadError::HandleClosed))
    } else if pre.state is Joining {
        match result {
            Ok(p) => if awaited_part(pre.tags, p.part_number) {
                let next = HandleView {
                    tags: record_part(pre.tags, p.part_number, p.e_tag@),
                    ..left
                };
                if next.in_flight > 0 {
                    post == next && a is AwaitNext
                } else {
                    finish_joining(next, post, a)
                }
            } else {
                start_draining(left, UploadError::UnexpectedPart(p.part_number), post, a)
            },
            Err(f) => start_draining(left, f, post, a),
        }
    } else if pre.state is Draining {
        if left.in_flight > 0 {
            post == left && a is AwaitNext
        } else {
            &&& post == (HandleView { state: HandleState::Failed, failure: None, ..left })
            &&& reports_upload_failure(a, pre.failure.unwrap(), pre.session_id)
        }
    } else {
        if left.in_flight > 0 {
            post == left && a is AwaitNext
        } else {
            abort_done(left, post, a)
        }
    }
}

/// What `finalized` does with the outcome of the finalization call.
pub open spec fn finalized_spec(
    pre: HandleView,
    result: Result<CompleteOutput, UploadError>,
    post: HandleView,
    a: Action,
) -> bool {
    if !(pre.state is Completing) {
        post == pre && a == Action::Finish(Err(UploadError::HandleClosed))
    } else {
        match result {
            Err(f) => {
                &&& post == (HandleView { state: HandleState::Failed, ..pre })
                &&& a == Action::Finish(Err(f))
            },
            Ok(out) => match pre.response {
                None => {
                    &&& post == (HandleView { state: HandleState::Failed, ..pre })
                    &&& a == Action::Finish(Err(UploadError::MissingResponse))
                },
                Some(b) => if b.upload_id is Some && b.upload_id != pre.session_id {
                    &&& post == (HandleView {
                        state: HandleState::Failed,
                        response: None,
                        ..pre
                    })
                    &&& a == Action::Finish(
                        Err(UploadError::InvalidResponse(BuildError::UploadIdMismatch)),
                    )
                } else {
                    let fields = ResponseView {
                        e_tag: opt_view(out.e_tag),
                        expiration: opt_view(out.expiration),
                        version_id: opt_view(out.version_id),
                        ..b
                    };
                    match build_spec(fields, true) {
                        Ok(v) => {
                            &&& post == (HandleView {
                                state: HandleState::Completed,
                                response: None,
                                ..pre
                            })
                            &&& a matches Action::Finish(Ok(resp))
                            &&& resp@ == v
                        },
                        Err(e) => {
                            &&& post == (HandleView {
                                state: HandleState::Failed,
                                response: None,
                                ..pre
                            })
                            &&& a == Action::Finish(Err(UploadError::InvalidResponse(e)))
                        },
                    }
                },
            },
        }
    }
}

/// Whenever the handle asks for finalization, the part list runs in strictly
/// ascending part-number order and names each of the parts `1..=n` exactly
/// once, `n` being the number of parts scheduled, whatever order the parts
/// came in.
pub proof fn finalization_lists_every_part_in_order(pre: HandleView, post: HandleView, a: Action)
    requires
        finish_joining(pre, post, a),
        a is Finalize,
    ensures
        a->Finalize_0.parts@.len() == pre.tags.len(),
        forall|i: int, j: int|
            0 <= i < j < a->Finalize_0.parts@.len() ==> (#[trigger] a->Finalize_0.parts@[i]).part_number
                < (#[trigger] a->Finalize_0.parts@[j]).part_number,
        forall|i: int|
            0 <= i < a->Finalize_0.parts@.len() ==> (#[trigger] a->Finalize_0.parts@[i]).part_number
                == i + 1,
        a->Finalize_0.parts@.map_values(|p: CompletedPart| p.part_number as int).to_set() == Set::new(
            |n: int| 1 <= n <= pre.tags.len(),
        ),
{
    let parts = a->Finalize_0.parts@;
    let numbers = parts.map_values(|p: CompletedPart| p.part_number as int);
    assert forall|n: int| 1 <= n <= pre.tags.len() implies numbers.contains(n) by {
        assert(numbers[n - 1] == n);
    }
    assert(numbers.to_set() =~= Set::new(|n: int| 1 <= n <= pre.tags.len()));
}

/// Two parts that come in one after the other leave the same record in
/// either order: the record depends on which tag each part brought, not on
/// when it arrived.
pub proof fn arrival_order_is_irrelevant(
    tags: Seq<Option<Seq<char>>>,
    p: u32,
    p_tag: Seq<char>,
    q: u32,
    q_tag: Seq<char>,
)
    requires
        awaited_part(tags, p),
        awaited_part(tags, q),
        p != q,
    ensures
        awaited_part(record_part(tags, p, p_tag), q),
        awaited_part(record_part(tags, q, q_tag), p),
        record_part(record_part(tags, p, p_tag), q, q_tag) == record_part(
            record_part(tags, q, q_tag),
            p,
            p_tag,
        ),
{
    assert(record_part(record_part(tags, p, p_tag), q, q_tag) =~= record_part(
        record_part(tags, q, q_tag),
        p,
        p_tag,
    ));
}

/// Once a part has failed, every later outcome only drains the task set:
/// the handle never asks for finalization and never reports success, and it
/// reports the failure only when no task is left in flight.
pub proof fn failure_drains_and_never_finalizes(
    pre: HandleView,
    result: Result<CompletedPart, UploadError>,
    post: HandleView,
    a: Action,
)
    requires
        pre.wf(),
        pre.in_flight > 0,
        pre.state is Draining || (pre.state is Joining && result is Err),
        part_finished_spec(pre, result, post, a),
    ensures
        !(a is Finalize),
        !(a matches Action::Finish(Ok(_))),
        a is Finish ==> post.in_flight == 0 && post.state is Failed,
        !(a is Finish) ==> post.in_flight > 0 && post.state is Draining && post.failure is Some,
{
}

/// Whether `actions[i]` is what `part_finished` gave on `results[i]`, taking
/// the handle from `views[i]` to `views[i + 1]`, for each `i`.
pub open spec fn part_run(
    views: Seq<HandleView>,
    results: Seq<Result<CompletedPart, UploadError>>,
    actions: Seq<Action>,
) -> bool {
    &&& views.len() == results.len() + 1
    &&& actions.len() == results.len()
    &&& forall|i: int|
        0 <= i < results.len() ==> part_finished_spec(
            #[trigger] views[i],
            results[i],
            views[i + 1],
            actions[i],
        )
}

proof fn lemma_failed_run(
    views: Seq<HandleView>,
    results: Seq<Result<CompletedPart, UploadError>>,
    actions: Seq<Action>,
    n: nat,
    f: int,
    i: int,
)
    requires
        part_run(views, results, actions),
        results.len() == n,
        views[0].state is Joining,
        views[0].in_flight == n,
        0 <= f < n,
        results[f] is Err,
        0 <= i < n,
    ensures
        views[i].in_flight == n - i,
        views[i].session_id == views[0].session_id,
        views[i].state is Joining || views[i].state is Draining,
        i > f ==> views[i].state is Draining,
        forall|k: int| 0 <= k < i ==> #[trigger] actions[k] is AwaitNext || actions[k] is CancelAll,
        views[i].state is Draining ==> exists|k: int| 0 <= k < i && #[trigger] actions[k] is CancelAll,
    decreases i,
{
    if i > 0 {
        let h = i - 1;
        lemma_failed_run(views, results, actions, n, f, h);
        assert(part_finished_spec(views[h], results[h], views[i], actions[h]));
        if views[h].state is Joining && views[i].state is Draining {
            assert(actions[h] is CancelAll);
        }
    }
}

/// A whole join of `n` tasks in which some part fails, whatever the others
/// produce before or after it and in whatever order: the handle never asks
/// for finalization and never reports success; it keeps waiting (having
/// asked once to cancel every task) until the last task is awaited, and only
/// then, with nothing in flight, reports the failure together with the
/// session left uncleaned.
pub proof fn failed_join_drains_and_never_finalizes(
    views: Seq<HandleView>,
    results: Seq<Result<CompletedPart, UploadError>>,
    actions: Seq<Action>,
    n: nat,
    f: int,
)
    requires
        part_run(views, results, actions),
        results.len() == n,
        views[0].state is Joining,
        views[0].in_flight == n,
        0 <= f < n,
        results[f] is Err,
    ensures
        forall|k: int| 0 <= k < n ==> !(#[trigger] actions[k] is Finalize),
        forall|k: int| 0 <= k < n ==> !(#[trigger] actions[k] matches Action::Finish(Ok(_))),
        forall|k: int| 0 <= k < n - 1 ==> #[trigger] actions[k] is AwaitNext || actions[k] is CancelAll,
        f < n - 1 ==> exists|k: int| 0 <= k <= f && #[trigger] actions[k] is CancelAll,
        views[n as int].in_flight == 0,
        views[n as int].state is Failed,
        actions[n - 1] matches Action::Finish(Err(UploadError::UploadFailed(_, pending))),
        opt_view(actions[n - 1]->Finish_0->Err_0->UploadFailed_1) == views[0].session_id,
{
    let last = n - 1;
    lemma_failed_run(views, results, actions, n, f, last);
    assert(part_finished_spec(views[last], results[last], views[last + 1], actions[last]));
    if f < last {
        lemma_failed_run(views, results, actions, n, f, f + 1);
    }
}

/// The part number that outcome `k` of a run reports.
pub open spec fn reported_number(results: Seq<Result<CompletedPart, UploadError>>, k: int) -> int {
    results[k]->Ok_0.part_number as int
}

/// The integrity tag that outcome `k` of a run reports.
pub open spec fn reported_tag(results: Seq<Result<CompletedPart, UploadError>>, k: int) -> Seq<char> {
    results[k]->Ok_0.e_tag@
}

/// Whether `results` reports each of the parts `1..=n` exactly once, all
/// successfully, in some order.
pub open spec fn reports_each_part_once(results: Seq<Result<CompletedPart, UploadError>>, n: nat) -> bool {
    &&& results.len() == n
    &&& forall|k: int| 0 <= k < n ==> (#[trigger] results[k]) is Ok
    &&& forall|k: int| 0 <= k < n ==> 1 <= #[trigger] reported_number(results, k) <= n
    &&& forall|k1: int, k2: int|
        0 <= k1 < k2 < n ==> #[trigger] reported_number(results, k1) != #[trigger] reported_number(
            results,
            k2,
        )
    &&& forall|j: int| 1 <= j <= n ==> #[trigger] is_reported(results, j)
}

/// Whether some outcome of `results` reports part `j`.
pub open spec fn is_reported(results: Seq<Result<CompletedPart, UploadError>>, j: int) -> bool {
    exists|k: int| 0 <= k < results.len() && #[trigger] reported_number(results, k) == j
}

proof fn lemma_ordered_run(
    views: Seq<HandleView>,
    results: Seq<Result<CompletedPart, UploadError>>,
    actions: Seq<Action>,
    n: nat,
    i: int,
)
    requires
        part_run(views, results, actions),
        reports_each_part_once(results, n),
        views[0].state is Joining,
        views[0].in_flight == n,
        views[0].tags.len() == n,
        forall|j: int| 0 <= j < n ==> (#[trigger] views[0].tags[j]) is None,
        0 <= i < n,
    ensures
        views[i].state is Joining,
        views[i].in_flight == n - i,
        views[i].tags.len() == n,
        views[i].request == views[0].request,
        views[i].session_id == views[0].session_id,
        forall|k: int|
            0 <= k < i ==> views[i].tags[reported_number(results, k) - 1] == Some(
                #[trigger] reported_tag(results, k),
            ),
        forall|j: int|
            0 <= j < n && (#[trigger] views[i].tags[j]) is Some ==> exists|k: int|
                0 <= k < i && #[trigger] reported_number(results, k) == j + 1,
        forall|k: int| 0 <= k < i ==> #[trigger] actions[k] is AwaitNext,
    decreases i,
{
    if i > 0 {
        let h = i - 1;
        lemma_ordered_run(views, results, actions, n, h);
        assert(part_finished_spec(views[h], results[h], views[i], actions[h]));
        let p = results[h]->Ok_0;
        assert(reported_number(results, h) == p.part_number);
        if views[h].tags[p.part_number - 1] is Some {
            let k = choose|k: int| 0 <= k < h && #[trigger] reported_number(results, k)
                == p.part_number as int;
            assert(reported_number(results, k) != reported_number(results, h));
        }
        assert(awaited_part(views[h].tags, p.part_number));
        assert forall|k: int| 0 <= k < i implies views[i].tags[reported_number(results, k) - 1]
            == Some(#[trigger] reported_tag(results, k)) by {
            if k < h {
                assert(reported_number(results, k) != reported_number(results, h));
            }
        }
        assert forall|j: int| 0 <= j < n && (#[trigger] views[i].tags[j]) is Some implies exists|
            k: int,
        | 0 <= k < i && #[trigger] reported_number(results, k) == j + 1 by {
            if j != p.part_number - 1 {
                assert(views[h].tags[j] is Some);
            } else {
                assert(reported_number(results, h) == j + 1);
            }
        }
    }
}

/// A whole join in which each of the `n` scheduled parts comes in once, in
/// any order: the handle waits until the last one, then asks for
/// finalization with parts `1..=n` in ascending order, each with the tag
/// its task reported.
pub proof fn every_arrival_order_finalizes_in_order(
    views: Seq<HandleView>,
    results: Seq<Result<CompletedPart, UploadError>>,
    actions: Seq<Action>,
    n: nat,
)
    requires
        n > 0,
        part_run(views, results, actions),
        reports_each_part_once(results, n),
        views[0].state is Joining,
        views[0].in_flight == n,
        views[0].tags.len() == n,
        forall|j: int| 0 <= j < n ==> (#[trigger] views[0].tags[j]) is None,
    ensures
        forall|k: int| 0 <= k < n - 1 ==> #[trigger] actions[k] is AwaitNext,
        actions[n - 1] is Finalize,
        actions[n - 1]->Finalize_0.parts@.len() == n,
        forall|j: int|
            0 <= j < n ==> (#[trigger] actions[n - 1]->Finalize_0.parts@[j]).part_number == j + 1,
        forall|k: int|
            0 <= k < n ==> actions[n - 1]->Finalize_0.parts@[reported_number(results, k) - 1].e_tag@
                == #[trigger] reported_tag(results, k),
{
    let last = n - 1;
    lemma_ordered_run(views, results, actions, n, last);
    assert(part_finished_spec(views[last], results[last], views[last + 1], actions[last]));
    let p = results[last]->Ok_0;
    assert(reported_number(results, last) == p.part_number);
    if views[last].tags[p.part_number - 1] is Some {
        let k = choose|k: int| 0 <= k < last && #[trigger] reported_number(results, k)
            == p.part_number as int;
        assert(reported_number(results, k) != reported_number(results, last));
    }
    let next = HandleView {
        tags: record_part(views[last].tags, p.part_number, p.e_tag@),
        in_flight: 0,
        ..views[last]
    };
    assert forall|k: int| 0 <= k < n implies next.tags[reported_number(results, k) - 1] == Some(
        #[trigger] reported_tag(results, k),
    ) by {
        if k < last {
            assert(reported_number(results, k) != reported_number(results, last));
        }
    }
    assert forall|j: int| 0 <= j < next.tags.len() implies (#[trigger] next.tags[j]) is Some by {
        assert(is_reported(results, j + 1));
        let k = choose|k: int| 0 <= k < n && #[trigger] reported_number(results, k) == j + 1;
        assert(next.tags[reported_number(results, k) - 1] == Some(reported_tag(results, k)));
    }
    assert(all_parts_in(next.tags));
    assert(finish_joining(next, views[last + 1], actions[last]));
}

/// One upload: its context, the response being assembled, and the parts
/// whose tasks have been scheduled. The tasks themselves run elsewhere; the
/// handle decides, from each task's outcome, what happens next.
#[derive(Debug)]
pub struct UploadHandle {
    ctx: UploadContext,
    response: Option<UploadResponseBuilder>,
    state: HandleState,
    tags: Vec<Option<String>>,
    in_flight: usize,
    failure: Option<UploadError>,
}

impl View for UploadHandle {
    type V = HandleView;

    closed spec fn view(&self) -> HandleView {
        HandleView {
            state: self.state,
            request: self.ctx@.request,
            session_id: self.ctx@.session_id,
            response: match self.response {
                Some(b) => Some(b@),
                None => None,
            },
            tags: self.tags@.map_values(|t: Option<String>| opt_view(t)),
            in_flight: self.in_flight as nat,
            failure: self.failure,
        }
    }
}

impl HandleView {
    /// The invariant of every handle.
    pub open spec fn wf(self) -> bool {
        &&& self.in_flight <= self.tags.len() <= MAX_PARTS
        &&& self.state is Draining ==> self.failure is Some
        &&& (self.state is Joining || self.state is Draining || self.state is Completing)
            ==> self.session_id is Some
        &&& self.tags.len() > 0 ==> self.session_id is Some
    }
}

impl UploadHandle {
    /// A handle for `ctx` with no part scheduled and no response yet.
    pub fn new(ctx: UploadContext) -> (r: Self)
        ensures
            r@ == (HandleView {
                state: HandleState::Accumulating,
                request: ctx@.request,
                session_id: ctx@.session_id,
                response: None,
                tags: Seq::empty(),
                in_flight: 0,
                failure: None,
            }),
            r@.wf(),
    {
        let r = UploadHandle {
            ctx,
            response: None,
            state: HandleState::Accumulating,
            tags: Vec::new(),
            in_flight: 0,
            failure: None,
        };
        assert(r@.tags =~= Seq::empty());
        r
    }

    /// Where the upload stands.
    pub fn state(&self) -> (r: HandleState)
        ensures
            r == self@.state,
    {
        self.state
    }

    /// The number of tasks scheduled and not yet awaited.
    pub fn in_flight(&self) -> (r: usize)
        ensures
            r == self@.in_flight,
    {
        self.in_flight
    }

    /// The shared context of the upload.
    pub fn context(&self) -> (r: &UploadContext)
        ensures
            r@.request == self@.request,
            r@.session_id == self@.session_id,
    {
        &self.ctx
    }

    /// Sets the response builder once the upload has started; a session
    /// identifier it carries becomes the context's. A builder whose
    /// identifier would set the session a second time is refused, and the
    /// handle is left as it was.
    pub fn set_response(&mut self, builder: UploadResponseBuilder) -> (r: Result<(), UploadError>)
        requires
            old(self)@.wf(),
        ensures
            final(self)@.wf(),
            builder.upload_id is Some && old(self)@.session_id is Some ==> {
                &&& r == Err::<(), UploadError>(UploadError::UploadIdAlreadySet)
                &&& final(self)@ == old(self)@
            },
            builder.upload_id is None ==> {
                &&& r is Ok
                &&& final(self)@ == (HandleView { response: Some(builder@), ..old(self)@ })
            },
            builder.upload_id is Some && old(self)@.session_id is None ==> {
                &&& r is Ok
                &&& final(self)@ == (HandleView {
                    response: Some(builder@),
                    session_id: opt_view(builder.upload_id),
                    ..old(self)@
                })
            },
    {
        if let Some(id) = &builder.upload_id {
            let r = self.ctx.set_upload_id(id.clone());
            if r.is_err() {
                return r;
            }
        }
        self.response = Some(builder);
        Ok(())
    }

    /// Schedules the next part and gives its number: parts are numbered
    /// 1, 2, 3, ... in the order they are scheduled. Only a handle that is
    /// still accumulating, with a known session, takes new parts.
    pub fn spawn_part(&mut self) -> (r: Result<u32, UploadError>)
        requires
            old(self)@.wf(),
        ensures
            final(self)@.wf(),
            !(old(self)@.state is Accumulating) ==> {
                &&& r == Err::<u32, UploadError>(UploadError::HandleClosed)
                &&& final(self)@ == old(self)@
            },
            old(self)@.state is Accumulating && old(self)@.session_id is None ==> {
                &&& r == Err::<u32, UploadError>(UploadError::MissingUploadId)
                &&& final(self)@ == old(self)@
            },
            old(self)@.state is Accumulating && old(self)@.session_id is Some
                && old(self)@.tags.len() == MAX_PARTS ==> {
                &&& r == Err::<u32, UploadError>(UploadError::TooManyParts)
                &&& final(self)@ == old(self)@
            },
            old(self)@.state is Accumulating && old(self)@.session_id is Some
                && old(self)@.tags.len() < MAX_PARTS ==> {
                &&& r == Ok::<u32, UploadError>((old(self)@.tags.len() + 1) as u32)
                &&& final(self)@ == (HandleView {
                    tags: old(self)@.tags.push(None),
                    in_flight: old(self)@.in_flight + 1,
                    ..old(self)@
                })
            },
    {
        if self.state != HandleState::Accumulating {
            return Err(UploadError::HandleClosed);
        }
        if !self.ctx.is_multipart_upload() {
            return Err(UploadError::MissingUploadId);
        }
        if self.tags.len() == MAX_PARTS {
            return Err(UploadError::TooManyParts);
        }
        self.tags.push(None);
        self.in_flight = self.in_flight + 1;
        assert(self@.tags =~= old(self)@.tags.push(None));
        Ok(self.tags.len() as u32)
    }

    /// Collects the completed parts in part-number order and moves to
    /// finalization, or fails if a part has no tag.
    fn finish_joining(&mut self) -> (a: Action)
        requires
            old(self)@.wf(),
            old(self)@.state is Joining,
            old(self)@.in_flight == 0,
        ensures
            final(self)@.wf(),
            finish_joining(old(self)@, final(self)@, a),
    {
        let ghost tags = self@.tags;
        let mut parts: Vec<CompletedPart> = Vec::new();
        let mut i: usize = 0;
        while i < self.tags.len()
            invariant
                self@ == old(self)@,
                old(self)@.wf(),
                tags == self@.tags,
                i <= self.tags.len() <= MAX_PARTS,
                parts@.len() == i,
                forall|j: int|
                    0 <= j < i ==> (#[trigger] parts@[j]).part_number == j + 1 && tags[j] == Some(
                        parts@[j].e_tag@,
                    ),
                forall|j: int| 0 <= j < i ==> (#[trigger] tags[j]) is Some,
            decreases self.tags.len() - i,
        {
            if self.tags[i].is_none() {
                let ghost pre = self@;
                let n = (i + 1) as u32;
                let a = self.upload_failure(UploadError::MissingPart(n));
                self.state = HandleState::Failed;
                assert(self@ == HandleView { state: HandleState::Failed, ..pre });
                assert(n - 1 == i && tags[n - 1] is None);
                assert(reports_upload_failure(a, UploadError::MissingPart(n), pre.session_id));
                return a;
            }
            let t = self.tags[i].as_ref().unwrap().clone();
            parts.push(CompletedPart { part_number: (i + 1) as u32, e_tag: t });
            i = i + 1;
        }
        let upload_id = match self.ctx.upload_id() {
            Some(id) => id.clone(),
            None => {
                self.state = HandleState::Failed;
                return Action::Finish(Err(UploadError::MissingUploadId));
            },
        };
        self.state = HandleState::Completing;
        Action::Finalize(
            CompleteRequest { request: self.ctx.request().copy(), upload_id, parts },
        )
    }

    /// Reports that the upload failed with `cause`, naming the session that
    /// is left in place.
    fn upload_failure(&self, cause: UploadError) -> (a: Action)
        ensures
            reports_upload_failure(a, cause, self@.session_id),
    {
        let id = match self.ctx.upload_id() {
            Some(id) => Some(id.clone()),
            None => None,
        };
        Action::Finish(Err(UploadError::UploadFailed(Box::new(cause), id)))
    }

    /// The consumer starts waiting for the upload: no part may be added
    /// from now on. Without a response builder the upload fails at once
    /// (its tasks cancelled and drained); with nothing in flight the parts
    /// go straight to finalization.
    pub fn join(&mut self) -> (a: Action)
        requires
            old(self)@.wf(),
        ensures
            final(self)@.wf(),
            !(old(self)@.state is Accumulating) ==> {
                &&& a == Action::Finish(Err(UploadError::HandleClosed))
                &&& final(self)@ == old(self)@
            },
            old(self)@.state is Accumulating && old(self)@.session_id is None ==> {
                &&& a == Action::Finish(Err(UploadError::SingleShotUnsupported))
                &&& final(self)@ == (HandleView { state: HandleState::Failed, ..old(self)@ })
            },
            old(self)@.state is Accumulating && old(self)@.session_id is Some
                && old(self)@.response is None ==> start_draining(
                HandleView { state: HandleState::Joining, ..old(self)@ },
                UploadError::MissingResponse,
                final(self)@,
                a,
            ),
            old(self)@.state is Accumulating && old(self)@.session_id is Some
                && old(self)@.response is Some && old(self)@.in_flight > 0 ==> {
                &&& a is AwaitNext
                &&& final(self)@ == (HandleView { state: HandleState::Joining, ..old(self)@ })
            },
            old(self)@.state is Accumulating && old(self)@.session_id is Some
                && old(self)@.response is Some && old(self)@.in_flight == 0 ==> finish_joining(
                HandleView { state: HandleState::Joining, ..old(self)@ },
                final(self)@,
                a,
            ),
    {
        if self.state != HandleState::Accumulating {
            return Action::Finish(Err(UploadError::HandleClosed));
        }
        if !self.ctx.is_multipart_upload() {
            self.state = HandleState::Failed;
            return Action::Finish(Err(UploadError::SingleShotUnsupported));
        }
        self.state = HandleState::Joining;
        if self.response.is_none() {
            return self.start_draining(UploadError::MissingResponse);
        }
        if self.in_flight > 0 {
            Action::AwaitNext
        } else {
            self.finish_joining()
        }
    }

    /// The upload failed with `f` while joining.
    fn start_draining(&mut self, f: UploadError) -> (a: Action)
        requires
            old(self)@.wf(),
            old(self)@.state is Joining,
        ensures
            final(self)@.wf(),
            start_draining(old(self)@, f, final(self)@, a),
    {
        if self.in_flight == 0 {
            let a = self.upload_failure(f);
            self.state = HandleState::Failed;
            self.failure = None;
            a
        } else {
            self.state = HandleState::Draining;
            self.failure = Some(f);
            Action::CancelAll
        }
    }

    /// A task of the set has ended with `result`. While joining, a part
    /// that comes in is recorded under its number whatever the order of
    /// arrival; the first failure cancels the other tasks, which are then
    /// awaited to the last before that failure is reported, together with
    /// the session left uncleaned. While aborting,
    /// outcomes are only counted.
    pub fn part_finished(&mut self, result: Result<CompletedPart, UploadError>) -> (a: Action)
        requires
            old(self)@.wf(),
        ensures
            final(self)@.wf(),
            part_finished_spec(old(self)@, result, final(self)@, a),
    {
        if self.in_flight == 0 || !(self.state == HandleState::Joining || self.state
            == HandleState::Draining || self.state == HandleState::Aborting) {
            return Action::Finish(Err(UploadError::HandleClosed));
        }
        self.in_flight = self.in_flight - 1;
        if self.state == HandleState::Joining {
            match result {
                Ok(p) => {
                    let n = p.part_number;
                    if 1 <= n && (n as usize) <= self.tags.len() && self.tags[(n - 1) as usize].is_none() {
                        let ghost before = self@;
                        self.tags.set((n - 1) as usize, Some(p.e_tag));
                        assert(self@.tags =~= record_part(before.tags, n, p.e_tag@));
                        if self.in_flight > 0 {
                            Action::AwaitNext
                        } else {
                            self.finish_joining()
                        }
                    } else {
                        self.start_draining(UploadError::UnexpectedPart(n))
                    }
                },
                Err(f) => self.start_draining(f),
            }
        } else if self.state == HandleState::Draining {
            if self.in_flight > 0 {
                Action::AwaitNext
            } else {
                self.state = HandleState::Failed;
                let f = self.failure.take();
                match f {
                    Some(f) => self.upload_failure(f),
                    None => Action::Finish(Err(UploadError::HandleClosed)),
                }
            }
        } else {
            if self.in_flight > 0 {
                Action::AwaitNext
            } else {
                self.abort_done()
            }
        }
    }

    /// Every task is awaited after an abort: report that the remote session
    /// was left in place.
    fn abort_done(&mut self) -> (a: Action)
        requires
            old(self)@.wf(),
            old(self)@.in_flight == 0,
        ensures
            final(self)@.wf(),
            abort_done(old(self)@, final(self)@, a),
    {
        self.state = HandleState::Aborted;
        let id = match self.ctx.upload_id() {
            Some(id) => Some(id.clone()),
            None => None,
        };
        Action::Finish(Err(UploadError::AbortCleanupNotPerformed(id)))
    }

    /// The consumer aborts the upload: every task still in flight is to be
    /// cancelled and awaited. Once none is left the handle reports that the
    /// remote multipart session has not been released.
    pub fn abort(&mut self) -> (a: Action)
        requires
            old(self)@.wf(),
        ensures
            final(self)@.wf(),
            !(old(self)@.state is Accumulating || old(self)@.state is Joining
                || old(self)@.state is Draining || old(self)@.state is Completing) ==> {
                &&& a == Action::Finish(Err(UploadError::HandleClosed))
                &&& final(self)@ == old(self)@
            },
            (old(self)@.state is Accumulating || old(self)@.state is Joining
                || old(self)@.state is Draining || old(self)@.state is Completing) ==> {
                if old(self)@.in_flight > 0 {
                    &&& a is CancelAll
                    &&& final(self)@ == (HandleView {
                        state: HandleState::Aborting,
                        ..old(self)@
                    })
                } else {
                    abort_done(old(self)@, final(self)@, a)
                }
            },
    {
        if !(self.state == HandleState::Accumulating || self.state == HandleState::Joining
            || self.state == HandleState::Draining || self.state == HandleState::Completing) {
            return Action::Finish(Err(UploadError::HandleClosed));
        }
        if self.in_flight > 0 {
            self.state = HandleState::Aborting;
            Action::CancelAll
        } else {
            self.abort_done()
        }
    }

    /// The finalization call has returned `result`: on success the
    /// response is completed with the fields it returned and handed out.
    pub fn finalized(&mut self, result: Result<CompleteOutput, UploadError>) -> (a: Action)
        requires
            old(self)@.wf(),
        ensures
            final(self)@.wf(),
            finalized_spec(old(self)@, result, final(self)@, a),
    {
        if self.state != HandleState::Completing {
            return Action::Finish(Err(UploadError::HandleClosed));
        }
        match result {
            Err(f) => {
                self.state = HandleState::Failed;
                Action::Finish(Err(f))
            },
            Ok(out) => {
                let ghost pre = self@;
                match self.response.take() {
                    None => {
                        self.state = HandleState::Failed;
                        assert(self@ == HandleView { state: HandleState::Failed, ..pre });
                        Action::Finish(Err(UploadError::MissingResponse))
                    },
                    Some(b) => {
                        let b = b.set_e_tag(out.e_tag).set_expiration(out.expiration).set_version_id(
                            out.version_id,
                        );
                        let mismatch = match &b.upload_id {
                            Some(x) => match self.ctx.upload_id() {
                                Some(y) => !x.eq(y),
                                None => true,
                            },
                            None => false,
                        };
                        if mismatch {
                            self.state = HandleState::Failed;
                            return Action::Finish(
                                Err(UploadError::InvalidResponse(BuildError::UploadIdMismatch)),
                            );
                        }
                        match b.build(true) {
                            Ok(resp) => {
                                self.state = HandleState::Completed;
                                Action::Finish(Ok(resp))
                            },
                            Err(e) => {
                                self.state = HandleState::Failed;
                                Action::Finish(Err(UploadError::InvalidResponse(e)))
                            },
                        }
                    },
                }
            },
        }
    }
}

} // verus!
