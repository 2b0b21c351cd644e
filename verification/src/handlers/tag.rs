//! Tags: the slug of a new tag, and the all-or-nothing replacement of an
//! article's tag set, both as a protocol of storage statements and as a
//! store that follows it.

use vstd::prelude::*;
use crate::error::{ApiError, Outcome};
use crate::models::tag::CreateTagSchema;
use crate::models::user::Claims;
use crate::policy::{authorize, decision, Capability, Resource};
use crate::slug::{lowercase_of, slug_of, slugify};

verus! {

broadcast use vstd::seq_lib::lemma_seq_contains_after_push;

/// The body of a tag-replace request: the full desired set, not a delta.
#[derive(Debug, Clone)]
pub struct TagAssignment {
    pub tag_ids: Vec<i32>,
}

/// The slug a new tag is stored under: the one given, else the slug of its name.
pub fn tag_slug(body: &CreateTagSchema) -> (r: String)
    ensures
        r@ == match body.slug {
            Some(given) => given@,
            None => slug_of(lowercase_of(body.name@)),
        },
{
    match &body.slug {
        Some(given) => given.clone(),
        None => slugify(body.name.as_str()),
    }
}

/// What creating a tag reports: `Created`, or `BadRequest` where the store
/// refused the row.
pub fn create_tag_outcome(inserted: bool) -> (r: Outcome)
    ensures
        r == if inserted {
            Outcome::Created
        } else {
            Outcome::Failed(ApiError::BadRequest)
        },
{
    if inserted {
        Outcome::Created
    } else {
        Outcome::Failed(ApiError::BadRequest)
    }
}

/// What is persisted about tags: the tags that exist, and for every
/// article the set of tags assigned to it.
pub struct Assignments {
    pub known: Set<i32>,
    pub tags: Map<i64, Set<i32>>,
}

/// The tags that the rows of the relation assign to an article.
pub open spec fn assigned(rows: Seq<(i64, i32)>, article: i64) -> Set<i32> {
    Set::new(|t: i32| rows.contains((article, t)))
}

/// Tag replacement as one step. Where every requested tag exists, the
/// article's set becomes the requested one and nothing else changes;
/// otherwise nothing changes at all and the request is a `BadRequest`.
pub open spec fn replace_tags(before: Assignments, article: i64, requested: Seq<i32>) -> (
    Assignments,
    Result<(), ApiError>,
) {
    if requested.to_set().subset_of(before.known) {
        (
            Assignments {
                known: before.known,
                tags: before.tags.insert(article, requested.to_set()),
            },
            Ok(()),
        )
    } else {
        (before, Err(ApiError::BadRequest))
    }
}

/// Where a replace request stands.
#[derive(Clone, Copy, Debug, PartialEq, Eq, Structural)]
pub enum TxPhase {
    /// Nothing has been asked of the store yet.
    Idle,
    /// The unit of work is being opened.
    Beginning,
    /// The article's existing assignments are being deleted.
    Clearing,
    /// The requested tag at this position is being inserted.
    Inserting(usize),
    /// The unit of work is being committed.
    Committing,
    /// The request has been answered.
    Finished,
}

/// What the coordinator asks for next.
#[derive(Clone, Copy, Debug, PartialEq, Eq, Structural)]
pub enum TxAction {
    /// Open a unit of work.
    Begin,
    /// Delete every assignment of the article.
    Clear,
    /// Insert an assignment of this tag, tolerating one that is already there.
    Insert(i32),
    /// Commit the unit of work.
    Commit,
    /// Roll the unit of work back, then answer with this failure.
    Abort(ApiError),
    /// Answer the request.
    Respond(Outcome),
}

/// The protocol: begin, clear, insert each requested tag in order, commit,
/// answer `NoContent`. `ok` says whether the statement in flight succeeded.
/// A failure to begin or to commit is `Internal`; a failed clear rolls back
/// and is `Internal`; a failed insert rolls back and is `BadRequest`.
/// Once finished the coordinator stays so, and has only `Internal` to say.
pub open spec fn next_step(phase: TxPhase, requested: Seq<i32>, ok: bool) -> (TxPhase, TxAction) {
    match phase {
        TxPhase::Idle => (TxPhase::Beginning, TxAction::Begin),
        TxPhase::Beginning => if ok {
            (TxPhase::Clearing, TxAction::Clear)
        } else {
            (TxPhase::Finished, TxAction::Respond(Outcome::Failed(ApiError::Internal)))
        },
        TxPhase::Clearing => if !ok {
            (TxPhase::Finished, TxAction::Abort(ApiError::Internal))
        } else if requested.len() > 0 {
            (TxPhase::Inserting(0), TxAction::Insert(requested[0]))
        } else {
            (TxPhase::Committing, TxAction::Commit)
        },
        TxPhase::Inserting(i) => if !ok {
            (TxPhase::Finished, TxAction::Abort(ApiError::BadRequest))
        } else if i + 1 < requested.len() {
            (TxPhase::Inserting((i + 1) as usize), TxAction::Insert(requested[i + 1]))
        } else {
            (TxPhase::Committing, TxAction::Commit)
        },
        TxPhase::Committing => if ok {
            (TxPhase::Finished, TxAction::Respond(Outcome::NoContent))
        } else {
            (TxPhase::Finished, TxAction::Respond(Outcome::Failed(ApiError::Internal)))
        },
        TxPhase::Finished => (TxPhase::Finished, TxAction::Respond(Outcome::Failed(ApiError::Internal))),
    }
}

/// The coordinator's next move, given the phase it is in and whether the
/// statement in flight succeeded.
pub fn advance(phase: TxPhase, tag_ids: &Vec<i32>, ok: bool) -> (r: (TxPhase, TxAction))
    ensures
        r == next_step(phase, tag_ids@, ok),
{
    match phase {
        TxPhase::Idle => (TxPhase::Beginning, TxAction::Begin),
        TxPhase::Beginning => if ok {
            (TxPhase::Clearing, TxAction::Clear)
        } else {
            (TxPhase::Finished, TxAction::Respond(Outcome::Failed(ApiError::Internal)))
        },
        TxPhase::Clearing => if !ok {
            (TxPhase::Finished, TxAction::Abort(ApiError::Internal))
        } else if tag_ids.len() > 0 {
            (TxPhase::Inserting(0), TxAction::Insert(tag_ids[0]))
        } else {
            (TxPhase::Committing, TxAction::Commit)
        },
        TxPhase::Inserting(i) => if !ok {
            (TxPhase::Finished, TxAction::Abort(ApiError::BadRequest))
        } else if tag_ids.len() > 0 && i < tag_ids.len() - 1 {
            (TxPhase::Inserting(i + 1), TxAction::Insert(tag_ids[i + 1]))
        } else {
            (TxPhase::Committing, TxAction::Commit)
        },
        TxPhase::Committing => if ok {
            (TxPhase::Finished, TxAction::Respond(Outcome::NoContent))
        } else {
            (TxPhase::Finished, TxAction::Respond(Outcome::Failed(ApiError::Internal)))
        },
        TxPhase::Finished => (
            TxPhase::Finished,
            TxAction::Respond(Outcome::Failed(ApiError::Internal)),
        ),
    }
}

/// After a statement fails the coordinator asks nothing more of the unit of
/// work than to roll it back: it never commits and never goes on inserting.
pub proof fn lemma_failure_ends_without_commit(phase: TxPhase, requested: Seq<i32>)
    requires
        phase != TxPhase::Idle,
    ensures
        next_step(phase, requested, false).0 == TxPhase::Finished,
        next_step(phase, requested, false).1 is Abort || next_step(phase, requested, false).1
            is Respond,
        next_step(phase, requested, false).1 != TxAction::Respond(Outcome::NoContent),
{
}

/// A commit is asked for only once the clear and every requested insert
/// have succeeded.
pub proof fn lemma_commit_after_all_inserts(phase: TxPhase, requested: Seq<i32>, ok: bool)
    requires
        next_step(phase, requested, ok).1 == TxAction::Commit,
    ensures
        ok,
        phase == TxPhase::Clearing && requested.len() == 0 || (phase matches TxPhase::Inserting(i)
            && i + 1 >= requested.len()),
{
}

/// What a store makes of the coordinator's moves, from the phase it is in
/// to the answer: the persisted assignments at the end, and the outcome.
/// The store keeps a working copy beside what is persisted. `Begin` copies
/// the persisted state, `Clear` and `Insert` change the copy only, an
/// insert of a tag that does not exist fails and changes nothing, `Commit`
/// persists the copy, and a roll back drops it. `steps` bounds the run.
pub open spec fn run(
    phase: TxPhase,
    ok: bool,
    requested: Seq<i32>,
    article: i64,
    persisted: Assignments,
    working: Assignments,
    steps: nat,
) -> (Assignments, Outcome)
    decreases steps,
{
    if steps == 0 {
        (persisted, Outcome::Failed(ApiError::Internal))
    } else {
        let (next, action) = next_step(phase, requested, ok);
        let left = (steps - 1) as nat;
        match action {
            TxAction::Begin => run(next, true, requested, article, persisted, persisted, left),
            TxAction::Clear => run(
                next,
                true,
                requested,
                article,
                persisted,
                with_tags(working, article, Set::empty()),
                left,
            ),
            TxAction::Insert(tag) => if working.known.contains(tag) {
                run(
                    next,
                    true,
                    requested,
                    article,
                    persisted,
                    with_tags(working, article, working.tags[article].insert(tag)),
                    left,
                )
            } else {
                run(next, false, requested, article, persisted, working, left)
            },
            TxAction::Commit => run(next, true, requested, article, working, working, left),
            TxAction::Abort(e) => (persisted, Outcome::Failed(e)),
            TxAction::Respond(outcome) => (persisted, outcome),
        }
    }
}

/// The assignments with the tag set of one article replaced.
pub open spec fn with_tags(state: Assignments, article: i64, tags: Set<i32>) -> Assignments {
    Assignments { known: state.known, tags: state.tags.insert(article, tags) }
}

/// The outcome that goes with the result of a replacement.
pub open spec fn replace_outcome(result: Result<(), ApiError>) -> Outcome {
    match result {
        Ok(_) => Outcome::NoContent,
        Err(e) => Outcome::Failed(e),
    }
}

/// From the moment the insert at position `i` has been tried, the run
/// ends as the replacement as one step does.
proof fn lemma_run_from_insert(
    before: Assignments,
    article: i64,
    requested: Seq<i32>,
    i: int,
    working: Assignments,
    steps: nat,
)
    requires
        0 <= i < requested.len() < usize::MAX,
        steps >= requested.len() - i + 1,
        forall|j: int| 0 <= j < i ==> before.known.contains(#[trigger] requested[j]),
        before.known.contains(requested[i]) ==> working == with_tags(
            before,
            article,
            requested.take(i + 1).to_set(),
        ),
    ensures
        run(
            TxPhase::Inserting(i as usize),
            before.known.contains(requested[i]),
            requested,
            article,
            before,
            working,
            steps,
        ) == (
            replace_tags(before, article, requested).0,
            replace_outcome(replace_tags(before, article, requested).1),
        ),
    decreases requested.len() - i,
{
    broadcast use vstd::seq::Seq::lemma_push_to_set_commute;

    reveal_with_fuel(run, 3);
    if !before.known.contains(requested[i]) {
        lemma_replace_atomic(before, article, requested, i);
    } else if i + 1 < requested.len() {
        let tag = requested[i + 1];
        assert(requested.take(i + 2) == requested.take(i + 1).push(tag));
        let grown = with_tags(working, article, working.tags[article].insert(tag));
        assert(grown.tags =~= with_tags(before, article, requested.take(i + 2).to_set()).tags);
        lemma_run_from_insert(
            before,
            article,
            requested,
            i + 1,
            if before.known.contains(tag) {
                grown
            } else {
                working
            },
            (steps - 1) as nat,
        );
    } else {
        assert(requested.take(i + 1) == requested);
        lemma_replace_success(before, article, requested);
    }
}

/// The protocol and the replacement as one step agree. Run from the start
/// against a store in which only the insert of a tag that does not exist
/// fails, the coordinator's moves persist exactly what `replace_tags`
/// says, and answer `NoContent` or `BadRequest` as it does. So a request
/// with an invalid tag leaves what was persisted, and a request whose tags
/// all exist leaves the requested set.
pub proof fn lemma_protocol_replaces(before: Assignments, article: i64, requested: Seq<i32>)
    requires
        requested.len() < usize::MAX,
    ensures
        run(TxPhase::Idle, true, requested, article, before, before, requested.len() + 4) == (
            replace_tags(before, article, requested).0,
            replace_outcome(replace_tags(before, article, requested).1),
        ),
{
    broadcast use vstd::seq::Seq::lemma_push_to_set_commute;

    reveal_with_fuel(run, 5);
    let emptied = with_tags(before, article, Set::empty());
    if requested.len() == 0 {
        assert(requested.to_set() =~= Set::<i32>::empty());
    } else {
        let tag = requested[0];
        assert(requested.take(1) == Seq::<i32>::empty().push(tag));
        assert(Seq::<i32>::empty().to_set() =~= Set::<i32>::empty());
        let grown = with_tags(emptied, article, emptied.tags[article].insert(tag));
        assert(grown.tags =~= with_tags(before, article, requested.take(1).to_set()).tags);
        lemma_run_from_insert(
            before,
            article,
            requested,
            0,
            if before.known.contains(tag) {
                grown
            } else {
                emptied
            },
            (requested.len() + 1) as nat,
        );
    }
}

/// An in-memory tag relation that follows the protocol: a replace works on
/// a copy and installs it only on commit.
pub struct TagStore {
    known: Vec<i32>,
    rows: Vec<(i64, i32)>,
}

impl View for TagStore {
    type V = Assignments;

    closed spec fn view(&self) -> Assignments {
        Assignments {
            known: self.known@.to_set(),
            tags: Map::total(|a: i64| assigned(self.rows@, a)),
        }
    }
}

/// A sequence without repetition stays so when a new element is appended.
proof fn lemma_push_fresh<T>(s: Seq<T>, x: T)
    requires
        s.no_duplicates(),
        !s.contains(x),
    ensures
        s.push(x).no_duplicates(),
{
    assert forall|i: int, j: int|
        0 <= i < s.push(x).len() && 0 <= j < s.push(x).len() && i != j implies s.push(x)[i]
        != s.push(x)[j] by {
        if i < s.len() {
            assert(s.contains(s[i]));
        }
        if j < s.len() {
            assert(s.contains(s[j]));
        }
    }
}

/// Whether `tag` is among `known`.
fn knows(known: &Vec<i32>, tag: i32) -> (r: bool)
    ensures
        r == known@.contains(tag),
{
    let mut i: usize = 0;
    while i < known.len()
        invariant
            i <= known.len(),
            forall|j: int| 0 <= j < i ==> known@[j] != tag,
        decreases known.len() - i,
    {
        if known[i] == tag {
            return true;
        }
        i += 1;
    }
    false
}

/// Whether the relation holds the row.
fn has_row(rows: &Vec<(i64, i32)>, article: i64, tag: i32) -> (r: bool)
    ensures
        r == rows@.contains((article, tag)),
{
    let mut i: usize = 0;
    while i < rows.len()
        invariant
            i <= rows.len(),
            forall|j: int| 0 <= j < i ==> rows@[j] != (article, tag),
        decreases rows.len() - i,
    {
        if rows[i].0 == article && rows[i].1 == tag {
            return true;
        }
        i += 1;
    }
    false
}

/// The relation without the rows of one article.
fn cleared(rows: &Vec<(i64, i32)>, article: i64) -> (r: Vec<(i64, i32)>)
    requires
        rows@.no_duplicates(),
    ensures
        r@.no_duplicates(),
        forall|x: (i64, i32)| #[trigger] r@.contains(x) <==> rows@.contains(x) && x.0 != article,
{
    let mut out: Vec<(i64, i32)> = Vec::new();
    let mut i: usize = 0;
    while i < rows.len()
        invariant
            i <= rows.len(),
            rows@.no_duplicates(),
            out@.no_duplicates(),
            forall|x: (i64, i32)| #[trigger]
                out@.contains(x) <==> rows@.subrange(0, i as int).contains(x) && x.0 != article,
        decreases rows.len() - i,
    {
        let row = rows[i];
        proof {
            assert(rows@.subrange(0, i + 1) == rows@.subrange(0, i as int).push(row));
            if rows@.subrange(0, i as int).contains(row) {
                let j = choose|j: int|
                    0 <= j < rows@.subrange(0, i as int).len() && rows@.subrange(0, i as int)[j]
                        == row;
                assert(rows@[j] == rows@[i as int]);
            }
        }
        if row.0 != article {
            proof {
                lemma_push_fresh(out@, row);
            }
            out.push(row);
        }
        i += 1;
    }
    proof {
        assert(rows@.subrange(0, rows.len() as int) == rows@);
    }
    out
}

/// Adds the row unless it is there already.
fn insert_row(rows: &mut Vec<(i64, i32)>, article: i64, tag: i32)
    requires
        old(rows)@.no_duplicates(),
    ensures
        final(rows)@.no_duplicates(),
        forall|x: (i64, i32)| #[trigger]
            final(rows)@.contains(x) <==> old(rows)@.contains(x) || x == (article, tag),
{
    if !has_row(rows, article, tag) {
        proof {
            lemma_push_fresh(rows@, (article, tag));
        }
        rows.push((article, tag));
    }
}

impl TagStore {
    /// Whether nothing is assigned twice.
    pub closed spec fn wf(&self) -> bool {
        self.rows@.no_duplicates()
    }

    /// A store in which these tags exist and nothing is assigned.
    pub fn new(known: Vec<i32>) -> (r: TagStore)
        ensures
            r.wf(),
            r@.known == known@.to_set(),
            forall|a: i64| #[trigger] r@.tags[a] == Set::<i32>::empty(),
    {
        let r = TagStore { known, rows: Vec::new() };
        proof {
            assert forall|a: i64| #[trigger] r@.tags[a] == Set::<i32>::empty() by {
                assert(assigned(r.rows@, a) =~= Set::<i32>::empty());
            }
        }
        r
    }

    /// The tags assigned to an article, each once.
    pub fn tags_of(&self, article_id: i64) -> (r: Vec<i32>)
        requires
            self.wf(),
        ensures
            r@.to_set() == self@.tags[article_id],
            r@.no_duplicates(),
    {
        let mut out: Vec<i32> = Vec::new();
        let mut i: usize = 0;
        while i < self.rows.len()
            invariant
                i <= self.rows.len(),
                self.rows@.no_duplicates(),
                out@.no_duplicates(),
                forall|t: i32| #[trigger]
                    out@.contains(t) <==> self.rows@.subrange(0, i as int).contains((article_id, t)),
            decreases self.rows.len() - i,
        {
            let row = self.rows[i];
            proof {
                assert(self.rows@.subrange(0, i + 1) == self.rows@.subrange(0, i as int).push(row));
                if self.rows@.subrange(0, i as int).contains(row) {
                    let j = choose|j: int|
                        0 <= j < self.rows@.subrange(0, i as int).len() && self.rows@.subrange(
                            0,
                            i as int,
                        )[j] == row;
                    assert(self.rows@[j] == self.rows@[i as int]);
                }
            }
            if row.0 == article_id {
                proof {
                    lemma_push_fresh(out@, row.1);
                }
                out.push(row.1);
            }
            i += 1;
        }
        proof {
            assert(self.rows@.subrange(0, self.rows.len() as int) == self.rows@);
            assert(out@.to_set() =~= assigned(self.rows@, article_id));
        }
        out
    }

    /// Replaces the article's tag set as one unit of work: the existing
    /// assignments are cleared and the requested ones inserted on a copy,
    /// which is installed only if every insert succeeded. An insert of a
    /// tag that does not exist fails, and then nothing is changed.
    pub fn set_tags(&mut self, article_id: i64, tag_ids: &Vec<i32>) -> (r: Result<(), ApiError>)
        requires
            old(self).wf(),
        ensures
            final(self).wf(),
            (final(self)@, r) == replace_tags(old(self)@, article_id, tag_ids@),
    {
        let mut working = cleared(&self.rows, article_id);
        let mut i: usize = 0;
        while i < tag_ids.len()
            invariant
                i <= tag_ids.len(),
                *self == *old(self),
                self.wf(),
                working@.no_duplicates(),
                forall|j: int| 0 <= j < i ==> self.known@.contains(#[trigger] tag_ids@[j]),
                forall|x: (i64, i32)| #[trigger]
                    working@.contains(x) <==> (self.rows@.contains(x) && x.0 != article_id) || (x.0
                        == article_id && tag_ids@.subrange(0, i as int).contains(x.1)),
            decreases tag_ids.len() - i,
        {
            let tag = tag_ids[i];
            if !knows(&self.known, tag) {
                proof {
                    assert(tag_ids@.to_set().contains(tag));
                }
                return Err(ApiError::BadRequest);
            }
            proof {
                assert(tag_ids@.subrange(0, i + 1) == tag_ids@.subrange(0, i as int).push(tag));
            }
            insert_row(&mut working, article_id, tag);
            i += 1;
        }
        proof {
            assert(tag_ids@.subrange(0, tag_ids.len() as int) == tag_ids@);
            assert(tag_ids@.to_set().subset_of(self.known@.to_set())) by {
                assert forall|t: i32| tag_ids@.to_set().contains(t) implies self.known@.to_set().contains(
                    t,
                ) by {
                    let j = choose|j: int| 0 <= j < tag_ids@.len() && tag_ids@[j] == t;
                    assert(self.known@.contains(tag_ids@[j]));
                }
            }
            let after = Map::total(|a: i64| assigned(working@, a));
            let expected = old(self)@.tags.insert(article_id, tag_ids@.to_set());
            assert(after =~= expected) by {
                assert forall|a: i64| #[trigger] after[a] == expected[a] by {
                    if a == article_id {
                        assert(assigned(working@, a) =~= tag_ids@.to_set()) by {
                            assert forall|t: i32|
                                assigned(working@, a).contains(t) == tag_ids@.to_set().contains(
                                    t,
                                ) by {
                                assert(working@.contains((a, t)) <==> tag_ids@.contains(t));
                            }
                        }
                    } else {
                        assert(assigned(working@, a) =~= assigned(self.rows@, a)) by {
                            assert forall|t: i32|
                                assigned(working@, a).contains(t) == assigned(
                                    self.rows@,
                                    a,
                                ).contains(t) by {
                                assert(working@.contains((a, t)) <==> self.rows@.contains((a, t)));
                            }
                        }
                    }
                }
            }
        }
        self.rows = working;
        Ok(())
    }
}

/// Where a mutation request stands. `Rejected`, `Committed` and
/// `RolledBack` are final; nothing is retried.
#[derive(Clone, Copy, Debug, PartialEq, Eq, Structural)]
pub enum RequestState {
    /// Not looked at yet.
    Pending,
    /// The access policy is being asked.
    Authorizing,
    /// Refused before anything was changed.
    Rejected(ApiError),
    /// The unit of work is under way.
    Executing,
    /// The unit of work was committed.
    Committed,
    /// The unit of work failed and was undone.
    RolledBack(ApiError),
}

/// What moves a mutation request on.
#[derive(Clone, Copy, Debug, PartialEq, Eq, Structural)]
pub enum RequestEvent {
    /// The request came in.
    Received,
    /// The access policy allowed it.
    Allowed,
    /// The access policy refused it.
    Denied(ApiError),
    /// The unit of work was committed.
    Succeeded,
    /// The unit of work failed.
    Failed(ApiError),
}

/// Whether a request in this state is over.
pub open spec fn is_final(state: RequestState) -> bool {
    state is Rejected || state is Committed || state is RolledBack
}

/// The life of a mutation request: received, then authorized or rejected,
/// then committed or rolled back. An event that does not fit the state
/// changes nothing.
pub open spec fn request_next(state: RequestState, event: RequestEvent) -> RequestState {
    match (state, event) {
        (RequestState::Pending, RequestEvent::Received) => RequestState::Authorizing,
        (RequestState::Authorizing, RequestEvent::Allowed) => RequestState::Executing,
        (RequestState::Authorizing, RequestEvent::Denied(e)) => RequestState::Rejected(e),
        (RequestState::Executing, RequestEvent::Succeeded) => RequestState::Committed,
        (RequestState::Executing, RequestEvent::Failed(e)) => RequestState::RolledBack(e),
        _ => state,
    }
}

/// Moves a mutation request on by one event.
pub fn request_step(state: RequestState, event: RequestEvent) -> (r: RequestState)
    ensures
        r == request_next(state, event),
{
    match (state, event) {
        (RequestState::Pending, RequestEvent::Received) => RequestState::Authorizing,
        (RequestState::Authorizing, RequestEvent::Allowed) => RequestState::Executing,
        (RequestState::Authorizing, RequestEvent::Denied(e)) => RequestState::Rejected(e),
        (RequestState::Executing, RequestEvent::Succeeded) => RequestState::Committed,
        (RequestState::Executing, RequestEvent::Failed(e)) => RequestState::RolledBack(e),
        _ => state,
    }
}

/// What a request that is over answers; a request under way answers nothing yet.
pub fn request_outcome(state: RequestState) -> (r: Option<Outcome>)
    ensures
        r == match state {
            RequestState::Committed => Some(Outcome::NoContent),
            RequestState::Rejected(e) => Some(Outcome::Failed(e)),
            RequestState::RolledBack(e) => Some(Outcome::Failed(e)),
            _ => None::<Outcome>,
        },
{
    match state {
        RequestState::Committed => Some(Outcome::NoContent),
        RequestState::Rejected(e) => Some(Outcome::Failed(e)),
        RequestState::RolledBack(e) => Some(Outcome::Failed(e)),
        _ => None,
    }
}

/// A request that is over stays as it is; execution starts only from an
/// allowed authorization, and a commit only from execution.
pub proof fn lemma_request_lifecycle(state: RequestState, event: RequestEvent)
    ensures
        is_final(state) ==> request_next(state, event) == state,
        request_next(state, event) == RequestState::Executing ==> state == RequestState::Executing
            || (state == RequestState::Authorizing && event == RequestEvent::Allowed),
        request_next(state, event) == RequestState::Committed ==> state == RequestState::Committed
            || (state == RequestState::Executing && event == RequestEvent::Succeeded),
{
}

/// Handles a tag-replace request against the store from start to end. It
/// is an administrative action: without an elevated assertion the request
/// is rejected and the store is not touched. Otherwise the replacement
/// runs as one unit of work and is committed, or rolled back with
/// `BadRequest`, exactly as `replace_tags` says.
pub fn set_article_tags_handler(
    store: &mut TagStore,
    assertion: Option<&Claims>,
    article_id: i64,
    body: &TagAssignment,
) -> (r: RequestState)
    requires
        old(store).wf(),
    ensures
        final(store).wf(),
        match decision(assertion, Capability::AdminOnly, Resource::Unowned) {
            Err(e) => r == RequestState::Rejected(e) && final(store)@ == old(store)@,
            Ok(_) => final(store)@ == replace_tags(old(store)@, article_id, body.tag_ids@).0
                && r == match replace_tags(old(store)@, article_id, body.tag_ids@).1 {
                Ok(_) => RequestState::Committed,
                Err(e) => RequestState::RolledBack(e),
            },
        },
{
    let received = request_step(RequestState::Pending, RequestEvent::Received);
    let decided = match authorize(assertion, Capability::AdminOnly, Resource::Unowned) {
        Ok(_) => request_step(received, RequestEvent::Allowed),
        Err(e) => request_step(received, RequestEvent::Denied(e)),
    };
    match decided {
        RequestState::Executing => match store.set_tags(article_id, &body.tag_ids) {
            Ok(_) => request_step(decided, RequestEvent::Succeeded),
            Err(e) => request_step(decided, RequestEvent::Failed(e)),
        },
        _ => decided,
    }
}

/// Replacing twice with the same request is replacing once: the second
/// request succeeds or fails as the first did and leaves what the first left.
pub proof fn lemma_replace_idempotent(before: Assignments, article: i64, requested: Seq<i32>)
    ensures
        replace_tags(replace_tags(before, article, requested).0, article, requested)
            == replace_tags(before, article, requested),
{
    let once = replace_tags(before, article, requested).0;
    let twice = replace_tags(once, article, requested).0;
    assert(twice.tags =~= once.tags);
}

/// Only the set of requested tags counts: repeated ids and their order
/// change nothing, and after a success the article holds each requested
/// tag once and no other.
pub proof fn lemma_replace_collapses_duplicates(
    before: Assignments,
    article: i64,
    first: Seq<i32>,
    second: Seq<i32>,
)
    requires
        first.to_set() == second.to_set(),
    ensures
        replace_tags(before, article, first) == replace_tags(before, article, second),
        replace_tags(before, article, first).1 is Ok ==> replace_tags(
            before,
            article,
            first,
        ).0.tags[article] == first.to_set(),
{
}

/// A request that names even one tag that does not exist changes nothing,
/// however many valid ones it names, and is a `BadRequest`.
pub proof fn lemma_replace_atomic(before: Assignments, article: i64, requested: Seq<i32>, i: int)
    requires
        0 <= i < requested.len(),
        !before.known.contains(requested[i]),
    ensures
        replace_tags(before, article, requested) == (
            before,
            Err::<(), ApiError>(ApiError::BadRequest),
        ),
{
    assert(requested.to_set().contains(requested[i]));
}

/// A request whose tags all exist succeeds, and touches no other article.
pub proof fn lemma_replace_success(before: Assignments, article: i64, requested: Seq<i32>)
    requires
        forall|i: int| 0 <= i < requested.len() ==> before.known.contains(#[trigger] requested[i]),
    ensures
        replace_tags(before, article, requested).1 is Ok,
        replace_tags(before, article, requested).0.known == before.known,
        forall|other: i64|
            other != article && before.tags.dom().contains(other) ==> #[trigger] replace_tags(
                before,
                article,
                requested,
            ).0.tags[other] == before.tags[other],
{
    assert forall|t: i32| requested.to_set().contains(t) implies before.known.contains(t) by {
        let j = choose|j: int| 0 <= j < requested.len() && requested[j] == t;
        assert(before.known.contains(requested[j]));
    }
}

} // verus!
