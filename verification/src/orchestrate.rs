//! The mutation orchestrator, as a state machine. One request walks through
//! its phases once: load the user's diaries, find the stable index and plan a
//! branch for every variant, wait for all branches, store the new source,
//! report its length. Whoever drives the machine carries out each action and
//! reports what happened as the next event.

use vstd::prelude::*;
use vstd::string::StringExecFns;

use crate::diary::{is_variant, Diary, DiaryContent, DiaryId, HUMAN_ID, VARIANT_COUNT};
use crate::error::{lifted, ApplicationError, DomainError};
use crate::locate::{locate, stable_index};
use crate::reconcile::{
    finish_variant, lemma_edit_is_mutated_anew, lemma_repeat_is_idempotent, needs_transform,
    plan_variant, reconciled, VariantPlan,
};
use crate::text::{first_chars, is_blank};
use crate::transform::{
    build_request, request_text, response_text, ChatRequest, ServiceResponse, Style,
    TransformReply, MODEL, ROLE,
};
use crate::user::{User, UserId};

verus! {

/// The kind of entity that a request cannot do without.
pub const USER_ENTITY: &'static str = "User";

/// What is reported where an event does not belong to the phase it meets.
pub const OUT_OF_ORDER: &'static str = "event does not fit the phase of the request";

/// What is reported where the outcomes handed back are not one per branch.
pub const BRANCH_COUNT_MISMATCH: &'static str = "the branches' outcomes are not one per variant";

/// What is reported where a branch that waits for the service is brought to
/// its end without a response.
pub const NO_RESPONSE: &'static str = "a branch that called the service was given no response";

/// Where a mutation request stands.
#[derive(Debug, Clone, Copy, PartialEq, Eq, Structural)]
pub enum Phase {
    /// The user's diaries have been asked for.
    Loading,
    /// One branch per variant is under way.
    Dispatched,
    /// Every branch has stored its variant; the new source is being stored.
    Joined,
    /// The request is over; its result has been handed out.
    Done,
}

/// The work for one variant: bring the plan to an end, then store the diary
/// under `id`.
#[derive(Debug, PartialEq, Eq)]
pub struct Branch {
    pub id: DiaryId,
    pub plan: VariantPlan,
}

impl Branch {
    /// The request that this branch sends to the service; none where its
    /// variant is settled without the service.
    pub fn request(&self) -> (r: Option<ChatRequest>)
        ensures
            match self.plan {
                VariantPlan::Settled(_) => r is None,
                VariantPlan::Pending { style, prefix, suffix } => {
                    &&& r matches Some(q)
                    &&& q.model@ == MODEL@
                    &&& q.role@ == ROLE@
                    &&& q.content@ == request_text(style, suffix@)
                },
            },
    {
        match &self.plan {
            VariantPlan::Settled(_) => None,
            VariantPlan::Pending { style, prefix, suffix } => Some(
                build_request(*style, suffix.as_str()),
            ),
        }
    }

    /// Whether `r` is the end of this branch, given the response of the
    /// service where the branch called it. A settled variant needs no
    /// response and ignores one. A pending one puts what the response stands
    /// for behind the text it keeps; it fails where there is no response,
    /// where the response is unreadable, and where the text so made is empty.
    pub open spec fn ends_as(self, response: Option<ServiceResponse>, r: Result<Diary, DomainError>) -> bool {
        match self.plan {
            VariantPlan::Settled(c) => r matches Ok(d) && d@.id == self.id@ && d@.content == c@,
            VariantPlan::Pending { style, prefix, suffix } => match response {
                None => r matches Err(DomainError::Unexpected(m)) && m@ == NO_RESPONSE@,
                Some(response) => match response_text(response) {
                    None => r matches Err(DomainError::Unexpected(m)) && response
                        matches ServiceResponse::Unreadable(why) && m == why,
                    Some(tail) => if (prefix@ + tail).len() > 0 {
                        r matches Ok(d) && d@.id == self.id@ && d@.content == prefix@ + tail
                    } else {
                        r matches Err(e) && e.is_validation("diary content must not be empty"@)
                    },
                },
            },
        }
    }

    /// Brings the branch to its end: the diary to store for the variant, or
    /// the error that the branch fails with.
    pub fn complete(self, response: Option<ServiceResponse>) -> (r: Result<Diary, DomainError>)
        ensures
            self.ends_as(response, r),
    {
        let Branch { id, plan } = self;
        match plan {
            VariantPlan::Settled(content) => Ok(Diary::of_parts(id, content)),
            VariantPlan::Pending { style, prefix, suffix } => match response {
                None => Err(DomainError::Unexpected(String::from_str(NO_RESPONSE))),
                Some(response) => match TransformReply::from_response(response) {
                    Err(e) => Err(e),
                    Ok(reply) => match finish_variant(prefix, reply) {
                        Ok(content) => Ok(Diary::of_parts(id, content)),
                        Err(e) => Err(e),
                    },
                },
            },
        }
    }
}

/// How one branch ended.
#[derive(Debug, PartialEq, Eq)]
pub enum BranchOutcome {
    /// The variant was reconciled and stored.
    Persisted,
    /// The branch ran to its end and ended in this error.
    Failed(DomainError),
    /// The branch did not run to its end; the text says why.
    Aborted(String),
}

/// What happened outside since the last action.
#[derive(Debug, PartialEq, Eq)]
pub enum Event {
    /// The store answered: the user's diaries, or that there is no such user.
    Loaded(Option<User>),
    /// The store failed to answer.
    LoadFailed(DomainError),
    /// Every branch has ended; the outcomes stand in the order of the branches.
    BranchesEnded(Vec<BranchOutcome>),
    /// The new source has been stored.
    SourceSaved,
    /// The store failed to take the new source.
    SourceSaveFailed(DomainError),
}

/// What is to be done outside next.
#[derive(Debug, PartialEq, Eq)]
pub enum Action {
    /// Load the diaries of this user.
    Load(UserId),
    /// Run these branches side by side and wait for all of them.
    Dispatch(Vec<Branch>),
    /// Store this diary as the user's source diary.
    SaveSource(Diary),
    /// Hand this result to the caller: the length of the new source, or why
    /// the request failed.
    Finish(Result<usize, ApplicationError>),
}

/// One mutation request in progress.
#[derive(Debug, PartialEq, Eq)]
pub struct Mutation {
    pub user_id: UserId,
    pub source: DiaryContent,
    pub phase: Phase,
}

impl BranchOutcome {
    /// The outcome of a branch that ran to its end: `stored` is what the store
    /// said to its diary, or the error that the branch failed with before.
    pub fn of(stored: Result<(), DomainError>) -> (r: BranchOutcome)
        ensures
            match stored {
                Ok(_) => r is Persisted,
                Err(e) => r == BranchOutcome::Failed(e),
            },
    {
        match stored {
            Ok(_) => BranchOutcome::Persisted,
            Err(e) => BranchOutcome::Failed(e),
        }
    }
}

/// Whether `branch` is the branch of the variant in slot `id` for `user`
/// facing the new source `source` with the stable index `k`.
pub open spec fn is_branch_of(branch: Branch, id: int, user: User, source: Seq<char>, k: nat) -> bool {
    &&& branch.id@ == id
    &&& Style::of_slot(id) matches Some(style)
    &&& branch.plan.is_plan_for(style, user.slot_text(id), source, k)
}

/// Plans the branch of the variant `target_id`: its stored diary is looked up
/// in `user_data` and reconciled with `new_content` under `target_index`.
pub fn process_mutation_by_id(
    target_id: &DiaryId,
    target_index: usize,
    user_data: &User,
    new_content: &DiaryContent,
) -> (branch: Branch)
    requires
        is_variant(target_id@),
    ensures
        is_branch_of(branch, target_id@, *user_data, new_content@, target_index as nat),
{
    let style = Style::of_variant(target_id);
    let plan = plan_variant(style, user_data.get_diary_by_id(target_id), new_content, target_index);
    Branch { id: target_id.clone(), plan }
}

/// Whether `branches` is the fan-out for `user` facing the new source
/// `source`: one branch per variant, in the order of the slots, each with the
/// plan for its variant under the stable index of `source` against the user's
/// stored source.
pub open spec fn is_fan_out(branches: Seq<Branch>, user: User, source: Seq<char>) -> bool {
    &&& branches.len() == VARIANT_COUNT
    &&& forall|i: int|
        0 <= i < VARIANT_COUNT ==> is_branch_of(
            #[trigger] branches[i],
            i + 1,
            user,
            source,
            stable_index(source, user.slot_text(HUMAN_ID as int)),
        )
}

/// Whether every one of the first `n` outcomes is a stored variant.
pub open spec fn all_persisted(outcomes: Seq<BranchOutcome>, n: int) -> bool {
    forall|j: int| 0 <= j < n ==> #[trigger] outcomes[j] is Persisted
}

/// The error that a branch hands to the request where it did not store its
/// variant: its own error, or an unexpected one where it did not run to its
/// end.
pub open spec fn failure_of(outcome: BranchOutcome) -> Option<ApplicationError> {
    match outcome {
        BranchOutcome::Persisted => None,
        BranchOutcome::Failed(e) => Some(lifted(e)),
        BranchOutcome::Aborted(m) => Some(ApplicationError::Unexpected(m)),
    }
}

/// Whether `r` is what joining `outcomes` gives: success where there is one
/// outcome per variant and each is a stored variant; else the failure of the
/// first branch, in the order of the branches, that did not store its variant;
/// and where the outcomes are not one per variant and none of them is a
/// failure, an unexpected error.
pub open spec fn is_join_of(r: Result<(), ApplicationError>, outcomes: Seq<BranchOutcome>) -> bool {
    match r {
        Ok(_) => outcomes.len() == VARIANT_COUNT && all_persisted(outcomes, outcomes.len() as int),
        Err(e) => {
            ||| exists|i: int|
                {
                    &&& 0 <= i < outcomes.len()
                    &&& all_persisted(outcomes, i)
                    &&& failure_of(#[trigger] outcomes[i]) == Some(e)
                }
            ||| {
                &&& outcomes.len() != VARIANT_COUNT
                &&& all_persisted(outcomes, outcomes.len() as int)
                &&& e matches ApplicationError::Unexpected(m)
                &&& m@ == BRANCH_COUNT_MISMATCH@
            }
        },
    }
}

/// Joins the branches: the request goes on only if every variant was stored.
pub fn join_branches(outcomes: &Vec<BranchOutcome>) -> (r: Result<(), ApplicationError>)
    ensures
        is_join_of(r, outcomes@),
{
    let mut i: usize = 0;
    while i < outcomes.len()
        invariant
            i <= outcomes.len(),
            all_persisted(outcomes@, i as int),
        decreases outcomes.len() - i,
    {
        match &outcomes[i] {
            BranchOutcome::Persisted => {},
            BranchOutcome::Failed(e) => {
                return Err(ApplicationError::from(e.clone()));
            },
            BranchOutcome::Aborted(m) => {
                return Err(ApplicationError::Unexpected(m.clone()));
            },
        }
        i += 1;
    }
    if outcomes.len() != VARIANT_COUNT as usize {
        return Err(ApplicationError::Unexpected(String::from_str(BRANCH_COUNT_MISMATCH)));
    }
    Ok(())
}

/// Plans the fan-out: finds the stable index of `source` against the user's
/// stored source and plans one branch per variant.
pub fn fan_out(user: &User, source: &DiaryContent) -> (branches: Vec<Branch>)
    ensures
        is_fan_out(branches@, *user, source@),
{
    let target_index = locate(source, user.human_diary.as_ref());
    let mut branches: Vec<Branch> = Vec::new();
    let mut n: i32 = 1;
    while n <= VARIANT_COUNT
        invariant
            1 <= n <= VARIANT_COUNT + 1,
            branches@.len() == n - 1,
            target_index == stable_index(source@, user.slot_text(HUMAN_ID as int)),
            forall|i: int|
                0 <= i < n - 1 ==> is_branch_of(
                    #[trigger] branches@[i],
                    i + 1,
                    *user,
                    source@,
                    target_index as nat,
                ),
        decreases VARIANT_COUNT + 1 - n,
    {
        let id = DiaryId::of_slot(n);
        let branch = process_mutation_by_id(&id, target_index, user, source);
        branches.push(branch);
        n += 1;
    }
    branches
}

/// A user whose stored source is `source` and whose variants all exist, as a
/// completed request for `source` leaves them, is asked to mutate `source`
/// again: no branch of the fan-out calls the service, and each settles its
/// variant as the stored text cut to the length of the source, which is the
/// stored text itself where that is no longer than the source.
pub proof fn lemma_repeated_request_calls_nothing(
    branches: Seq<Branch>,
    user: User,
    source: Seq<char>,
)
    requires
        is_fan_out(branches, user, source),
        user.slot_text(HUMAN_ID as int) == Some(source),
        forall|id: int| 1 <= id <= VARIANT_COUNT ==> #[trigger] user.slot_text(id) is Some,
    ensures
        stable_index(source, user.slot_text(HUMAN_ID as int)) == source.len(),
        forall|i: int|
            0 <= i < VARIANT_COUNT ==> {
                &&& (#[trigger] branches[i]).plan matches VariantPlan::Settled(c)
                &&& c@ == first_chars(user.slot_text(i + 1)->0, source.len())
                &&& user.slot_text(i + 1)->0.len() <= source.len() ==> c@ == user.slot_text(
                    i + 1,
                )->0
            },
{
    assert forall|i: int| 0 <= i < VARIANT_COUNT implies {
        &&& (#[trigger] branches[i]).plan matches VariantPlan::Settled(c)
        &&& c@ == first_chars(user.slot_text(i + 1)->0, source.len())
        &&& user.slot_text(i + 1)->0.len() <= source.len() ==> c@ == user.slot_text(i + 1)->0
    } by {
        assert(user.slot_text(i + 1) is Some);
        lemma_repeat_is_idempotent(source, user.slot_text(i + 1)->0, Seq::empty());
    }
    lemma_repeat_is_idempotent(source, source, Seq::empty());
}

/// The user as the store leaves them when a request has gone the whole way:
/// every variant slot holds the diary that its branch ended in, and the
/// source slot holds the new source.
pub open spec fn after_request(user: User, variants: Seq<Diary>, source: Diary) -> User {
    user.put(variants[0]).put(variants[1]).put(variants[2]).put(variants[3]).put(source)
}

/// The same source twice in a row: once a request for it has gone the whole
/// way, the next request for it calls the service for no variant, and leaves
/// each variant as the first request stored it, cut to the length of the
/// source where it is longer than that.
pub proof fn lemma_second_request_calls_nothing(
    user: User,
    variants: Seq<Diary>,
    source: Diary,
    branches: Seq<Branch>,
)
    requires
        variants.len() == VARIANT_COUNT,
        forall|i: int| 0 <= i < VARIANT_COUNT ==> (#[trigger] variants[i])@.id == i + 1,
        source@.id == HUMAN_ID,
        is_fan_out(branches, after_request(user, variants, source), source@.content),
    ensures
        forall|i: int|
            0 <= i < VARIANT_COUNT ==> {
                &&& (#[trigger] branches[i]).plan matches VariantPlan::Settled(c)
                &&& c@ == first_chars(variants[i]@.content, source@.content.len())
                &&& variants[i]@.content.len() <= source@.content.len() ==> c@
                    == variants[i]@.content
            },
{
    let stored = after_request(user, variants, source);
    assert(variants[0]@.id == 1);
    assert(variants[1]@.id == 2);
    assert(variants[2]@.id == 3);
    assert(variants[3]@.id == 4);
    assert(stored.slot_text(HUMAN_ID as int) == Some(source@.content));
    assert forall|id: int| 1 <= id <= VARIANT_COUNT implies #[trigger] stored.slot_text(id) == Some(
        variants[id - 1]@.content,
    ) by {
        if id == 1 {
        } else if id == 2 {
        } else if id == 3 {
        } else {
        }
    }
    lemma_repeated_request_calls_nothing(branches, stored, source@.content);
    assert forall|i: int| 0 <= i < VARIANT_COUNT implies {
        &&& (#[trigger] branches[i]).plan matches VariantPlan::Settled(c)
        &&& c@ == first_chars(variants[i]@.content, source@.content.len())
        &&& variants[i]@.content.len() <= source@.content.len() ==> c@ == variants[i]@.content
    } by {
        assert(stored.slot_text(i + 1) == Some(variants[i]@.content));
    }
}

/// Length-align: where the stable index leaves nothing new of the source and
/// the variant's stored text is at least as long as the source, the branch
/// calls the service for nothing, whatever response it is handed, and ends in
/// the stored text cut to the length of the source: a diary exactly as long
/// as the new source.
pub proof fn lemma_branch_aligns_length(
    branch: Branch,
    id: int,
    user: User,
    source: Seq<char>,
    k: nat,
    response: Option<ServiceResponse>,
    end: Result<Diary, DomainError>,
)
    requires
        is_branch_of(branch, id, user, source, k),
        k >= source.len(),
        user.slot_text(id) matches Some(stored) && stored.len() >= source.len(),
        branch.ends_as(response, end),
    ensures
        branch.plan is Settled,
        end matches Ok(diary) && diary@.id == id && diary@.content == first_chars(
            user.slot_text(id)->0,
            source.len(),
        ) && diary@.content.len() == source.len(),
{
}

/// A source shorter than the stored one was changed, not added to, so every
/// variant is made anew from all of it and keeps nothing of its stored text.
/// A blank source is taken over as it is, with no call of the service: each
/// variant becomes the source, and is as long as the source. A source that
/// is more than white space is sent to the service whole, for every variant.
pub proof fn lemma_shorter_source_is_mutated_anew(
    branches: Seq<Branch>,
    user: User,
    source: Seq<char>,
)
    requires
        is_fan_out(branches, user, source),
        source.len() > 0,
        user.slot_text(HUMAN_ID as int) matches Some(stored) && source.len() < stored.len(),
    ensures
        stable_index(source, user.slot_text(HUMAN_ID as int)) == 0,
        forall|i: int|
            0 <= i < VARIANT_COUNT ==> if is_blank(source) {
                &&& (#[trigger] branches[i]).plan matches VariantPlan::Settled(c)
                &&& c@ == source
                &&& c@.len() == source.len()
            } else {
                &&& (#[trigger] branches[i]).plan matches VariantPlan::Pending {
                    style,
                    prefix,
                    suffix,
                }
                &&& prefix@ == Seq::<char>::empty()
                &&& suffix@ == source
            },
{
    let stored = user.slot_text(HUMAN_ID as int)->0;
    assert forall|i: int| 0 <= i < VARIANT_COUNT implies if is_blank(source) {
        &&& (#[trigger] branches[i]).plan matches VariantPlan::Settled(c)
        &&& c@ == source
        &&& c@.len() == source.len()
    } else {
        &&& (#[trigger] branches[i]).plan matches VariantPlan::Pending { style, prefix, suffix }
        &&& prefix@ == Seq::<char>::empty()
        &&& suffix@ == source
    } by {
        lemma_edit_is_mutated_anew(stored, source, user.slot_text(i + 1), Seq::empty());
    }
}

/// Full re-mutation: under the stable index 0 a branch whose source is more
/// than white space ends in what the response stands for and in nothing
/// else. Nothing of the variant's stored text stays in front, whether it has
/// one or not. The branch fails only where the response stands for the empty
/// text.
pub proof fn lemma_edit_ends_in_the_reply_alone(
    branch: Branch,
    id: int,
    user: User,
    source: Seq<char>,
    response: ServiceResponse,
    tail: Seq<char>,
    end: Result<Diary, DomainError>,
)
    requires
        source.len() > 0,
        !is_blank(source),
        is_branch_of(branch, id, user, source, 0),
        response_text(response) == Some(tail),
        branch.ends_as(Some(response), end),
    ensures
        branch.plan matches VariantPlan::Pending { style, prefix, suffix } && prefix@
            == Seq::<char>::empty() && suffix@ == source,
        match end {
            Ok(diary) => diary@.id == id && diary@.content == tail && tail.len() > 0,
            Err(e) => tail.len() == 0 && e.is_validation("diary content must not be empty"@),
        },
{
    assert(source.skip(0) =~= source);
    assert(Seq::<char>::empty() + tail =~= tail);
}

/// A branch ends in the text that reconciling its variant gives. Where the
/// branch is the one of slot `id` for `user` facing `source` under `k`, and
/// the response, if the service was called, stands for the text `tail`: the
/// diary that the branch ends in holds the reconciled text under `id`, and
/// the branch fails exactly where that text is empty.
pub proof fn lemma_branch_ends_reconciled(
    branch: Branch,
    id: int,
    user: User,
    source: Seq<char>,
    k: nat,
    response: ServiceResponse,
    tail: Seq<char>,
    end: Result<Diary, DomainError>,
)
    requires
        source.len() > 0,
        user.slot_text(id) matches Some(stored) ==> stored.len() > 0,
        is_branch_of(branch, id, user, source, k),
        response_text(response) == Some(tail),
        branch.ends_as(Some(response), end),
    ensures
        match end {
            Ok(diary) => {
                &&& diary@.id == id
                &&& diary@.content == reconciled(user.slot_text(id), source, k, tail)
                &&& diary@.content.len() > 0
            },
            Err(e) => {
                &&& needs_transform(user.slot_text(id), source, k)
                &&& reconciled(user.slot_text(id), source, k, tail).len() == 0
                &&& e.is_validation("diary content must not be empty"@)
            },
        },
        branch.plan is Pending <==> needs_transform(user.slot_text(id), source, k),
{
}

/// The new source is stored only after every variant has been stored: the
/// request asks for it in answer to one event alone, the end of branches that
/// are one per variant and have all stored theirs. And only a request whose
/// source has been stored reports a length.
pub proof fn lemma_source_is_stored_last(state: Mutation, event: Event, phase: Phase, action: Action)
    requires
        state.answers(event, phase, action),
    ensures
        action is SaveSource <==> state.phase == Phase::Dispatched && (event matches Event::BranchesEnded(
            outcomes,
        ) && outcomes@.len() == VARIANT_COUNT && all_persisted(outcomes@, outcomes@.len() as int)),
        action matches Action::Finish(Ok(_)) <==> state.phase == Phase::Joined && event
            is SourceSaved,
        !(action is Load),
        phase != Phase::Loading,
{
}

/// A request never goes back: each step takes it to a later phase or ends
/// it, and a request that is over stays so, whatever is reported to it.
pub proof fn lemma_phases_only_advance(state: Mutation, event: Event, phase: Phase, action: Action)
    requires
        state.answers(event, phase, action),
    ensures
        match state.phase {
            Phase::Loading => phase == Phase::Dispatched || phase == Phase::Done,
            Phase::Dispatched => phase == Phase::Joined || phase == Phase::Done,
            Phase::Joined => phase == Phase::Done,
            Phase::Done => phase == Phase::Done,
        },
        phase == Phase::Done <==> action is Finish,
        phase == Phase::Dispatched <==> action is Dispatch,
        phase == Phase::Joined <==> action is SaveSource,
{
}

/// One step of a request, as seen from outside: what was reported to it, the
/// phase it moved to and what it asked for.
pub struct Step {
    pub event: Event,
    pub phase: Phase,
    pub action: Action,
}

/// Whether `steps` is a run of the request for `source` by `user_id` from its
/// start: each step answers its event from the phase that the step before
/// left, and the first from the phase in which a request starts.
pub open spec fn is_run(user_id: UserId, source: DiaryContent, steps: Seq<Step>) -> bool {
    forall|i: int|
        0 <= i < steps.len() ==> (Mutation {
            user_id,
            source,
            phase: if i == 0 {
                Phase::Loading
            } else {
                steps[i - 1].phase
            },
        }).answers(#[trigger] steps[i].event, steps[i].phase, steps[i].action)
}

/// A request that reports a length has gone the whole way, and in order: its
/// run has three steps. The user was found and the fan-out planned for them;
/// then the branches ended, one per variant, each with its variant stored,
/// and only then the new source was handed to the store; then the store took
/// it. The length reported is that of the new source.
pub proof fn lemma_success_goes_the_whole_way(
    user_id: UserId,
    source: DiaryContent,
    steps: Seq<Step>,
    length: usize,
)
    requires
        is_run(user_id, source, steps),
        steps.len() > 0,
        steps.last().action == Action::Finish(Ok::<usize, ApplicationError>(length)),
    ensures
        steps.len() == 3,
        length == source@.len(),
        steps[0].event matches Event::Loaded(Some(user)) && steps[0].action matches Action::Dispatch(
            branches,
        ) && is_fan_out(branches@, user, source@),
        steps[1].event matches Event::BranchesEnded(outcomes) && outcomes@.len() == VARIANT_COUNT
            && all_persisted(outcomes@, outcomes@.len() as int),
        steps[1].action matches Action::SaveSource(diary) && diary@.id == HUMAN_ID
            && diary@.content == source@,
        steps[2].event is SourceSaved,
{
    let n = steps.len() as int;
    assert(steps[n - 1].action is Finish);
    let last = steps[n - 1];
    assert(n >= 2) by {
        if n == 1 {
            assert((Mutation { user_id, source, phase: Phase::Loading }).answers(
                last.event,
                last.phase,
                last.action,
            ));
        }
    }
    let joined = steps[n - 2];
    assert(joined.phase == Phase::Joined);
    assert(n >= 3) by {
        if n == 2 {
            assert((Mutation { user_id, source, phase: Phase::Loading }).answers(
                joined.event,
                joined.phase,
                joined.action,
            ));
        }
    }
    let dispatched = steps[n - 3];
    assert(dispatched.phase == Phase::Dispatched);
    assert(n == 3) by {
        if n > 3 {
            let before = steps[n - 4];
            assert((Mutation { user_id, source, phase: before.phase }).answers(
                dispatched.event,
                dispatched.phase,
                dispatched.action,
            ));
            if n > 4 {
                assert((Mutation { user_id, source, phase: steps[n - 5].phase }).answers(
                    before.event,
                    before.phase,
                    before.action,
                ));
            } else {
                assert((Mutation { user_id, source, phase: Phase::Loading }).answers(
                    before.event,
                    before.phase,
                    before.action,
                ));
            }
        }
    }
}

impl Mutation {
    /// Opens a request: `source` is the new source text of the user `user_id`.
    /// The first thing to do is to load that user's diaries.
    pub fn start(user_id: UserId, source: DiaryContent) -> (r: (Mutation, Action))
        ensures
            r.0.user_id == user_id,
            r.0.source == source,
            r.0.phase == Phase::Loading,
            r.1 matches Action::Load(who) && who == user_id,
    {
        let who = user_id.clone();
        (Mutation { user_id, source, phase: Phase::Loading }, Action::Load(who))
    }

    /// Whether `action` is what the request in state `self` answers to
    /// `event`, and `phase` the phase it moves to.
    pub open spec fn answers(self, event: Event, phase: Phase, action: Action) -> bool {
        match (self.phase, event) {
            (Phase::Loading, Event::Loaded(Some(user))) => {
                &&& phase == Phase::Dispatched
                &&& action matches Action::Dispatch(branches)
                &&& is_fan_out(branches@, user, self.source@)
            },
            (Phase::Loading, Event::Loaded(None)) => {
                &&& phase == Phase::Done
                &&& action matches Action::Finish(
                    Err(ApplicationError::NotFound { entity_type, user_id }),
                )
                &&& entity_type@ == USER_ENTITY@
                &&& user_id@ == self.user_id@
            },
            (Phase::Loading, Event::LoadFailed(e)) => {
                &&& phase == Phase::Done
                &&& action matches Action::Finish(Err(error))
                &&& error == lifted(e)
            },
            (Phase::Dispatched, Event::BranchesEnded(outcomes)) => {
                if outcomes@.len() == VARIANT_COUNT && all_persisted(
                    outcomes@,
                    outcomes@.len() as int,
                ) {
                    &&& phase == Phase::Joined
                    &&& action matches Action::SaveSource(diary)
                    &&& diary@.id == HUMAN_ID
                    &&& diary@.content == self.source@
                } else {
                    &&& phase == Phase::Done
                    &&& action matches Action::Finish(Err(error))
                    &&& is_join_of(Err(error), outcomes@)
                }
            },
            (Phase::Joined, Event::SourceSaved) => {
                &&& phase == Phase::Done
                &&& action matches Action::Finish(Ok(length))
                &&& length == self.source@.len()
            },
            (Phase::Joined, Event::SourceSaveFailed(e)) => {
                &&& phase == Phase::Done
                &&& action matches Action::Finish(Err(error))
                &&& error == lifted(e)
            },
            _ => {
                &&& phase == Phase::Done
                &&& action matches Action::Finish(Err(ApplicationError::Unexpected(m)))
                &&& m@ == OUT_OF_ORDER@
            },
        }
    }

    /// Takes the request one step on: given what happened, says what to do
    /// next. A request that is over, or an event that does not belong to the
    /// phase it meets, ends the request with an unexpected error.
    pub fn step(self, event: Event) -> (r: (Mutation, Action))
        ensures
            r.0.user_id == self.user_id,
            r.0.source == self.source,
            self.answers(event, r.0.phase, r.1),
    {
        let Mutation { user_id, source, phase } = self;
        match (phase, event) {
            (Phase::Loading, Event::Loaded(Some(user))) => {
                let branches = fan_out(&user, &source);
                (Mutation { user_id, source, phase: Phase::Dispatched }, Action::Dispatch(branches))
            },
            (Phase::Loading, Event::Loaded(None)) => {
                let error = ApplicationError::NotFound {
                    entity_type: USER_ENTITY,
                    user_id: String::from_str(user_id.as_str()),
                };
                (Mutation { user_id, source, phase: Phase::Done }, Action::Finish(Err(error)))
            },
            (Phase::Loading, Event::LoadFailed(e)) => {
                let error = ApplicationError::from(e);
                (Mutation { user_id, source, phase: Phase::Done }, Action::Finish(Err(error)))
            },
            (Phase::Dispatched, Event::BranchesEnded(outcomes)) => {
                match join_branches(&outcomes) {
                    Ok(_) => {
                        let diary = Diary::of_parts(DiaryId::human(), source.clone());
                        (
                            Mutation { user_id, source, phase: Phase::Joined },
                            Action::SaveSource(diary),
                        )
                    },
                    Err(error) => {
                        (
                            Mutation { user_id, source, phase: Phase::Done },
                            Action::Finish(Err(error)),
                        )
                    },
                }
            },
            (Phase::Joined, Event::SourceSaved) => {
                let length = source.to_length();
                (Mutation { user_id, source, phase: Phase::Done }, Action::Finish(Ok(length)))
            },
            (Phase::Joined, Event::SourceSaveFailed(e)) => {
                let error = ApplicationError::from(e);
                (Mutation { user_id, source, phase: Phase::Done }, Action::Finish(Err(error)))
            },
            _ => {
                let error = ApplicationError::Unexpected(String::from_str(OUT_OF_ORDER));
                (Mutation { user_id, source, phase: Phase::Done }, Action::Finish(Err(error)))
            },
        }
    }
}

} // verus!
