//! The parent chain: a submission belongs to an assessment, an assessment
//! to a subject, and the subject has the members that the policy asks for.
//!
//! The records of a chain are stored elsewhere. This module decides which
//! record is needed next, and what the policy says once enough is known:
//! the caller fetches what `next_step` asks for, records the answer in the
//! `Chain`, and asks again.

use crate::ctx::{Context, ContextView};
use crate::error::{AuthError, Error, IntegrityError, Result};
use crate::oid::ObjectId;
use crate::policy::{
    decide, rule, rule_for, Action, Decision, DenyReason, ResourceKind, ResourceView, Rule,
};
use crate::schema::utils::contains;
use crate::schema::Role;
use vstd::prelude::*;

verus! {

/// Where the chain of a request starts.
#[derive(Clone, Copy, Debug, PartialEq, Eq, Structural)]
pub enum Entry {
    /// The request is about no record.
    Nothing,
    /// A subject, known by its id.
    Subject(ObjectId),
    /// An assessment, known by its id.
    Assessment(ObjectId),
    /// A submission, known by its id.
    Submission(ObjectId),
    /// A submission that is about to be made.
    NewSubmission { student_id: ObjectId, assessment_id: ObjectId },
}

/// A record to fetch.
#[derive(Clone, Copy, Debug, PartialEq, Eq, Structural)]
pub enum Lookup {
    Submission(ObjectId),
    Assessment(ObjectId),
    Subject(ObjectId),
}

/// What the chain needs of a submission.
#[derive(Clone, Copy, Debug, PartialEq, Eq, Structural)]
pub struct SubmissionLink {
    pub student_id: ObjectId,
    pub assessment_id: ObjectId,
}

/// What is known of one record of the chain.
#[derive(Clone, Debug, PartialEq, Eq)]
pub enum Slot<T> {
    /// Not asked for yet.
    Pending,
    /// Asked for, and not there.
    Missing,
    /// Asked for, and found.
    Found(T),
}

/// What has been fetched of a chain so far: of the submission its owner
/// and assessment, of the assessment its subject, of the subject its
/// members.
#[derive(Clone, Debug, PartialEq, Eq)]
pub struct Chain {
    pub submission: Slot<SubmissionLink>,
    pub assessment: Slot<ObjectId>,
    pub subject: Slot<Vec<ObjectId>>,
}

/// What a `Chain` holds.
pub ghost struct ChainView {
    pub submission: Slot<SubmissionLink>,
    pub assessment: Slot<ObjectId>,
    pub subject: Slot<Seq<ObjectId>>,
}

impl View for Chain {
    type V = ChainView;

    open spec fn view(&self) -> ChainView {
        ChainView {
            submission: self.submission,
            assessment: self.assessment,
            subject: match self.subject {
                Slot::Pending => Slot::Pending,
                Slot::Missing => Slot::Missing,
                Slot::Found(members) => Slot::Found(members@),
            },
        }
    }
}

/// How far a question about the chain can be answered.
#[derive(Clone, Debug, PartialEq, Eq)]
pub enum Resolved<T> {
    /// Not before this record has been fetched.
    Need(Lookup),
    /// Never: a record of the chain is missing.
    Broken,
    /// The answer.
    Known(T),
}

/// What to do next for a request.
#[derive(Clone, Copy, Debug, PartialEq, Eq, Structural)]
pub enum Step {
    /// Fetch this record, record the answer, and ask again.
    Fetch(Lookup),
    /// The policy allows the request.
    Allow,
    /// The policy denies the request.
    Forbidden(DenyReason),
    /// A record that the policy needs does not exist.
    NotFound,
}

impl Step {
    /// How the request ends with this step: it goes on, it fails as
    /// forbidden, or it fails as not found. Nothing yet where a record is
    /// still to fetch.
    pub open spec fn spec_outcome(self) -> Option<Result<()>> {
        match self {
            Step::Fetch(_) => None,
            Step::Allow => Some(Ok(())),
            Step::Forbidden(_) => Some(Err(Error::Auth(AuthError::Forbidden))),
            Step::NotFound => Some(Err(Error::Integrity(IntegrityError::NotFound))),
        }
    }

    /// How the request ends with this step, if it ends.
    pub fn outcome(&self) -> (outcome: Option<Result<()>>)
        ensures
            outcome == self.spec_outcome(),
    {
        match self {
            Step::Fetch(_) => None,
            Step::Allow => Some(Ok(())),
            Step::Forbidden(_) => Some(Err(Error::Auth(AuthError::Forbidden))),
            Step::NotFound => Some(Err(Error::Integrity(IntegrityError::NotFound))),
        }
    }
}

/// The step that ends a request with `decision`.
pub open spec fn step_of(decision: Decision) -> Step {
    match decision {
        Decision::Allow => Step::Allow,
        Decision::Deny(reason) => Step::Forbidden(reason),
    }
}

/// The submission's link to its owner and assessment, where the chain
/// starts at a submission; `None` where it starts further up.
pub open spec fn link_of(entry: Entry, chain: ChainView) -> Resolved<Option<SubmissionLink>> {
    match entry {
        Entry::NewSubmission { student_id, assessment_id } => Resolved::Known(
            Some(SubmissionLink { student_id, assessment_id }),
        ),
        Entry::Submission(id) => match chain.submission {
            Slot::Pending => Resolved::Need(Lookup::Submission(id)),
            Slot::Missing => Resolved::Broken,
            Slot::Found(link) => Resolved::Known(Some(link)),
        },
        _ => Resolved::Known(None),
    }
}

/// The owner of the resource, if it has one.
pub open spec fn owner_of(entry: Entry, chain: ChainView) -> Resolved<Option<ObjectId>> {
    match link_of(entry, chain) {
        Resolved::Need(lookup) => Resolved::Need(lookup),
        Resolved::Broken => Resolved::Broken,
        Resolved::Known(Some(link)) => Resolved::Known(Some(link.student_id)),
        Resolved::Known(None) => Resolved::Known(None),
    }
}

/// The subject that the resource belongs to, if it belongs to one.
pub open spec fn subject_of(entry: Entry, chain: ChainView) -> Resolved<Option<ObjectId>> {
    match entry {
        Entry::Nothing => Resolved::Known(None),
        Entry::Subject(id) => Resolved::Known(Some(id)),
        _ => {
            let assessment = match entry {
                Entry::Assessment(id) => Resolved::Known(id),
                _ => match link_of(entry, chain) {
                    Resolved::Need(lookup) => Resolved::Need(lookup),
                    Resolved::Known(Some(link)) => Resolved::Known(link.assessment_id),
                    _ => Resolved::Broken,
                },
            };
            match assessment {
                Resolved::Need(lookup) => Resolved::Need(lookup),
                Resolved::Broken => Resolved::Broken,
                Resolved::Known(id) => match chain.assessment {
                    Slot::Pending => Resolved::Need(Lookup::Assessment(id)),
                    Slot::Missing => Resolved::Broken,
                    Slot::Found(subject) => Resolved::Known(Some(subject)),
                },
            }
        },
    }
}

/// The members of the subject that the resource belongs to.
pub open spec fn members_of(entry: Entry, chain: ChainView) -> Resolved<Option<Seq<ObjectId>>> {
    match subject_of(entry, chain) {
        Resolved::Need(lookup) => Resolved::Need(lookup),
        Resolved::Broken => Resolved::Broken,
        Resolved::Known(None) => Resolved::Known(None),
        Resolved::Known(Some(id)) => match chain.subject {
            Slot::Pending => Resolved::Need(Lookup::Subject(id)),
            Slot::Missing => Resolved::Broken,
            Slot::Found(members) => Resolved::Known(Some(members)),
        },
    }
}

/// Whether `user` owns the resource.
pub open spec fn ownership(entry: Entry, chain: ChainView, user: ObjectId) -> Resolved<bool> {
    match owner_of(entry, chain) {
        Resolved::Need(lookup) => Resolved::Need(lookup),
        Resolved::Broken => Resolved::Broken,
        Resolved::Known(owner) => Resolved::Known(owner == Some(user)),
    }
}

/// Whether `user` is a member of the subject that the resource belongs to.
pub open spec fn membership(entry: Entry, chain: ChainView, user: ObjectId) -> Resolved<bool> {
    match members_of(entry, chain) {
        Resolved::Need(lookup) => Resolved::Need(lookup),
        Resolved::Broken => Resolved::Broken,
        Resolved::Known(Some(members)) => Resolved::Known(members.contains(user)),
        Resolved::Known(None) => Resolved::Known(false),
    }
}

/// The step for a relation that is all that stands between the caller and
/// the action.
pub open spec fn step_on(relation: Resolved<bool>, denial: DenyReason) -> Step {
    match relation {
        Resolved::Need(lookup) => Step::Fetch(lookup),
        Resolved::Broken => Step::NotFound,
        Resolved::Known(true) => Step::Allow,
        Resolved::Known(false) => Step::Forbidden(denial),
    }
}

/// What to do next for the request of `context` to do `action` to the
/// resource of kind `kind` whose chain starts at `entry`, with `chain`
/// fetched so far. The role is asked first and settles what it can without
/// any record. Records are asked for only as far as the table's relation
/// needs them, the owner before the members, and a missing one ends the
/// request as not found.
pub open spec fn next(
    context: ContextView,
    kind: ResourceKind,
    action: Action,
    entry: Entry,
    chain: ChainView,
) -> Step {
    let user = context.user_id;
    match rule(kind, action, context.role) {
        Rule::Always => Step::Allow,
        Rule::Never => Step::Forbidden(DenyReason::Role),
        Rule::Member => step_on(membership(entry, chain, user), DenyReason::NotMember),
        Rule::Owner => step_on(ownership(entry, chain, user), DenyReason::NotOwner),
        Rule::OwnerAndMember => match ownership(entry, chain, user) {
            Resolved::Known(true) => step_on(
                membership(entry, chain, user),
                DenyReason::NotMember,
            ),
            other => step_on(other, DenyReason::NotOwner),
        },
    }
}

/// What the chain tells of the resource, as far as it is known.
pub open spec fn resource_of(entry: Entry, chain: ChainView) -> ResourceView {
    ResourceView {
        owner: match owner_of(entry, chain) {
            Resolved::Known(owner) => owner,
            _ => None,
        },
        members: match members_of(entry, chain) {
            Resolved::Known(members) => members,
            _ => None,
        },
    }
}

/// The slot of `chain` that `lookup` fills is still pending.
pub open spec fn is_pending(chain: ChainView, lookup: Lookup) -> bool {
    match lookup {
        Lookup::Submission(_) => chain.submission is Pending,
        Lookup::Assessment(_) => chain.assessment is Pending,
        Lookup::Subject(_) => chain.subject is Pending,
    }
}

/// The number of slots of `chain` that are still pending.
pub open spec fn pending(chain: ChainView) -> nat {
    let a: nat = if chain.submission is Pending {
        1
    } else {
        0
    };
    let b: nat = if chain.assessment is Pending {
        1
    } else {
        0
    };
    let c: nat = if chain.subject is Pending {
        1
    } else {
        0
    };
    a + b + c
}

/// An administrator is allowed at once: no record is asked for, and none
/// that is missing stands in the way.
pub proof fn lemma_admin_short_circuit(
    context: ContextView,
    kind: ResourceKind,
    action: Action,
    entry: Entry,
    chain: ChainView,
)
    requires
        context.role == Role::Admin,
    ensures
        next(context, kind, action, entry, chain) == Step::Allow,
{
}

/// Where the chain ends a request with allow or deny, that is the policy's
/// decision on what the chain tells of the resource.
pub proof fn lemma_step_is_decision(
    context: ContextView,
    kind: ResourceKind,
    action: Action,
    entry: Entry,
    chain: ChainView,
)
    ensures
        match next(context, kind, action, entry, chain) {
            Step::Allow => decide(context, kind, action, resource_of(entry, chain))
                == Decision::Allow,
            Step::Forbidden(reason) => decide(context, kind, action, resource_of(entry, chain))
                == Decision::Deny(reason),
            _ => true,
        },
{
}

/// Once the owner and the members are known, the request ends with the
/// policy's decision.
pub proof fn lemma_known_chain_decides(
    context: ContextView,
    kind: ResourceKind,
    action: Action,
    entry: Entry,
    chain: ChainView,
)
    requires
        owner_of(entry, chain) is Known,
        members_of(entry, chain) is Known,
    ensures
        next(context, kind, action, entry, chain) == step_of(
            decide(context, kind, action, resource_of(entry, chain)),
        ),
{
}

/// A record is asked for only while its slot is pending, so each answer
/// that is recorded leaves fewer slots pending, and no request asks more
/// than three times.
pub proof fn lemma_fetch_is_pending(
    context: ContextView,
    kind: ResourceKind,
    action: Action,
    entry: Entry,
    chain: ChainView,
)
    ensures
        next(context, kind, action, entry, chain) matches Step::Fetch(lookup) ==> is_pending(
            chain,
            lookup,
        ) && pending(chain) >= 1,
        pending(chain) <= 3,
{
}

impl Chain {
    /// A chain of which nothing has been fetched.
    pub fn new() -> (chain: Self)
        ensures
            chain@ == (ChainView {
                submission: Slot::Pending,
                assessment: Slot::Pending,
                subject: Slot::Pending,
            }),
            pending(chain@) == 3,
    {
        Chain { submission: Slot::Pending, assessment: Slot::Pending, subject: Slot::Pending }
    }

    /// Records what fetching a submission gave.
    pub fn found_submission(&mut self, link: Option<SubmissionLink>)
        ensures
            final(self)@.submission == match link {
                Some(link) => Slot::Found(link),
                None => Slot::<SubmissionLink>::Missing,
            },
            final(self)@.assessment == old(self)@.assessment,
            final(self)@.subject == old(self)@.subject,
    {
        self.submission = match link {
            Some(link) => Slot::Found(link),
            None => Slot::Missing,
        };
    }

    /// Records what fetching an assessment gave: the id of its subject.
    pub fn found_assessment(&mut self, subject_id: Option<ObjectId>)
        ensures
            final(self)@.assessment == match subject_id {
                Some(id) => Slot::Found(id),
                None => Slot::<ObjectId>::Missing,
            },
            final(self)@.submission == old(self)@.submission,
            final(self)@.subject == old(self)@.subject,
    {
        self.assessment = match subject_id {
            Some(id) => Slot::Found(id),
            None => Slot::Missing,
        };
    }

    /// Records what fetching a subject gave: its members.
    pub fn found_subject(&mut self, members: Option<Vec<ObjectId>>)
        ensures
            final(self)@.subject == match members {
                Some(list) => Slot::Found(list@),
                None => Slot::<Seq<ObjectId>>::Missing,
            },
            final(self)@.submission == old(self)@.submission,
            final(self)@.assessment == old(self)@.assessment,
    {
        self.subject = match members {
            Some(list) => Slot::Found(list),
            None => Slot::Missing,
        };
    }
}

fn link_for(entry: Entry, chain: &Chain) -> (link: Resolved<Option<SubmissionLink>>)
    ensures
        link == link_of(entry, chain@),
{
    match entry {
        Entry::NewSubmission { student_id, assessment_id } => Resolved::Known(
            Some(SubmissionLink { student_id, assessment_id }),
        ),
        Entry::Submission(id) => match chain.submission {
            Slot::Pending => Resolved::Need(Lookup::Submission(id)),
            Slot::Missing => Resolved::Broken,
            Slot::Found(link) => Resolved::Known(Some(link)),
        },
        _ => Resolved::Known(None),
    }
}

fn subject_for(entry: Entry, chain: &Chain) -> (subject: Resolved<Option<ObjectId>>)
    ensures
        subject == subject_of(entry, chain@),
{
    match entry {
        Entry::Nothing => Resolved::Known(None),
        Entry::Subject(id) => Resolved::Known(Some(id)),
        _ => {
            let assessment = match entry {
                Entry::Assessment(id) => Resolved::Known(id),
                _ => match link_for(entry, chain) {
                    Resolved::Need(lookup) => Resolved::Need(lookup),
                    Resolved::Known(Some(link)) => Resolved::Known(link.assessment_id),
                    _ => Resolved::Broken,
                },
            };
            match assessment {
                Resolved::Need(lookup) => Resolved::Need(lookup),
                Resolved::Broken => Resolved::Broken,
                Resolved::Known(id) => match chain.assessment {
                    Slot::Pending => Resolved::Need(Lookup::Assessment(id)),
                    Slot::Missing => Resolved::Broken,
                    Slot::Found(subject) => Resolved::Known(Some(subject)),
                },
            }
        },
    }
}

fn owns(entry: Entry, chain: &Chain, user: ObjectId) -> (owner: Resolved<bool>)
    ensures
        owner == ownership(entry, chain@, user),
{
    match link_for(entry, chain) {
        Resolved::Need(lookup) => Resolved::Need(lookup),
        Resolved::Broken => Resolved::Broken,
        Resolved::Known(Some(link)) => Resolved::Known(link.student_id == user),
        Resolved::Known(None) => Resolved::Known(false),
    }
}

fn belongs(entry: Entry, chain: &Chain, user: ObjectId) -> (member: Resolved<bool>)
    ensures
        member == membership(entry, chain@, user),
{
    match subject_for(entry, chain) {
        Resolved::Need(lookup) => Resolved::Need(lookup),
        Resolved::Broken => Resolved::Broken,
        Resolved::Known(None) => Resolved::Known(false),
        Resolved::Known(Some(id)) => match &chain.subject {
            Slot::Pending => Resolved::Need(Lookup::Subject(id)),
            Slot::Missing => Resolved::Broken,
            Slot::Found(members) => Resolved::Known(contains(members, user)),
        },
    }
}

fn step_for(relation: Resolved<bool>, denial: DenyReason) -> (step: Step)
    ensures
        step == step_on(relation, denial),
{
    match relation {
        Resolved::Need(lookup) => Step::Fetch(lookup),
        Resolved::Broken => Step::NotFound,
        Resolved::Known(true) => Step::Allow,
        Resolved::Known(false) => Step::Forbidden(denial),
    }
}

/// What to do next for the request of `context` to do `action` to the
/// resource of kind `kind` whose chain starts at `entry`.
pub fn next_step(
    context: &Context,
    kind: ResourceKind,
    action: Action,
    entry: Entry,
    chain: &Chain,
) -> (step: Step)
    ensures
        step == next(context@, kind, action, entry, chain@),
{
    let user = context.user_id();
    match rule_for(kind, action, context.role()) {
        Rule::Always => Step::Allow,
        Rule::Never => Step::Forbidden(DenyReason::Role),
        Rule::Member => step_for(belongs(entry, chain, user), DenyReason::NotMember),
        Rule::Owner => step_for(owns(entry, chain, user), DenyReason::NotOwner),
        Rule::OwnerAndMember => match owns(entry, chain, user) {
            Resolved::Known(true) => step_for(belongs(entry, chain, user), DenyReason::NotMember),
            other => step_for(other, DenyReason::NotOwner),
        },
    }
}

} // verus!
