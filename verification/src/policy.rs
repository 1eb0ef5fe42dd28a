//! The authorization policy: who may do what to which resource.
//!
//! The policy is a table keyed by the kind of resource, the action and the
//! caller's role. An entry either settles the matter by role alone or names
//! the relation that the caller must have to the resource: membership in
//! the subject that the resource belongs to, ownership of the resource, or
//! both.

use crate::ctx::{Context, ContextView};
use crate::error::{AuthError, Error, Result};
use crate::oid::ObjectId;
use crate::schema::utils::contains;
use crate::schema::Role;
use vstd::prelude::*;

verus! {

/// The kinds of resource that the policy knows.
#[derive(Clone, Copy, Debug, PartialEq, Eq, Structural)]
pub enum ResourceKind {
    Subject,
    Assessment,
    Submission,
    /// The account of a teacher or a student.
    Account,
}

/// What a caller may want to do to a resource.
#[derive(Clone, Copy, Debug, PartialEq, Eq, Structural)]
pub enum Action {
    Create,
    Read,
    List,
    Update,
    Delete,
    /// Add a member to a subject, or remove one.
    Relate,
    /// Grade a submission.
    Grade,
}

/// What the table holds for a kind, an action and a role.
#[derive(Clone, Copy, Debug, PartialEq, Eq, Structural)]
pub enum Rule {
    /// Allowed, whatever the resource.
    Always,
    /// Denied, whatever the resource.
    Never,
    /// Allowed to the members of the subject that the resource belongs to.
    Member,
    /// Allowed to the resource's owner.
    Owner,
    /// Allowed to the resource's owner, if a member of the subject too.
    OwnerAndMember,
}

/// Why the policy denies.
#[derive(Clone, Copy, Debug, PartialEq, Eq, Structural)]
pub enum DenyReason {
    /// The caller's role is not allowed the action on any such resource.
    Role,
    /// The caller is no member of the subject that the resource belongs to.
    NotMember,
    /// The resource belongs to somebody else.
    NotOwner,
}

/// What the policy says to a request.
#[derive(Clone, Copy, Debug, PartialEq, Eq, Structural)]
pub enum Decision {
    Allow,
    Deny(DenyReason),
}

/// What the policy needs to know of a resource: the principal who owns it,
/// and the members of the subject that it belongs to, each as far as there
/// is one.
#[derive(Clone, Debug, PartialEq, Eq)]
pub struct ResourceRef {
    pub owner: Option<ObjectId>,
    pub members: Option<Vec<ObjectId>>,
}

/// What a `ResourceRef` holds.
pub ghost struct ResourceView {
    pub owner: Option<ObjectId>,
    pub members: Option<Seq<ObjectId>>,
}

impl View for ResourceRef {
    type V = ResourceView;

    open spec fn view(&self) -> ResourceView {
        ResourceView {
            owner: self.owner,
            members: match self.members {
                Some(list) => Some(list@),
                None => None,
            },
        }
    }
}

/// The table. An administrator may do everything. For the other two roles
/// every pair of kind and action that has no entry of its own is closed.
pub open spec fn rule(kind: ResourceKind, action: Action, role: Role) -> Rule {
    match role {
        Role::Admin => Rule::Always,
        Role::Teacher => match kind {
            ResourceKind::Subject => match action {
                Action::List => Rule::Member,
                _ => Rule::Never,
            },
            ResourceKind::Assessment => match action {
                Action::Create | Action::Read | Action::List | Action::Update | Action::Delete =>
                    Rule::Member,
                _ => Rule::Never,
            },
            ResourceKind::Submission => match action {
                Action::Read | Action::List | Action::Grade => Rule::Member,
                _ => Rule::Never,
            },
            ResourceKind::Account => Rule::Never,
        },
        Role::Student => match kind {
            ResourceKind::Subject => match action {
                Action::List => Rule::Member,
                _ => Rule::Never,
            },
            ResourceKind::Assessment => match action {
                Action::Read | Action::List => Rule::Member,
                _ => Rule::Never,
            },
            ResourceKind::Submission => match action {
                Action::Create => Rule::OwnerAndMember,
                Action::Read | Action::Update => Rule::Owner,
                _ => Rule::Never,
            },
            ResourceKind::Account => Rule::Never,
        },
    }
}

/// `user` is among the members that `resource` names.
pub open spec fn is_member(resource: ResourceView, user: ObjectId) -> bool {
    resource.members matches Some(list) && list.contains(user)
}

/// `user` owns `resource`.
pub open spec fn is_owner(resource: ResourceView, user: ObjectId) -> bool {
    resource.owner == Some(user)
}

/// What a rule says of a caller's relation to a resource. Ownership is
/// asked before membership.
pub open spec fn apply(rule: Rule, owner: bool, member: bool) -> Decision {
    match rule {
        Rule::Always => Decision::Allow,
        Rule::Never => Decision::Deny(DenyReason::Role),
        Rule::Member => if member {
            Decision::Allow
        } else {
            Decision::Deny(DenyReason::NotMember)
        },
        Rule::Owner => if owner {
            Decision::Allow
        } else {
            Decision::Deny(DenyReason::NotOwner)
        },
        Rule::OwnerAndMember => if !owner {
            Decision::Deny(DenyReason::NotOwner)
        } else if !member {
            Decision::Deny(DenyReason::NotMember)
        } else {
            Decision::Allow
        },
    }
}

/// The policy's decision.
pub open spec fn decide(
    context: ContextView,
    kind: ResourceKind,
    action: Action,
    resource: ResourceView,
) -> Decision {
    apply(
        rule(kind, action, context.role),
        is_owner(resource, context.user_id),
        is_member(resource, context.user_id),
    )
}

/// The table's entry for a kind, an action and a role.
pub fn rule_for(kind: ResourceKind, action: Action, role: Role) -> (entry: Rule)
    ensures
        entry == rule(kind, action, role),
{
    match role {
        Role::Admin => Rule::Always,
        Role::Teacher => match kind {
            ResourceKind::Subject => match action {
                Action::List => Rule::Member,
                _ => Rule::Never,
            },
            ResourceKind::Assessment => match action {
                Action::Create | Action::Read | Action::List | Action::Update | Action::Delete =>
                    Rule::Member,
                _ => Rule::Never,
            },
            ResourceKind::Submission => match action {
                Action::Read | Action::List | Action::Grade => Rule::Member,
                _ => Rule::Never,
            },
            ResourceKind::Account => Rule::Never,
        },
        Role::Student => match kind {
            ResourceKind::Subject => match action {
                Action::List => Rule::Member,
                _ => Rule::Never,
            },
            ResourceKind::Assessment => match action {
                Action::Read | Action::List => Rule::Member,
                _ => Rule::Never,
            },
            ResourceKind::Submission => match action {
                Action::Create => Rule::OwnerAndMember,
                Action::Read | Action::Update => Rule::Owner,
                _ => Rule::Never,
            },
            ResourceKind::Account => Rule::Never,
        },
    }
}

/// What `rule` says of a caller's relation to a resource.
pub fn apply_rule(rule: Rule, owner: bool, member: bool) -> (decision: Decision)
    ensures
        decision == apply(rule, owner, member),
{
    match rule {
        Rule::Always => Decision::Allow,
        Rule::Never => Decision::Deny(DenyReason::Role),
        Rule::Member => if member {
            Decision::Allow
        } else {
            Decision::Deny(DenyReason::NotMember)
        },
        Rule::Owner => if owner {
            Decision::Allow
        } else {
            Decision::Deny(DenyReason::NotOwner)
        },
        Rule::OwnerAndMember => if !owner {
            Decision::Deny(DenyReason::NotOwner)
        } else if !member {
            Decision::Deny(DenyReason::NotMember)
        } else {
            Decision::Allow
        },
    }
}

/// Decides whether `context` may do `action` to the resource of kind
/// `kind` that `resource` describes.
pub fn authorize(
    context: &Context,
    kind: ResourceKind,
    action: Action,
    resource: &ResourceRef,
) -> (decision: Decision)
    ensures
        decision == decide(context@, kind, action, resource@),
{
    let entry = rule_for(kind, action, context.role());
    let user = context.user_id();
    let owner = match resource.owner {
        Some(id) => id == user,
        None => false,
    };
    let member = match &resource.members {
        Some(list) => contains(list, user),
        None => false,
    };
    apply_rule(entry, owner, member)
}

/// An administrator is allowed every action on every resource.
pub proof fn lemma_admin_dominates(
    context: ContextView,
    kind: ResourceKind,
    action: Action,
    resource: ResourceView,
)
    requires
        context.role == Role::Admin,
    ensures
        decide(context, kind, action, resource) == Decision::Allow,
{
}

/// The decision is a function of the request alone, and of the resource it
/// takes no more than who owns it and whether the caller is a member: two
/// requests that agree in these get the same decision.
pub proof fn lemma_decision_is_determined(
    context: ContextView,
    kind: ResourceKind,
    action: Action,
    first: ResourceView,
    second: ResourceView,
)
    requires
        is_owner(first, context.user_id) == is_owner(second, context.user_id),
        is_member(first, context.user_id) == is_member(second, context.user_id),
    ensures
        decide(context, kind, action, first) == decide(context, kind, action, second),
{
}

/// Where the table closes a pair of kind and action to students and to
/// teachers, the role alone decides: an administrator is let through, and
/// nobody else.
pub proof fn lemma_admin_only(
    context: ContextView,
    kind: ResourceKind,
    action: Action,
    resource: ResourceView,
)
    requires
        rule(kind, action, Role::Student) == Rule::Never,
        rule(kind, action, Role::Teacher) == Rule::Never,
    ensures
        decide(context, kind, action, resource) == Decision::Allow <==> context.role
            == Role::Admin,
{
}

/// Accounts, the subjects themselves, their members, and the deletion of
/// submissions are closed to students and to teachers.
pub proof fn lemma_closed_pairs(action: Action, role: Role)
    requires
        role != Role::Admin,
    ensures
        rule(ResourceKind::Account, action, role) == Rule::Never,
        action != Action::List ==> rule(ResourceKind::Subject, action, role) == Rule::Never,
        rule(ResourceKind::Submission, Action::Delete, role) == Rule::Never,
{
}

/// A denial wins: where the table closes a pair to a role, no resource
/// opens it.
pub proof fn lemma_never_is_final(
    context: ContextView,
    kind: ResourceKind,
    action: Action,
    resource: ResourceView,
)
    requires
        rule(kind, action, context.role) == Rule::Never,
    ensures
        decide(context, kind, action, resource) == Decision::Deny(DenyReason::Role),
{
}

/// Which resources of a kind a caller gets to see in a listing.
#[derive(Clone, Copy, Debug, PartialEq, Eq, Structural)]
pub enum Filter {
    /// All of them.
    All,
    /// Those of the subjects that the principal is a member of.
    MemberOf(ObjectId),
    /// Those that the principal owns.
    OwnedBy(ObjectId),
    /// Those that the principal owns, in subjects that the principal is a
    /// member of.
    OwnedByMember(ObjectId),
}

/// A resource without owner and without subject.
pub open spec fn unrelated() -> ResourceView {
    ResourceView { owner: None, members: None }
}

/// `filter` lets `resource` through.
pub open spec fn admits(filter: Filter, resource: ResourceView) -> bool {
    match filter {
        Filter::All => true,
        Filter::MemberOf(user) => is_member(resource, user),
        Filter::OwnedBy(user) => is_owner(resource, user),
        Filter::OwnedByMember(user) => is_owner(resource, user) && is_member(resource, user),
    }
}

/// The filter of a listing of resources of kind `kind` for `context`; none
/// where the table closes such listings to the caller's role.
pub open spec fn filter_of(context: ContextView, kind: ResourceKind) -> Option<Filter> {
    match rule(kind, Action::List, context.role) {
        Rule::Always => Some(Filter::All),
        Rule::Never => None,
        Rule::Member => Some(Filter::MemberOf(context.user_id)),
        Rule::Owner => Some(Filter::OwnedBy(context.user_id)),
        Rule::OwnerAndMember => Some(Filter::OwnedByMember(context.user_id)),
    }
}

/// Whether the role of `context` alone allows `action` on resources of
/// kind `kind`.
pub open spec fn permitted(context: ContextView, kind: ResourceKind, action: Action) -> bool {
    decide(context, kind, action, unrelated()) == Decision::Allow
}

/// A listing shows exactly the resources that the caller is allowed to
/// list one by one; a listing that is closed to the caller's role shows
/// none of them.
pub proof fn lemma_filter_is_policy(
    context: ContextView,
    kind: ResourceKind,
    resource: ResourceView,
)
    ensures
        match filter_of(context, kind) {
            Some(filter) => admits(filter, resource) <==> decide(
                context,
                kind,
                Action::List,
                resource,
            ) == Decision::Allow,
            None => decide(context, kind, Action::List, resource) == Decision::Deny(
                DenyReason::Role,
            ),
        },
{
}

/// An administrator's listing shows everything.
pub proof fn lemma_admin_lists_all(context: ContextView, kind: ResourceKind)
    requires
        context.role == Role::Admin,
    ensures
        filter_of(context, kind) == Some(Filter::All),
{
}

/// The request as a failure, if the policy denies it.
pub fn allowed(decision: Decision) -> (outcome: Result<()>)
    ensures
        outcome is Ok <==> decision == Decision::Allow,
        outcome matches Err(e) ==> e == Error::Auth(AuthError::Forbidden),
{
    match decision {
        Decision::Allow => Ok(()),
        Decision::Deny(_) => Err(Error::Auth(AuthError::Forbidden)),
    }
}

/// Lets the request pass if the caller's role alone allows `action` on
/// resources of kind `kind`, and fails it as forbidden otherwise.
pub fn permit(context: &Context, kind: ResourceKind, action: Action) -> (outcome: Result<()>)
    ensures
        outcome is Ok <==> permitted(context@, kind, action),
        outcome matches Err(e) ==> e == Error::Auth(AuthError::Forbidden),
{
    let nothing = ResourceRef { owner: None, members: None };
    allowed(authorize(context, kind, action, &nothing))
}

/// The filter of a listing of resources of kind `kind`. Where the table
/// closes such listings to the caller's role, the request fails as
/// forbidden; otherwise the listing is narrowed, not refused.
pub fn listing(context: &Context, kind: ResourceKind) -> (filter: Result<Filter>)
    ensures
        match filter {
            Ok(filter) => filter_of(context@, kind) == Some(filter),
            Err(e) => filter_of(context@, kind) is None && e == Error::Auth(AuthError::Forbidden),
        },
{
    let user = context.user_id();
    match rule_for(kind, Action::List, context.role()) {
        Rule::Always => Ok(Filter::All),
        Rule::Never => Err(Error::Auth(AuthError::Forbidden)),
        Rule::Member => Ok(Filter::MemberOf(user)),
        Rule::Owner => Ok(Filter::OwnedBy(user)),
        Rule::OwnerAndMember => Ok(Filter::OwnedByMember(user)),
    }
}

impl Filter {
    /// Whether the filter lets `resource` through.
    pub fn lets_through(&self, resource: &ResourceRef) -> (through: bool)
        ensures
            through == admits(*self, resource@),
    {
        match self {
            Filter::All => true,
            Filter::MemberOf(user) => match &resource.members {
                Some(list) => contains(list, *user),
                None => false,
            },
            Filter::OwnedBy(user) => match resource.owner {
                Some(owner) => owner == *user,
                None => false,
            },
            Filter::OwnedByMember(user) => {
                let owner = match resource.owner {
                    Some(owner) => owner == *user,
                    None => false,
                };
                let member = match &resource.members {
                    Some(list) => contains(list, *user),
                    None => false,
                };
                owner && member
            },
        }
    }
}

} // verus!
