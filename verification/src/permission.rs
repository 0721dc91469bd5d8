//! Who may write a package: the rule that ties a writer to the owners of
//! the package's scope.
//!
//! The owners of a scope are recorded in the package index, which this
//! module does not read. [`WriteAccess::can_write_package`] is given what
//! the index has answered so far and says what follows: the decision, the
//! next question to put to the index, or the failure of the index to answer.

use vstd::prelude::*;
use crate::access::WriteAccess;
use crate::access::WriteAccessView;
use crate::github::GithubIdentity;
use crate::text::str_eq;

verus! {

/// The lower-case form of a character sequence, as `str::to_lowercase`
/// computes it.
pub uninterp spec fn lowercase(s: Seq<char>) -> Seq<char>;

/// `str::to_lowercase` returns the lower-case form of a string, by the
/// Unicode rules that the standard library implements. Believed, not proved:
/// the result is a function of the characters of the string alone.
pub assume_specification[ str::to_lowercase ](s: &str) -> (lowered: String)
    ensures
        lowered@ == lowercase(s@),
;

/// The package index could not answer a question.
#[derive(Debug, PartialEq, Eq)]
pub struct IndexError {
    message: String,
}

impl View for IndexError {
    type V = Seq<char>;

    closed spec fn view(&self) -> Seq<char> {
        self.message@
    }
}

impl IndexError {
    /// The failure that this message describes.
    pub fn new(message: String) -> (error: IndexError)
        ensures
            error@ == message@,
    {
        IndexError { message }
    }

    /// What went wrong, in words.
    pub fn message(&self) -> (message: &str)
        ensures
            message@ == self@,
    {
        self.message.as_str()
    }

    /// A second value for the same failure.
    pub fn duplicate(&self) -> (copy: IndexError)
        ensures
            copy@ == self@,
    {
        IndexError { message: self.message.clone() }
    }
}

/// What the index has answered so far, as a mathematical value.
pub ghost struct IndexAnswersView {
    pub is_scope_owner: Option<Result<bool, Seq<char>>>,
    pub scope_owners: Option<Result<Seq<u64>, Seq<char>>>,
}

/// What the package index has answered so far to the questions of one
/// decision. A field is `None` until its question has been answered.
#[derive(Debug, PartialEq, Eq)]
pub struct IndexAnswers {
    /// The answer to [`IndexQuery::IsScopeOwner`].
    pub is_scope_owner: Option<Result<bool, IndexError>>,
    /// The answer to [`IndexQuery::ScopeOwners`].
    pub scope_owners: Option<Result<Vec<u64>, IndexError>>,
}

impl View for IndexAnswers {
    type V = IndexAnswersView;

    open spec fn view(&self) -> IndexAnswersView {
        IndexAnswersView {
            is_scope_owner: match self.is_scope_owner {
                Some(Ok(owner)) => Some(Ok(owner)),
                Some(Err(error)) => Some(Err(error@)),
                None => None,
            },
            scope_owners: match self.scope_owners {
                Some(Ok(owners)) => Some(Ok(owners@)),
                Some(Err(error)) => Some(Err(error@)),
                None => None,
            },
        }
    }
}

impl IndexAnswers {
    /// No answer yet.
    pub fn new() -> (answers: IndexAnswers)
        ensures
            answers@ == (IndexAnswersView { is_scope_owner: None, scope_owners: None }),
    {
        IndexAnswers { is_scope_owner: None, scope_owners: None }
    }
}

/// A question to the index, as a mathematical value.
pub ghost enum IndexQueryView {
    IsScopeOwner { scope: Seq<char>, id: u64 },
    ScopeOwners { scope: Seq<char> },
}

/// A question to put to the package index.
#[derive(Debug, PartialEq, Eq)]
pub enum IndexQuery {
    /// Is the account `id` one of the owners of `scope`?
    IsScopeOwner { scope: String, id: u64 },
    /// Which accounts own `scope`?
    ScopeOwners { scope: String },
}

impl View for IndexQuery {
    type V = IndexQueryView;

    open spec fn view(&self) -> IndexQueryView {
        match *self {
            IndexQuery::IsScopeOwner { scope, id } => IndexQueryView::IsScopeOwner {
                scope: scope@,
                id,
            },
            IndexQuery::ScopeOwners { scope } => IndexQueryView::ScopeOwners { scope: scope@ },
        }
    }
}

/// Where a decision stands, as a mathematical value.
pub ghost enum WriteCheckView {
    Decided(bool),
    Failed(Seq<char>),
    Ask(IndexQueryView),
}

/// Where the decision on a writer and a package stands.
#[derive(Debug, PartialEq, Eq)]
pub enum WriteCheck {
    /// The writer may write the package, or may not.
    Decided(bool),
    /// The index failed to answer: nothing is known of the writer's right.
    Failed(IndexError),
    /// The index has to be asked first: put this question, record its
    /// answer and ask again.
    Ask(IndexQuery),
}

impl View for WriteCheck {
    type V = WriteCheckView;

    open spec fn view(&self) -> WriteCheckView {
        match *self {
            WriteCheck::Decided(allowed) => WriteCheckView::Decided(allowed),
            WriteCheck::Failed(error) => WriteCheckView::Failed(error@),
            WriteCheck::Ask(query) => WriteCheckView::Ask(query@),
        }
    }
}

/// Whether an account that is no owner of `scope` may still write to it: it
/// may where its login name in lower case is the scope and the scope has no
/// owner yet.
pub open spec fn spec_claim_unowned_scope(
    lowered_login: Seq<char>,
    scope: Seq<char>,
    scope_owners: Option<Result<Seq<u64>, Seq<char>>>,
) -> WriteCheckView {
    if lowered_login != scope {
        WriteCheckView::Decided(false)
    } else {
        match scope_owners {
            None => WriteCheckView::Ask(IndexQueryView::ScopeOwners { scope }),
            Some(Err(error)) => WriteCheckView::Failed(error),
            Some(Ok(owners)) => WriteCheckView::Decided(owners.len() == 0),
        }
    }
}

/// Whether `access` lets its holder write a package of `scope`, as far as
/// the answers that the index has given so far decide it.
pub open spec fn spec_can_write_package(
    access: WriteAccessView,
    scope: Seq<char>,
    answers: IndexAnswersView,
) -> WriteCheckView {
    match access {
        WriteAccessView::ApiKey => WriteCheckView::Decided(true),
        WriteAccessView::Github(identity) => match answers.is_scope_owner {
            None => WriteCheckView::Ask(IndexQueryView::IsScopeOwner { scope, id: identity.id }),
            Some(Err(error)) => WriteCheckView::Failed(error),
            Some(Ok(true)) => WriteCheckView::Decided(true),
            Some(Ok(false)) => spec_claim_unowned_scope(
                lowercase(identity.login),
                scope,
                answers.scope_owners,
            ),
        },
    }
}

/// Decides whether an account that is no owner of `scope` may still write
/// to it, given its login name in lower case: the first to publish under
/// the scope named like the account becomes its owner.
pub fn claim_unowned_scope(lowered_login: &str, scope: &str, answers: &IndexAnswers) -> (check:
    WriteCheck)
    ensures
        check@ == spec_claim_unowned_scope(lowered_login@, scope@, answers@.scope_owners),
{
    if !str_eq(lowered_login, scope) {
        return WriteCheck::Decided(false);
    }
    match &answers.scope_owners {
        None => WriteCheck::Ask(IndexQuery::ScopeOwners { scope: scope.to_owned() }),
        Some(Err(error)) => WriteCheck::Failed(error.duplicate()),
        Some(Ok(owners)) => WriteCheck::Decided(owners.len() == 0),
    }
}

impl WriteAccess {
    /// Decides whether the holder of this access may write a package of
    /// `scope`.
    ///
    /// The caller starts with no answer, puts each question that comes back
    /// as [`WriteCheck::Ask`] to the index, records the answer in `answers`
    /// and asks again, until the check is [`WriteCheck::Decided`] or
    /// [`WriteCheck::Failed`].
    pub fn can_write_package(&self, scope: &str, answers: &IndexAnswers) -> (check: WriteCheck)
        ensures
            check@ == spec_can_write_package(self@, scope@, answers@),
    {
        match self {
            WriteAccess::ApiKey => WriteCheck::Decided(true),
            WriteAccess::Github(info) => match &answers.is_scope_owner {
                None => WriteCheck::Ask(
                    IndexQuery::IsScopeOwner { scope: scope.to_owned(), id: *info.id() },
                ),
                Some(Err(error)) => WriteCheck::Failed(error.duplicate()),
                Some(Ok(true)) => WriteCheck::Decided(true),
                Some(Ok(false)) => {
                    let lowered = info.login().to_lowercase();
                    claim_unowned_scope(lowered.as_str(), scope, answers)
                },
            },
        }
    }
}

/// Whether `access` lets its holder write a package of `scope`, where the
/// index says that the holder is an owner of the scope or is not
/// (`is_owner`) and that the scope has the owners `owners`.
pub open spec fn spec_may_write(
    access: WriteAccessView,
    scope: Seq<char>,
    is_owner: bool,
    owners: Seq<u64>,
) -> bool {
    match access {
        WriteAccessView::ApiKey => true,
        WriteAccessView::Github(identity) => is_owner || (lowercase(identity.login) == scope
            && owners.len() == 0),
    }
}

/// Once the index has answered both questions, the decision is made, and it
/// is the one that the rule gives: the key for writing writes everywhere; an
/// owner of the scope writes to it; an account that is no owner writes only
/// to the scope that is its login name in lower case, and only while that
/// scope has no owner.
pub proof fn lemma_decision_follows_the_rule(
    access: WriteAccessView,
    scope: Seq<char>,
    is_owner: bool,
    owners: Seq<u64>,
)
    ensures
        spec_can_write_package(
            access,
            scope,
            IndexAnswersView { is_scope_owner: Some(Ok(is_owner)), scope_owners: Some(Ok(owners)) },
        ) == WriteCheckView::Decided(spec_may_write(access, scope, is_owner, owners)),
{
}

/// An owner of the scope may write to it, whoever else owns it and whatever
/// the account is called; the owners are not even asked for.
pub proof fn lemma_owner_may_write(
    identity: GithubIdentity,
    scope: Seq<char>,
    scope_owners: Option<Result<Seq<u64>, Seq<char>>>,
)
    ensures
        spec_can_write_package(
            WriteAccessView::Github(identity),
            scope,
            IndexAnswersView { is_scope_owner: Some(Ok(true)), scope_owners },
        ) == WriteCheckView::Decided(true),
{
}

/// A scope that has owners is shut to an account that is none of them, even
/// where the scope is the account's login name.
pub proof fn lemma_owned_scope_is_shut(
    identity: GithubIdentity,
    scope: Seq<char>,
    owners: Seq<u64>,
)
    requires
        owners.len() > 0,
    ensures
        spec_can_write_package(
            WriteAccessView::Github(identity),
            scope,
            IndexAnswersView { is_scope_owner: Some(Ok(false)), scope_owners: Some(Ok(owners)) },
        ) == WriteCheckView::Decided(false),
{
}

/// A failure of the index is handed on as it is: it is neither a permission
/// nor a denial.
pub proof fn lemma_index_failure_is_handed_on(
    identity: GithubIdentity,
    scope: Seq<char>,
    error: Seq<char>,
    scope_owners: Option<Result<Seq<u64>, Seq<char>>>,
)
    ensures
        spec_can_write_package(
            WriteAccessView::Github(identity),
            scope,
            IndexAnswersView { is_scope_owner: Some(Err(error)), scope_owners },
        ) == WriteCheckView::Failed(error),
        lowercase(identity.login) == scope ==> spec_can_write_package(
            WriteAccessView::Github(identity),
            scope,
            IndexAnswersView { is_scope_owner: Some(Ok(false)), scope_owners: Some(Err(error)) },
        ) == WriteCheckView::Failed(error),
{
}

/// A question is put only while its answer is missing, so a decision takes
/// two questions at most.
pub proof fn lemma_each_question_is_put_once(
    access: WriteAccessView,
    scope: Seq<char>,
    answers: IndexAnswersView,
)
    ensures
        ({
            let check = spec_can_write_package(access, scope, answers);
            &&& check matches WriteCheckView::Ask(IndexQueryView::IsScopeOwner { .. })
                ==> answers.is_scope_owner is None
            &&& check matches WriteCheckView::Ask(IndexQueryView::ScopeOwners { .. })
                ==> answers.scope_owners is None
        }),
{
}

} // verus!
