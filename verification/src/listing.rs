use vstd::prelude::*;
use crate::db::{
    listed_organizations, one_person, select_all_organizations, select_ceo_of_organisation,
};
use crate::error::{deep, DbError};
use crate::mapper::PersonColumnsView;
use crate::models::{
    Organization, OrganizationView, OrganizationWithCeo, OrganizationWithCeoView, PersonView,
};
use crate::row::{Row, RowView};
use crate::statement::{Statement, StatementView};

verus! {

/// How far a listing has come.
enum Stage {
    Organizations,
    Leaders { organizations: Vec<Organization>, joined: Vec<OrganizationWithCeo> },
}

/// Where the listing of the organizations with their leaders stands. The
/// listing runs one statement for the organizations and then one for the
/// leader of each, in order; this library never runs a statement itself, so
/// it says which one is next and takes what came back.
///
/// A listing is begun with [`Listing::start`] and carried on by
/// [`get_all_organizations`]; there is no other way to make one.
pub struct Listing {
    stage: Stage,
}

/// What a [`Listing`] holds, as mathematical values.
pub ghost enum ListingView {
    /// The statement that lists the organizations is out.
    Organizations,
    /// The organizations are known, the first `joined.len()` of them have
    /// their leaders, and the statement that finds the leader of the next
    /// one is out.
    Leaders { organizations: Seq<OrganizationView>, joined: Seq<OrganizationWithCeoView> },
}

impl View for Listing {
    type V = ListingView;

    closed spec fn view(&self) -> ListingView {
        match self.stage {
            Stage::Organizations => ListingView::Organizations,
            Stage::Leaders { organizations, joined } => ListingView::Leaders {
                organizations: organizations.deep_view(),
                joined: joined.deep_view(),
            },
        }
    }
}

impl ListingView {
    /// The organization that was joined to its leader last, if any has
    /// been.
    pub open spec fn latest(self) -> Option<OrganizationWithCeoView> {
        match self {
            ListingView::Leaders { joined, .. } if joined.len() > 0 => Some(joined.last()),
            _ => None,
        }
    }

    /// While leaders are looked up, one organization at least still lacks
    /// its leader, and each one joined so far is the organization at its
    /// place.
    pub open spec fn wf(self) -> bool {
        match self {
            ListingView::Organizations => true,
            ListingView::Leaders { organizations, joined } => {
                &&& joined.len() < organizations.len()
                &&& forall|i: int|
                    0 <= i < joined.len() ==> #[trigger] joined[i] == organizations[i].with_ceo(
                        joined[i].ceo,
                    )
            },
        }
    }
}

/// What the listing asks for next, or how it ended.
pub enum Step {
    /// Run the statement, then hand its outcome and the listing to
    /// [`get_all_organizations`].
    Run(Listing, Statement),
    /// The listing is complete: every organization with its leader, in the
    /// order in which the store listed the organizations.
    Done(Vec<OrganizationWithCeo>),
    /// The listing failed as a whole. Nothing of what was joined is kept.
    Failed(DbError),
}

/// What a [`Step`] holds, as mathematical values.
pub ghost enum StepView {
    Run(ListingView, StatementView),
    Done(Seq<OrganizationWithCeoView>),
    Failed(DbError),
}

impl View for Step {
    type V = StepView;

    open spec fn view(&self) -> StepView {
        match *self {
            Step::Run(listing, statement) => StepView::Run(listing@, statement@),
            Step::Done(joined) => StepView::Done(joined.deep_view()),
            Step::Failed(e) => StepView::Failed(e),
        }
    }
}

/// The step that follows once the first `joined.len()` organizations have
/// their leaders: the lookup for the next one, or the end.
pub open spec fn proceed(
    organizations: Seq<OrganizationView>,
    joined: Seq<OrganizationWithCeoView>,
) -> StepView {
    if joined.len() >= organizations.len() {
        StepView::Done(joined)
    } else {
        StepView::Run(
            ListingView::Leaders { organizations, joined },
            StatementView::ceo_of_organisation(organizations[joined.len() as int].id),
        )
    }
}

/// The step that follows when `outcome` comes back for the statement that
/// `listing` had out. Any error ends the listing with that error.
pub open spec fn advance(listing: ListingView, outcome: Result<Seq<RowView>, DbError>) -> StepView {
    match listing {
        ListingView::Organizations => match listed_organizations(outcome) {
            Ok(organizations) => proceed(organizations, Seq::empty()),
            Err(e) => StepView::Failed(e),
        },
        ListingView::Leaders { organizations, joined } => match one_person(
            PersonColumnsView::declared(),
            outcome,
            DbError::NotFound,
        ) {
            Ok(ceo) => proceed(
                organizations,
                joined.push(organizations[joined.len() as int].with_ceo(ceo)),
            ),
            Err(e) => StepView::Failed(e),
        },
    }
}

/// Decides what follows once the first `joined.len()` organizations have
/// their leaders.
fn proceed_with(organizations: Vec<Organization>, joined: Vec<OrganizationWithCeo>) -> (step: Step)
    requires
        joined.len() <= organizations.len(),
        forall|i: int|
            0 <= i < joined.len() ==> #[trigger] joined.deep_view()[i]
                == organizations.deep_view()[i].with_ceo(joined.deep_view()[i].ceo),
    ensures
        step@ == proceed(organizations.deep_view(), joined.deep_view()),
        step@ matches StepView::Run(listing, _) ==> listing.wf(),
{
    if joined.len() >= organizations.len() {
        Step::Done(joined)
    } else {
        let statement = Statement::ceo_of_organisation(organizations[joined.len()].id);
        Step::Run(Listing { stage: Stage::Leaders { organizations, joined } }, statement)
    }
}

impl Listing {
    #[verifier::type_invariant]
    spec fn well_formed(self) -> bool {
        self@.wf()
    }

    /// The organization that was joined to its leader last, if any has
    /// been: what the step before this listing added.
    pub fn latest(&self) -> (joined: Option<&OrganizationWithCeo>)
        ensures
            joined is Some <==> self@.latest() is Some,
            joined is Some ==> joined->Some_0@ == self@.latest()->Some_0,
    {
        match &self.stage {
            Stage::Organizations => None,
            Stage::Leaders { joined, .. } => {
                if joined.len() > 0 {
                    assert(joined.deep_view().last() == joined[joined.len() - 1]@);
                    Some(&joined[joined.len() - 1])
                } else {
                    None
                }
            },
        }
    }

    /// Begins a listing: the statement to run first, and the listing that
    /// waits for its outcome.
    pub fn start() -> (begun: (Listing, Statement))
        ensures
            begun.0@ == ListingView::Organizations,
            begun.0@.wf(),
            begun.1@ == StatementView::all_organizations(),
    {
        (Listing { stage: Stage::Organizations }, Statement::all_organizations())
    }
}

/// Takes the outcome of the statement that `listing` had out and says what
/// follows. The organizations come first; then the leader of each is looked
/// up, one statement for each organization in order, and joined to it. The
/// first error of any kind, a leader that is not found among them, ends the
/// listing with that error and without a partial list.
pub fn get_all_organizations(listing: Listing, outcome: Result<Vec<Row>, DbError>) -> (step: Step)
    ensures
        step@ == advance(listing@, deep(outcome)),
        step@ matches StepView::Run(next, _) ==> next.wf(),
{
    proof {
        use_type_invariant(&listing);
    }
    match listing.stage {
        Stage::Organizations => match select_all_organizations(outcome) {
            Ok(organizations) => {
                let joined: Vec<OrganizationWithCeo> = Vec::new();
                proof {
                    assert(joined.deep_view() =~= Seq::empty());
                }
                proceed_with(organizations, joined)
            },
            Err(e) => Step::Failed(e),
        },
        Stage::Leaders { organizations, joined } => match select_ceo_of_organisation(outcome) {
            Ok(ceo) => {
                let mut joined = joined;
                let ghost before = joined.deep_view();
                let next = OrganizationWithCeo::new(&organizations[joined.len()], ceo);
                joined.push(next);
                proof {
                    assert(joined.deep_view() =~= before.push(
                        organizations.deep_view()[before.len() as int].with_ceo(ceo@),
                    ));
                }
                proceed_with(organizations, joined)
            },
            Err(e) => Step::Failed(e),
        },
    }
}

/// The step at which a listing stands once the outcomes have come back, one
/// after the other, each for the statement that the step before asked for.
/// After the listing has ended, further outcomes change nothing.
pub open spec fn run(step: StepView, outcomes: Seq<Result<Seq<RowView>, DbError>>) -> StepView
    decreases outcomes.len(),
{
    if outcomes.len() == 0 {
        step
    } else {
        match step {
            StepView::Run(listing, _) => run(advance(listing, outcomes[0]), outcomes.drop_first()),
            _ => step,
        }
    }
}

/// The leader that is read from the outcome of a lookup.
pub open spec fn leader(outcome: Result<Seq<RowView>, DbError>) -> Result<PersonView, DbError> {
    one_person(PersonColumnsView::declared(), outcome, DbError::NotFound)
}

proof fn lemma_run_joins(
    organizations: Seq<OrganizationView>,
    joined: Seq<OrganizationWithCeoView>,
    outcomes: Seq<Result<Seq<RowView>, DbError>>,
)
    requires
        joined.len() + outcomes.len() == organizations.len(),
        forall|i: int| 0 <= i < outcomes.len() ==> (#[trigger] leader(outcomes[i])) is Ok,
    ensures
        run(proceed(organizations, joined), outcomes) == StepView::Done(
            joined + Seq::new(
                outcomes.len(),
                |i: int| organizations[joined.len() + i].with_ceo(leader(outcomes[i])->Ok_0),
            ),
        ),
    decreases outcomes.len(),
{
    let rest = Seq::new(
        outcomes.len(),
        |i: int| organizations[joined.len() + i].with_ceo(leader(outcomes[i])->Ok_0),
    );
    if outcomes.len() > 0 {
        let next = joined.push(
            organizations[joined.len() as int].with_ceo(leader(outcomes[0])->Ok_0),
        );
        let later = outcomes.drop_first();
        assert forall|i: int| 0 <= i < later.len() implies (#[trigger] leader(later[i])) is Ok by {
            assert(later[i] == outcomes[i + 1]);
        }
        lemma_run_joins(organizations, next, later);
        let later_rest = Seq::new(
            later.len(),
            |i: int| organizations[next.len() + i].with_ceo(leader(later[i])->Ok_0),
        );
        assert(next + later_rest =~= joined + rest);
    }
}

proof fn lemma_run_fails(
    organizations: Seq<OrganizationView>,
    joined: Seq<OrganizationWithCeoView>,
    outcomes: Seq<Result<Seq<RowView>, DbError>>,
    k: int,
)
    requires
        0 <= k < outcomes.len(),
        joined.len() + k < organizations.len(),
        forall|i: int| 0 <= i < k ==> (#[trigger] leader(outcomes[i])) is Ok,
        leader(outcomes[k]) is Err,
    ensures
        run(proceed(organizations, joined), outcomes) == StepView::Failed(
            leader(outcomes[k])->Err_0,
        ),
    decreases k,
{
    let later = outcomes.drop_first();
    if k == 0 {
        let failed = StepView::Failed(leader(outcomes[0])->Err_0);
        assert(run(failed, later) == failed);
    } else {
        let next = joined.push(
            organizations[joined.len() as int].with_ceo(leader(outcomes[0])->Ok_0),
        );
        assert forall|i: int| 0 <= i < k - 1 implies (#[trigger] leader(later[i])) is Ok by {
            assert(later[i] == outcomes[i + 1]);
        }
        lemma_run_fails(organizations, next, later, k - 1);
    }
}

/// A listing in which every lookup succeeds ends with every organization
/// joined to its leader, in the order in which the store listed the
/// organizations: one lookup is made for each, and the leader read from the
/// lookup at place `i` stands in the organization at place `i`.
pub proof fn lemma_listing_joins_every_leader(
    rows: Seq<RowView>,
    lookups: Seq<Result<Seq<RowView>, DbError>>,
)
    requires
        listed_organizations(Ok(rows)) is Ok,
        lookups.len() == rows.len(),
        forall|i: int| 0 <= i < lookups.len() ==> (#[trigger] leader(lookups[i])) is Ok,
    ensures
        run(advance(ListingView::Organizations, Ok(rows)), lookups) == StepView::Done(
            Seq::new(
                rows.len(),
                |i: int|
                    listed_organizations(Ok(rows))->Ok_0[i].with_ceo(leader(lookups[i])->Ok_0),
            ),
        ),
{
    let organizations = listed_organizations(Ok(rows))->Ok_0;
    lemma_run_joins(organizations, Seq::empty(), lookups);
    assert(Seq::<OrganizationWithCeoView>::empty() + Seq::new(
        lookups.len(),
        |i: int| organizations[0 + i].with_ceo(leader(lookups[i])->Ok_0),
    ) =~= Seq::new(rows.len(), |i: int| organizations[i].with_ceo(leader(lookups[i])->Ok_0)));
}

/// A listing gives all or nothing: the first lookup that fails, be it that
/// the leader is not found, ends the listing with the error of that lookup,
/// and nothing of what was joined before is handed out.
pub proof fn lemma_listing_is_all_or_nothing(
    rows: Seq<RowView>,
    lookups: Seq<Result<Seq<RowView>, DbError>>,
    k: int,
)
    requires
        listed_organizations(Ok(rows)) is Ok,
        0 <= k < lookups.len(),
        k < rows.len(),
        forall|i: int| 0 <= i < k ==> (#[trigger] leader(lookups[i])) is Ok,
        leader(lookups[k]) is Err,
    ensures
        run(advance(ListingView::Organizations, Ok(rows)), lookups) == StepView::Failed(
            leader(lookups[k])->Err_0,
        ),
{
    let organizations = listed_organizations(Ok(rows))->Ok_0;
    lemma_run_fails(organizations, Seq::empty(), lookups, k);
}

} // verus!
