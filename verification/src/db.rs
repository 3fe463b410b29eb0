use vstd::prelude::*;
use crate::error::{deep, DbError};
use crate::mapper::{
    lemma_column_tables_distinct, lemma_organization_row_round_trip, lemma_person_row_round_trip,
    organization_row, organizations_from_rows, organizations_of, people_from_rows, people_of,
    person_of, person_row, PersonColumns, PersonColumnsView,
};
use crate::models::{
    NewOrganizationView, NewPersonView, Organization, OrganizationView, Person, PersonView,
};
use crate::row::{i32_field, lemma_lookup_finds_first, lookup, Row, RowView, Value, ValueView};
use crate::statement::StatementView;

verus! {

/// The people that a statement listed. An error of the pool or the store is
/// handed on as it is; an empty list is a good answer.
pub open spec fn listed_people(outcome: Result<Seq<RowView>, DbError>) -> Result<
    Seq<PersonView>,
    DbError,
> {
    match outcome {
        Ok(rows) => people_of(PersonColumnsView::declared(), rows),
        Err(e) => Err(e),
    }
}

/// The organizations that a statement listed. An error of the pool or the
/// store is handed on as it is; an empty list is a good answer.
pub open spec fn listed_organizations(outcome: Result<Seq<RowView>, DbError>) -> Result<
    Seq<OrganizationView>,
    DbError,
> {
    match outcome {
        Ok(rows) => organizations_of(rows),
        Err(e) => Err(e),
    }
}

/// The one person that a statement was run for: the person of the last row.
/// An error of the pool or the store is handed on as it is; every row must
/// map; no row at all gives `missing`.
pub open spec fn one_person(
    columns: PersonColumnsView,
    outcome: Result<Seq<RowView>, DbError>,
    missing: DbError,
) -> Result<PersonView, DbError> {
    match outcome {
        Ok(rows) => match people_of(columns, rows) {
            Ok(people) => if people.len() == 0 {
                Err(missing)
            } else {
                Ok(people.last())
            },
            Err(e) => Err(e),
        },
        Err(e) => Err(e),
    }
}

/// The one organization that a statement was run for: the organization of
/// the last row. An error of the pool or the store is handed on as it is;
/// every row must map; no row at all gives `missing`.
pub open spec fn one_organization(
    outcome: Result<Seq<RowView>, DbError>,
    missing: DbError,
) -> Result<OrganizationView, DbError> {
    match outcome {
        Ok(rows) => match organizations_of(rows) {
            Ok(organizations) => if organizations.len() == 0 {
                Err(missing)
            } else {
                Ok(organizations.last())
            },
            Err(e) => Err(e),
        },
        Err(e) => Err(e),
    }
}

/// Whether the ids of the people ascend, none occurring twice.
pub open spec fn ascending(people: Seq<PersonView>) -> bool {
    forall|i: int, j: int| 0 <= i < j < people.len() ==> people[i].id < people[j].id
}

/// Whether the ids that the rows hold under `id` ascend, none occurring
/// twice.
pub open spec fn rows_ascending(rows: Seq<RowView>) -> bool {
    forall|i: int, j: int|
        0 <= i < j < rows.len() ==> i32_field(rows[i], "id"@)->Ok_0 < i32_field(
            rows[j],
            "id"@,
        )->Ok_0
}

/// Maps the rows to people and keeps the last of them.
fn last_person(rows: &Vec<Row>, columns: &PersonColumns, missing: DbError) -> (person: Result<
    Person,
    DbError,
>)
    ensures
        deep(person) == one_person(columns@, Ok(rows.deep_view()), missing),
{
    let mut people = people_from_rows(rows, columns)?;
    match people.pop() {
        Some(person) => Ok(person),
        None => Err(missing),
    }
}

/// Maps the rows to organizations and keeps the last of them.
fn last_organization(rows: &Vec<Row>, missing: DbError) -> (organization: Result<
    Organization,
    DbError,
>)
    ensures
        deep(organization) == one_organization(Ok(rows.deep_view()), missing),
{
    let mut organizations = organizations_from_rows(rows)?;
    match organizations.pop() {
        Some(organization) => Ok(organization),
        None => Err(missing),
    }
}

/// Reads the answer to the statement that lists all people
/// ([`Statement::all_persons`](crate::statement::Statement::all_persons)):
/// one person for each row, in the order of the rows. The statement asks the
/// store for ascending ids; where the rows came so, the ids of the people
/// ascend.
pub fn select_all_persons(outcome: Result<Vec<Row>, DbError>) -> (people: Result<
    Vec<Person>,
    DbError,
>)
    ensures
        deep(people) == listed_people(deep(outcome)),
        people is Ok ==> outcome is Ok && people->Ok_0.len() == outcome->Ok_0.len(),
        people is Ok && rows_ascending(outcome->Ok_0.deep_view()) ==> ascending(
            people->Ok_0.deep_view(),
        ),
{
    match outcome {
        Ok(rows) => {
            let people = people_from_rows(&rows, &PersonColumns::declared());
            proof {
                if people is Ok {
                    lemma_listing_follows_rows(rows.deep_view());
                }
            }
            people
        },
        Err(e) => Err(e),
    }
}

/// Reads the answer to the statement that lists all organizations
/// ([`Statement::all_organizations`](crate::statement::Statement::all_organizations)):
/// one organization for each row, in the order of the rows.
pub fn select_all_organizations(outcome: Result<Vec<Row>, DbError>) -> (organizations: Result<
    Vec<Organization>,
    DbError,
>)
    ensures
        deep(organizations) == listed_organizations(deep(outcome)),
{
    match outcome {
        Ok(rows) => organizations_from_rows(&rows),
        Err(e) => Err(e),
    }
}

/// Reads the answer to the statement that lists the first people
/// ([`Statement::persons_limit`](crate::statement::Statement::persons_limit)):
/// one person for each row, in the order of the rows. The store has applied
/// the limit and the order; no row that it sent is dropped or moved here.
pub fn select_persons_limit(outcome: Result<Vec<Row>, DbError>) -> (people: Result<
    Vec<Person>,
    DbError,
>)
    ensures
        deep(people) == listed_people(deep(outcome)),
        people is Ok ==> outcome is Ok && people->Ok_0.len() == outcome->Ok_0.len(),
        people is Ok && rows_ascending(outcome->Ok_0.deep_view()) ==> ascending(
            people->Ok_0.deep_view(),
        ),
{
    match outcome {
        Ok(rows) => {
            let people = people_from_rows(&rows, &PersonColumns::declared());
            proof {
                if people is Ok {
                    lemma_listing_follows_rows(rows.deep_view());
                }
            }
            people
        },
        Err(e) => Err(e),
    }
}

/// Whether the call that finds a person by id was answered with "nobody":
/// one row in which every output parameter of the routine came back null.
/// A routine with output parameters always answers with a row; where it
/// found no person it has assigned nothing to them.
pub open spec fn found_nobody(rows: Seq<RowView>) -> bool {
    &&& rows.len() == 1
    &&& lookup(rows[0], "p_name"@) == Some(ValueView::Text(None))
    &&& lookup(rows[0], "p_job"@) == Some(ValueView::Text(None))
    &&& lookup(rows[0], "p_is_adult"@) == Some(ValueView::Bool(None))
    &&& lookup(rows[0], "p_favorite_number"@) == Some(ValueView::Int2(None))
}

/// The person that the call that finds a person by id was answered with.
/// An error of the pool or the store is handed on as it is. No row, or the
/// one row of null outputs, means that there is no such person. Any other
/// answer is read as [`one_person`] reads it, under the names that the
/// routine gives its columns.
pub open spec fn person_by_id(outcome: Result<Seq<RowView>, DbError>) -> Result<
    PersonView,
    DbError,
> {
    if outcome is Ok && found_nobody(outcome->Ok_0) {
        Err(DbError::NotFound)
    } else {
        one_person(PersonColumnsView::aliased(), outcome, DbError::NotFound)
    }
}

/// Whether the rows are the answer "nobody" of the call that finds a person
/// by id.
fn is_nobody(rows: &Vec<Row>) -> (nobody: bool)
    ensures
        nobody == found_nobody(rows.deep_view()),
{
    if rows.len() != 1 {
        return false;
    }
    let row = &rows[0];
    assert(rows.deep_view()[0] == row@);
    let name = match row.get("p_name") {
        Some(Value::Text(None)) => true,
        _ => false,
    };
    let job = match row.get("p_job") {
        Some(Value::Text(None)) => true,
        _ => false,
    };
    let is_adult = match row.get("p_is_adult") {
        Some(Value::Bool(None)) => true,
        _ => false,
    };
    let favorite_number = match row.get("p_favorite_number") {
        Some(Value::Int2(None)) => true,
        _ => false,
    };
    name && job && is_adult && favorite_number
}

/// Reads the answer to the call that finds a person by id
/// ([`Statement::person_by_id`](crate::statement::Statement::person_by_id)).
/// The routine names its columns `p_id`, `p_name` and so on. Where there is
/// no such person the store sends no row, or one row in which every output
/// of the routine is null: both mean `NotFound`, as for a plain query that
/// finds nothing. A row with some outputs null and others not is a row of
/// the wrong shape.
pub fn select_person_by_id(outcome: Result<Vec<Row>, DbError>) -> (person: Result<Person, DbError>)
    ensures
        deep(person) == person_by_id(deep(outcome)),
        deep(outcome) is Ok && found_nobody(deep(outcome)->Ok_0) ==> person == Err::<
            Person,
            DbError,
        >(DbError::NotFound),
        deep(outcome) is Ok && deep(outcome)->Ok_0.len() == 0 ==> person == Err::<
            Person,
            DbError,
        >(DbError::NotFound),
        !(deep(outcome) is Ok && found_nobody(deep(outcome)->Ok_0)) ==> deep(person) == one_person(
            PersonColumnsView::aliased(),
            deep(outcome),
            DbError::NotFound,
        ),
{
    match outcome {
        Ok(rows) => {
            if is_nobody(&rows) {
                Err(DbError::NotFound)
            } else {
                last_person(&rows, &PersonColumns::aliased(), DbError::NotFound)
            }
        },
        Err(e) => Err(e),
    }
}

/// Reads the answer to the statement that finds the leader of an
/// organization
/// ([`Statement::ceo_of_organisation`](crate::statement::Statement::ceo_of_organisation)).
/// No row means that there is no such organization, or that no person has
/// the id that it names as its leader.
pub fn select_ceo_of_organisation(outcome: Result<Vec<Row>, DbError>) -> (person: Result<
    Person,
    DbError,
>)
    ensures
        deep(person) == one_person(PersonColumnsView::declared(), deep(outcome), DbError::NotFound),
        deep(outcome) == Ok::<Seq<RowView>, DbError>(Seq::empty()) ==> person == Err::<
            Person,
            DbError,
        >(DbError::NotFound),
{
    match outcome {
        Ok(rows) => last_person(&rows, &PersonColumns::declared(), DbError::NotFound),
        Err(e) => Err(e),
    }
}

/// Reads the answer to the call that stores a person
/// ([`Statement::insert_person`](crate::statement::Statement::insert_person)):
/// the person as the store now holds it, with the id that the store gave.
/// The routine names its columns `p_id`, `p_name` and so on. An insert that
/// gives no row back has failed.
pub fn insert_person(outcome: Result<Vec<Row>, DbError>) -> (person: Result<Person, DbError>)
    ensures
        deep(person) == one_person(
            PersonColumnsView::aliased(),
            deep(outcome),
            DbError::QueryError,
        ),
{
    match outcome {
        Ok(rows) => last_person(&rows, &PersonColumns::aliased(), DbError::QueryError),
        Err(e) => Err(e),
    }
}

/// Reads the answer to the statement that stores an organization
/// ([`Statement::insert_organization`](crate::statement::Statement::insert_organization)):
/// the organization as the store now holds it, with the id that the store
/// gave. An insert that gives no row back has failed.
pub fn insert_organization(outcome: Result<Vec<Row>, DbError>) -> (organization: Result<
    Organization,
    DbError,
>)
    ensures
        deep(organization) == one_organization(deep(outcome), DbError::QueryError),
{
    match outcome {
        Ok(rows) => last_organization(&rows, DbError::QueryError),
        Err(e) => Err(e),
    }
}

/// A listing follows the rows: it holds one person for each row, at the
/// place of the row, so people come in the order in which the store sent
/// them. Where the store sent the rows by ascending id, the ids of the people
/// ascend.
pub proof fn lemma_listing_follows_rows(rows: Seq<RowView>)
    requires
        listed_people(Ok(rows)) is Ok,
    ensures
        listed_people(Ok(rows))->Ok_0.len() == rows.len(),
        forall|i: int|
            0 <= i < rows.len() ==> Ok::<PersonView, DbError>(
                #[trigger] listed_people(Ok(rows))->Ok_0[i],
            ) == person_of(PersonColumnsView::declared(), rows[i]),
        rows_ascending(rows) ==> ascending(listed_people(Ok(rows))->Ok_0),
{
    let people = listed_people(Ok(rows))->Ok_0;
    assert forall|i: int| 0 <= i < rows.len() implies Ok::<PersonView, DbError>(
        #[trigger] people[i],
    ) == person_of(PersonColumnsView::declared(), rows[i]) by {
        assert(person_of(PersonColumnsView::declared(), rows[i]) is Ok);
    }
}

/// Listing with a limit gives a prefix of the full listing. Where the full
/// listing is read from `rows`, a store that is asked for `limit` people
/// sends the first `limit` of these rows, or all of them if they are fewer;
/// what is read from those is the full listing cut after as many people.
pub proof fn lemma_limited_listing_is_prefix(rows: Seq<RowView>, limit: nat)
    requires
        listed_people(Ok(rows)) is Ok,
    ensures
        ({
            let count = if limit <= rows.len() {
                limit as int
            } else {
                rows.len() as int
            };
            &&& listed_people(Ok(rows.take(count))) == Ok::<Seq<PersonView>, DbError>(
                listed_people(Ok(rows))->Ok_0.take(count),
            )
            &&& listed_people(Ok(rows.take(count)))->Ok_0.len() == count
        }),
{
    let count = if limit <= rows.len() {
        limit as int
    } else {
        rows.len() as int
    };
    let columns = PersonColumnsView::declared();
    let all = listed_people(Ok(rows))->Ok_0;
    let first = rows.take(count);
    assert forall|i: int| 0 <= i < first.len() implies (#[trigger] person_of(
        columns,
        first[i],
    )) is Ok by {
        assert(first[i] == rows[i]);
    }
    assert(listed_people(Ok(first))->Ok_0 =~= all.take(count));
}

/// A person that was stored is found again as it was stored. The call that
/// stores `input` binds its four fields; where the store gives the id `id`
/// and sends the row of that person, the call is answered with the four
/// fields unchanged under that id, and so is a later call that finds the
/// person by that id ([`person_by_id`]).
pub proof fn lemma_insert_then_fetch(input: NewPersonView, id: i32)
    ensures
        ({
            let bound = StatementView::insert_person(input).params;
            let row = person_row(PersonColumnsView::aliased(), input.with_id(id));
            &&& row[1].value == bound[0]
            &&& row[2].value == bound[1]
            &&& row[3].value == bound[2]
            &&& row[4].value == bound[3]
            &&& one_person(PersonColumnsView::aliased(), Ok(seq![row]), DbError::QueryError) == Ok::<
                PersonView,
                DbError,
            >(input.with_id(id))
            &&& person_by_id(Ok(seq![row])) == Ok::<PersonView, DbError>(input.with_id(id))
            &&& input.with_id(id).without_id() == input
        }),
{
    let columns = PersonColumnsView::aliased();
    let row = person_row(columns, input.with_id(id));
    lemma_column_tables_distinct();
    lemma_person_row_round_trip(columns, input.with_id(id));
    lemma_person_is_not_nobody(input.with_id(id));
    assert(seq![row][0] == row);
}

/// The row of a person is never taken for the answer "nobody": under
/// `p_name` it holds a name, not a null.
pub proof fn lemma_person_is_not_nobody(person: PersonView)
    ensures
        !found_nobody(seq![person_row(PersonColumnsView::aliased(), person)]),
{
    let row = person_row(PersonColumnsView::aliased(), person);
    lemma_column_tables_distinct();
    lemma_lookup_finds_first(row, "p_name"@, 1);
    assert(seq![row][0] == row);
}

/// A person that does not exist is not found. Where no person has the id
/// that was asked for, the routine answers with no row or with one row of
/// null outputs; either way the call ends in `NotFound`, never in a mapping
/// error and never in a person.
pub proof fn lemma_missing_person_is_not_found(rows: Seq<RowView>)
    requires
        rows.len() == 0 || found_nobody(rows),
    ensures
        person_by_id(Ok(rows)) == Err::<PersonView, DbError>(DbError::NotFound),
{
    if rows.len() == 0 {
        assert(people_of(PersonColumnsView::aliased(), rows)->Ok_0.len() == 0);
    }
}

/// The call to the routine reads as the plain query would. Where the store
/// holds `person` under the id asked for, the call is answered with the row
/// of the person under the routine's names and the query with the row under
/// the names of the fields: both give `person`. Where it holds nobody under
/// that id, the call is answered with `missing`, no row or the row of null
/// outputs, and the query with no row: both give `NotFound`.
pub proof fn lemma_call_reads_as_query(person: PersonView, missing: Seq<RowView>)
    requires
        missing.len() == 0 || found_nobody(missing),
    ensures
        person_by_id(Ok(seq![person_row(PersonColumnsView::aliased(), person)])) == one_person(
            PersonColumnsView::declared(),
            Ok(seq![person_row(PersonColumnsView::declared(), person)]),
            DbError::NotFound,
        ),
        person_by_id(Ok(seq![person_row(PersonColumnsView::aliased(), person)])) == Ok::<
            PersonView,
            DbError,
        >(person),
        person_by_id(Ok(missing)) == one_person(
            PersonColumnsView::declared(),
            Ok(Seq::empty()),
            DbError::NotFound,
        ),
        person_by_id(Ok(missing)) == Err::<PersonView, DbError>(DbError::NotFound),
{
    let aliased = person_row(PersonColumnsView::aliased(), person);
    let declared = person_row(PersonColumnsView::declared(), person);
    lemma_column_tables_distinct();
    lemma_person_row_round_trip(PersonColumnsView::aliased(), person);
    lemma_person_row_round_trip(PersonColumnsView::declared(), person);
    lemma_person_is_not_nobody(person);
    lemma_missing_person_is_not_found(missing);
    assert(seq![aliased][0] == aliased);
    assert(seq![declared][0] == declared);
    assert(people_of(PersonColumnsView::declared(), Seq::empty())->Ok_0.len() == 0);
}

/// An organization that was stored comes back as it was stored. The
/// statement that stores `input` binds its four fields; where the store
/// gives the id `id` and sends the row of that organization, the statement
/// is answered with the four fields unchanged under that id.
pub proof fn lemma_insert_organization_gives_fields_back(input: NewOrganizationView, id: i32)
    ensures
        ({
            let bound = StatementView::insert_organization(input).params;
            let row = organization_row(input.with_id(id));
            &&& row[1].value == bound[0]
            &&& row[2].value == bound[1]
            &&& row[3].value == bound[2]
            &&& row[4].value == bound[3]
            &&& one_organization(Ok(seq![row]), DbError::QueryError) == Ok::<
                OrganizationView,
                DbError,
            >(input.with_id(id))
        }),
{
    let row = organization_row(input.with_id(id));
    lemma_organization_row_round_trip(input.with_id(id));
    assert(seq![row][0] == row);
}

/// The leader that is found is the person that the organization names.
/// Where the store answers the lookup with the row of the person `ceo`, the
/// lookup gives a person equal to `ceo` in every field.
pub proof fn lemma_ceo_is_the_person_named(ceo: PersonView)
    ensures
        one_person(
            PersonColumnsView::declared(),
            Ok(seq![person_row(PersonColumnsView::declared(), ceo)]),
            DbError::NotFound,
        ) == Ok::<PersonView, DbError>(ceo),
{
    let columns = PersonColumnsView::declared();
    let row = person_row(columns, ceo);
    lemma_column_tables_distinct();
    lemma_person_row_round_trip(columns, ceo);
    assert(seq![row][0] == row);
}

} // verus!
