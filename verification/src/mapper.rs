use vstd::prelude::*;
use crate::error::{deep, DbError};
use crate::models::{Organization, OrganizationView, Person, PersonView};
use crate::row::{
    bool_field, i16_field, i32_field, lemma_lookup_finds_first, text_field, ColumnView, Row,
    RowView, ValueView,
};

verus! {

/// The name of the column under which a result holds each field of a
/// person. The table is written out for every kind of result; none is
/// guessed from the row.
pub struct PersonColumns {
    pub id: &'static str,
    pub name: &'static str,
    pub job: &'static str,
    pub is_adult: &'static str,
    pub favorite_number: &'static str,
}

/// What a [`PersonColumns`] holds, as mathematical values.
pub ghost struct PersonColumnsView {
    pub id: Seq<char>,
    pub name: Seq<char>,
    pub job: Seq<char>,
    pub is_adult: Seq<char>,
    pub favorite_number: Seq<char>,
}

impl View for PersonColumns {
    type V = PersonColumnsView;

    open spec fn view(&self) -> PersonColumnsView {
        PersonColumnsView {
            id: self.id@,
            name: self.name@,
            job: self.job@,
            is_adult: self.is_adult@,
            favorite_number: self.favorite_number@,
        }
    }
}

impl PersonColumnsView {
    /// The columns of a read of the `person` table: each is named as its
    /// field.
    pub open spec fn declared() -> PersonColumnsView {
        PersonColumnsView {
            id: "id"@,
            name: "name"@,
            job: "job"@,
            is_adult: "is_adult"@,
            favorite_number: "favorite_number"@,
        }
    }

    /// The columns that the stored routines on people give back.
    pub open spec fn aliased() -> PersonColumnsView {
        PersonColumnsView {
            id: "p_id"@,
            name: "p_name"@,
            job: "p_job"@,
            is_adult: "p_is_adult"@,
            favorite_number: "p_favorite_number"@,
        }
    }
}

impl PersonColumnsView {
    /// No two fields are read under one name.
    pub open spec fn distinct(self) -> bool {
        &&& self.id != self.name
        &&& self.id != self.job
        &&& self.id != self.is_adult
        &&& self.id != self.favorite_number
        &&& self.name != self.job
        &&& self.name != self.is_adult
        &&& self.name != self.favorite_number
        &&& self.job != self.is_adult
        &&& self.job != self.favorite_number
        &&& self.is_adult != self.favorite_number
    }
}

/// Both column tables of this library name each field apart from the
/// others.
pub proof fn lemma_column_tables_distinct()
    ensures
        PersonColumnsView::declared().distinct(),
        PersonColumnsView::aliased().distinct(),
{
    reveal_strlit("id");
    reveal_strlit("name");
    reveal_strlit("job");
    reveal_strlit("is_adult");
    reveal_strlit("favorite_number");
    reveal_strlit("p_id");
    reveal_strlit("p_name");
    reveal_strlit("p_job");
    reveal_strlit("p_is_adult");
    reveal_strlit("p_favorite_number");
    assert("id"@.len() == 2 && "name"@.len() == 4 && "job"@.len() == 3);
    assert("is_adult"@.len() == 8 && "favorite_number"@.len() == 15);
    assert("p_id"@.len() == 4 && "p_name"@.len() == 6 && "p_job"@.len() == 5);
    assert("p_is_adult"@.len() == 10 && "p_favorite_number"@.len() == 17);
}

impl PersonColumns {
    /// The columns of a read of the `person` table.
    pub fn declared() -> (columns: Self)
        ensures
            columns@ == PersonColumnsView::declared(),
    {
        PersonColumns {
            id: "id",
            name: "name",
            job: "job",
            is_adult: "is_adult",
            favorite_number: "favorite_number",
        }
    }

    /// The columns that the stored routines on people give back.
    pub fn aliased() -> (columns: Self)
        ensures
            columns@ == PersonColumnsView::aliased(),
    {
        PersonColumns {
            id: "p_id",
            name: "p_name",
            job: "p_job",
            is_adult: "p_is_adult",
            favorite_number: "p_favorite_number",
        }
    }
}

/// The person that `row` holds under the columns `columns`: every field is
/// there and of its type, or the row maps to nothing.
pub open spec fn person_of(columns: PersonColumnsView, row: Seq<ColumnView>) -> Result<
    PersonView,
    DbError,
> {
    let id = i32_field(row, columns.id);
    let name = text_field(row, columns.name);
    let job = text_field(row, columns.job);
    let is_adult = bool_field(row, columns.is_adult);
    let favorite_number = i16_field(row, columns.favorite_number);
    if id is Ok && name is Ok && job is Ok && is_adult is Ok && favorite_number is Ok {
        Ok(
            PersonView {
                id: id->Ok_0,
                name: name->Ok_0,
                job: job->Ok_0,
                is_adult: is_adult->Ok_0,
                favorite_number: favorite_number->Ok_0,
            },
        )
    } else {
        Err(DbError::MappingError)
    }
}

/// The row in which a store sends `person` under the columns `columns`.
pub open spec fn person_row(columns: PersonColumnsView, person: PersonView) -> RowView {
    seq![
        ColumnView { name: columns.id, value: ValueView::Int4(Some(person.id)) },
        ColumnView { name: columns.name, value: ValueView::Text(Some(person.name)) },
        ColumnView { name: columns.job, value: ValueView::Text(Some(person.job)) },
        ColumnView { name: columns.is_adult, value: ValueView::Bool(Some(person.is_adult)) },
        ColumnView {
            name: columns.favorite_number,
            value: ValueView::Int2(Some(person.favorite_number)),
        },
    ]
}

/// Mapping undoes sending: the row in which a person is sent maps to that
/// person, field for field.
pub proof fn lemma_person_row_round_trip(columns: PersonColumnsView, person: PersonView)
    requires
        columns.distinct(),
    ensures
        person_of(columns, person_row(columns, person)) == Ok::<PersonView, DbError>(person),
{
    let row = person_row(columns, person);
    lemma_lookup_finds_first(row, columns.id, 0);
    lemma_lookup_finds_first(row, columns.name, 1);
    lemma_lookup_finds_first(row, columns.job, 2);
    lemma_lookup_finds_first(row, columns.is_adult, 3);
    lemma_lookup_finds_first(row, columns.favorite_number, 4);
}

/// The two ways of naming the columns give the same person: whether a
/// store sends a person under the names of the fields or under the names
/// that the stored routines use, the row read under its own table maps to
/// that person.
pub proof fn lemma_addressing_modes_agree(person: PersonView)
    ensures
        person_of(PersonColumnsView::declared(), person_row(PersonColumnsView::declared(), person))
            == Ok::<PersonView, DbError>(person),
        person_of(PersonColumnsView::aliased(), person_row(PersonColumnsView::aliased(), person))
            == Ok::<PersonView, DbError>(person),
{
    lemma_column_tables_distinct();
    lemma_person_row_round_trip(PersonColumnsView::declared(), person);
    lemma_person_row_round_trip(PersonColumnsView::aliased(), person);
}

impl Person {
    /// Maps one row to one person, reading each field under the column that
    /// `columns` names for it. The row may hold more columns; they are not
    /// read. No field is ever filled with a default.
    pub fn from_row(row: &Row, columns: &PersonColumns) -> (mapped: Result<Person, DbError>)
        ensures
            deep(mapped) == person_of(columns@, row@),
    {
        let id = row.try_get_i32(columns.id)?;
        let name = row.try_get_text(columns.name)?;
        let job = row.try_get_text(columns.job)?;
        let is_adult = row.try_get_bool(columns.is_adult)?;
        let favorite_number = row.try_get_i16(columns.favorite_number)?;
        Ok(Person { id, name, job, is_adult, favorite_number })
    }

    /// Maps a row of the `person` table.
    pub fn from_row_ref(row: &Row) -> (mapped: Result<Person, DbError>)
        ensures
            deep(mapped) == person_of(PersonColumnsView::declared(), row@),
    {
        Person::from_row(row, &PersonColumns::declared())
    }

    /// Maps a row that a stored routine on people gave back.
    pub fn from_aliased_row(row: &Row) -> (mapped: Result<Person, DbError>)
        ensures
            deep(mapped) == person_of(PersonColumnsView::aliased(), row@),
    {
        Person::from_row(row, &PersonColumns::aliased())
    }
}

/// The organization that a row of the `organization` table holds: every
/// field is there and of its type, or the row maps to nothing.
pub open spec fn organization_of(row: Seq<ColumnView>) -> Result<OrganizationView, DbError> {
    let id = i32_field(row, "id"@);
    let name = text_field(row, "name"@);
    let address = text_field(row, "address"@);
    let phone = text_field(row, "phone"@);
    let ceo_id = i32_field(row, "ceo_id"@);
    if id is Ok && name is Ok && address is Ok && phone is Ok && ceo_id is Ok {
        Ok(
            OrganizationView {
                id: id->Ok_0,
                name: name->Ok_0,
                address: address->Ok_0,
                phone: phone->Ok_0,
                ceo_id: ceo_id->Ok_0,
            },
        )
    } else {
        Err(DbError::MappingError)
    }
}

/// The row in which a store sends `organization`.
pub open spec fn organization_row(organization: OrganizationView) -> RowView {
    seq![
        ColumnView { name: "id"@, value: ValueView::Int4(Some(organization.id)) },
        ColumnView { name: "name"@, value: ValueView::Text(Some(organization.name)) },
        ColumnView { name: "address"@, value: ValueView::Text(Some(organization.address)) },
        ColumnView { name: "phone"@, value: ValueView::Text(Some(organization.phone)) },
        ColumnView { name: "ceo_id"@, value: ValueView::Int4(Some(organization.ceo_id)) },
    ]
}

/// Mapping undoes sending: the row in which an organization is sent maps to
/// that organization, field for field.
pub proof fn lemma_organization_row_round_trip(organization: OrganizationView)
    ensures
        organization_of(organization_row(organization)) == Ok::<OrganizationView, DbError>(
            organization,
        ),
{
    reveal_strlit("id");
    reveal_strlit("name");
    reveal_strlit("address");
    reveal_strlit("phone");
    reveal_strlit("ceo_id");
    assert("id"@.len() == 2 && "name"@.len() == 4 && "address"@.len() == 7);
    assert("phone"@.len() == 5 && "ceo_id"@.len() == 6);
    let row = organization_row(organization);
    lemma_lookup_finds_first(row, "id"@, 0);
    lemma_lookup_finds_first(row, "name"@, 1);
    lemma_lookup_finds_first(row, "address"@, 2);
    lemma_lookup_finds_first(row, "phone"@, 3);
    lemma_lookup_finds_first(row, "ceo_id"@, 4);
}

impl Organization {
    /// Maps a row of the `organization` table: each column is named as its
    /// field.
    pub fn from_row_ref(row: &Row) -> (mapped: Result<Organization, DbError>)
        ensures
            deep(mapped) == organization_of(row@),
    {
        let id = row.try_get_i32("id")?;
        let name = row.try_get_text("name")?;
        let address = row.try_get_text("address")?;
        let phone = row.try_get_text("phone")?;
        let ceo_id = row.try_get_i32("ceo_id")?;
        Ok(Organization { id, name, address, phone, ceo_id })
    }
}

/// The people that `rows` hold, row by row and in the order of the rows.
/// One row that maps to no person leaves nothing of the others.
pub open spec fn people_of(columns: PersonColumnsView, rows: Seq<RowView>) -> Result<
    Seq<PersonView>,
    DbError,
> {
    if forall|i: int| 0 <= i < rows.len() ==> (#[trigger] person_of(columns, rows[i])) is Ok {
        Ok(Seq::new(rows.len(), |i: int| person_of(columns, rows[i])->Ok_0))
    } else {
        Err(DbError::MappingError)
    }
}

/// The organizations that `rows` hold, row by row and in the order of the
/// rows. One row that maps to no organization leaves nothing of the others.
pub open spec fn organizations_of(rows: Seq<RowView>) -> Result<Seq<OrganizationView>, DbError> {
    if forall|i: int| 0 <= i < rows.len() ==> (#[trigger] organization_of(rows[i])) is Ok {
        Ok(Seq::new(rows.len(), |i: int| organization_of(rows[i])->Ok_0))
    } else {
        Err(DbError::MappingError)
    }
}

/// Maps every row to a person, in order. The first row that cannot be
/// mapped ends the work with its error.
pub fn people_from_rows(rows: &Vec<Row>, columns: &PersonColumns) -> (mapped: Result<
    Vec<Person>,
    DbError,
>)
    ensures
        deep(mapped) == people_of(columns@, rows.deep_view()),
{
    let mut people: Vec<Person> = Vec::new();
    let mut i: usize = 0;
    while i < rows.len()
        invariant
            i <= rows.len(),
            people.len() == i,
            forall|j: int|
                0 <= j < i ==> (#[trigger] person_of(columns@, rows.deep_view()[j])) == Ok::<
                    PersonView,
                    DbError,
                >(people[j]@),
        decreases rows.len() - i,
    {
        assert(rows.deep_view()[i as int] == rows[i as int]@);
        match Person::from_row(&rows[i], columns) {
            Ok(person) => {
                people.push(person);
            },
            Err(e) => {
                return Err(e);
            },
        }
        i += 1;
    }
    proof {
        assert(people.deep_view() =~= people_of(columns@, rows.deep_view())->Ok_0);
    }
    Ok(people)
}

/// Maps every row to an organization, in order. The first row that cannot
/// be mapped ends the work with its error.
pub fn organizations_from_rows(rows: &Vec<Row>) -> (mapped: Result<Vec<Organization>, DbError>)
    ensures
        deep(mapped) == organizations_of(rows.deep_view()),
{
    let mut organizations: Vec<Organization> = Vec::new();
    let mut i: usize = 0;
    while i < rows.len()
        invariant
            i <= rows.len(),
            organizations.len() == i,
            forall|j: int|
                0 <= j < i ==> (#[trigger] organization_of(rows.deep_view()[j])) == Ok::<
                    OrganizationView,
                    DbError,
                >(organizations[j]@),
        decreases rows.len() - i,
    {
        assert(rows.deep_view()[i as int] == rows[i as int]@);
        match Organization::from_row_ref(&rows[i]) {
            Ok(organization) => {
                organizations.push(organization);
            },
            Err(e) => {
                return Err(e);
            },
        }
        i += 1;
    }
    proof {
        assert(organizations.deep_view() =~= organizations_of(rows.deep_view())->Ok_0);
    }
    Ok(organizations)
}

} // verus!
