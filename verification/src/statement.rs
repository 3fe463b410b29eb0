use vstd::prelude::*;
use crate::error::DbError;
use crate::models::{NewOrganization, NewOrganizationView, NewPerson, NewPersonView};
use crate::row::{Value, ValueView};

verus! {

/// Reads every person, lowest id first.
pub const SELECT_ALL_PERSONS: &'static str = "SELECT * FROM person ORDER BY ID ASC";

/// Reads every organization, lowest id first.
pub const SELECT_ALL_ORGANIZATIONS: &'static str = "SELECT * FROM organization ORDER BY ID ASC";

/// Reads the people with the lowest ids, as many as the one parameter says.
pub const SELECT_PERSONS_LIMIT: &'static str = "SELECT * FROM person ORDER BY ID ASC LIMIT $1";

/// Calls the stored routine that finds a person by id. The routine takes the
/// id and has four output parameters.
pub const CALL_GET_PERSON_BY_ID: &'static str = "CALL get_person_by_id($1, $2, $3, $4, $5)";

/// Reads the person whose id is the `ceo_id` of the organization with the
/// given id.
pub const SELECT_CEO_OF_ORGANISATION: &'static str =
    "SELECT * FROM person WHERE id = (SELECT ceo_id FROM organization WHERE id = $1)";

/// Calls the stored routine that stores a person. The routine takes the four
/// fields and has one output parameter, the new id.
pub const CALL_INSERT_PERSON: &'static str = "CALL insert_person($1, $2, $3, $4, $5)";

/// Stores an organization and reads back the row that was stored.
pub const INSERT_ORGANIZATION: &'static str =
    "INSERT INTO organization (name, address, phone, ceo_id) VALUES ($1, $2, $3, $4) RETURNING id, name, address, phone, ceo_id";

/// A statement ready to be run: its text, and the values bound to its
/// placeholders, the first value to `$1`, the second to `$2` and so on.
#[derive(Debug, PartialEq, Eq)]
pub struct Statement {
    pub sql: String,
    pub params: Vec<Value>,
}

/// What a [`Statement`] holds, as mathematical values.
pub ghost struct StatementView {
    pub sql: Seq<char>,
    pub params: Seq<ValueView>,
}

impl View for Statement {
    type V = StatementView;

    open spec fn view(&self) -> StatementView {
        StatementView { sql: self.sql@, params: self.params.deep_view() }
    }
}

impl DeepView for Statement {
    type V = StatementView;

    open spec fn deep_view(&self) -> StatementView {
        self@
    }
}

impl StatementView {
    /// The statement that lists all people.
    pub open spec fn all_persons() -> StatementView {
        StatementView { sql: SELECT_ALL_PERSONS@, params: Seq::empty() }
    }

    /// The statement that lists all organizations.
    pub open spec fn all_organizations() -> StatementView {
        StatementView { sql: SELECT_ALL_ORGANIZATIONS@, params: Seq::empty() }
    }

    /// The statement that lists the first `limit` people.
    pub open spec fn persons_limit(limit: i64) -> StatementView {
        StatementView { sql: SELECT_PERSONS_LIMIT@, params: seq![ValueView::Int8(Some(limit))] }
    }

    /// The statement that finds the person with the id `id`: the id, then
    /// one null of its type for each output parameter.
    pub open spec fn person_by_id(id: i32) -> StatementView {
        StatementView {
            sql: CALL_GET_PERSON_BY_ID@,
            params: seq![
                ValueView::Int4(Some(id)),
                ValueView::Text(None),
                ValueView::Text(None),
                ValueView::Bool(None),
                ValueView::Int2(None),
            ],
        }
    }

    /// The statement that finds the leader of the organization with the id
    /// `id`.
    pub open spec fn ceo_of_organisation(id: i32) -> StatementView {
        StatementView { sql: SELECT_CEO_OF_ORGANISATION@, params: seq![ValueView::Int4(Some(id))] }
    }

    /// The statement that stores `person`: its four fields, then a null for
    /// the id that comes out.
    pub open spec fn insert_person(person: NewPersonView) -> StatementView {
        StatementView {
            sql: CALL_INSERT_PERSON@,
            params: seq![
                ValueView::Text(Some(person.name)),
                ValueView::Text(Some(person.job)),
                ValueView::Bool(Some(person.is_adult)),
                ValueView::Int2(Some(person.favorite_number)),
                ValueView::Int4(None),
            ],
        }
    }

    /// The statement that stores `organization`: its four fields.
    pub open spec fn insert_organization(organization: NewOrganizationView) -> StatementView {
        StatementView {
            sql: INSERT_ORGANIZATION@,
            params: seq![
                ValueView::Text(Some(organization.name)),
                ValueView::Text(Some(organization.address)),
                ValueView::Text(Some(organization.phone)),
                ValueView::Int4(Some(organization.ceo_id)),
            ],
        }
    }
}

impl Statement {
    /// The statement that lists all people. It binds nothing.
    pub fn all_persons() -> (statement: Self)
        ensures
            statement@ == StatementView::all_persons(),
    {
        let statement = Statement { sql: SELECT_ALL_PERSONS.to_owned(), params: Vec::new() };
        proof {
            assert(statement.params.deep_view() =~= Seq::empty());
        }
        statement
    }

    /// The statement that lists all organizations. It binds nothing.
    pub fn all_organizations() -> (statement: Self)
        ensures
            statement@ == StatementView::all_organizations(),
    {
        let statement = Statement { sql: SELECT_ALL_ORGANIZATIONS.to_owned(), params: Vec::new() };
        proof {
            assert(statement.params.deep_view() =~= Seq::empty());
        }
        statement
    }

    /// The statement that lists the first `limit` people. A negative limit
    /// makes no statement: the store would refuse it.
    pub fn persons_limit(limit: i64) -> (built: Result<Self, DbError>)
        ensures
            limit < 0 ==> built == Err::<Self, DbError>(DbError::QueryError),
            limit >= 0 ==> built is Ok && built->Ok_0@ == StatementView::persons_limit(limit),
    {
        if limit < 0 {
            return Err(DbError::QueryError);
        }
        let statement = Statement {
            sql: SELECT_PERSONS_LIMIT.to_owned(),
            params: vec![Value::Int8(Some(limit))],
        };
        proof {
            assert(statement.params.deep_view() =~= StatementView::persons_limit(limit).params);
        }
        Ok(statement)
    }

    /// The statement that finds the person with the id `id`. The output
    /// parameters of the routine are bound to nulls of their types.
    pub fn person_by_id(id: i32) -> (statement: Self)
        ensures
            statement@ == StatementView::person_by_id(id),
    {
        let statement = Statement {
            sql: CALL_GET_PERSON_BY_ID.to_owned(),
            params: vec![
                Value::Int4(Some(id)),
                Value::Text(None),
                Value::Text(None),
                Value::Bool(None),
                Value::Int2(None),
            ],
        };
        proof {
            assert(statement.params.deep_view() =~= StatementView::person_by_id(id).params);
        }
        statement
    }

    /// The statement that finds the leader of the organization with the id
    /// `id`.
    pub fn ceo_of_organisation(id: i32) -> (statement: Self)
        ensures
            statement@ == StatementView::ceo_of_organisation(id),
    {
        let statement = Statement {
            sql: SELECT_CEO_OF_ORGANISATION.to_owned(),
            params: vec![Value::Int4(Some(id))],
        };
        proof {
            assert(statement.params.deep_view() =~= StatementView::ceo_of_organisation(id).params);
        }
        statement
    }

    /// The statement that stores `person`. The output parameter of the
    /// routine, the new id, is bound to a null.
    pub fn insert_person(person: &NewPerson) -> (statement: Self)
        ensures
            statement@ == StatementView::insert_person(person@),
    {
        let statement = Statement {
            sql: CALL_INSERT_PERSON.to_owned(),
            params: vec![
                Value::Text(Some(person.name.clone())),
                Value::Text(Some(person.job.clone())),
                Value::Bool(Some(person.is_adult)),
                Value::Int2(Some(person.favorite_number)),
                Value::Int4(None),
            ],
        };
        proof {
            assert(statement.params.deep_view() =~= StatementView::insert_person(person@).params);
        }
        statement
    }

    /// The statement that stores `organization`. Whether `ceo_id` is the id
    /// of a person is left to the store.
    pub fn insert_organization(organization: &NewOrganization) -> (statement: Self)
        ensures
            statement@ == StatementView::insert_organization(organization@),
    {
        let statement = Statement {
            sql: INSERT_ORGANIZATION.to_owned(),
            params: vec![
                Value::Text(Some(organization.name.clone())),
                Value::Text(Some(organization.address.clone())),
                Value::Text(Some(organization.phone.clone())),
                Value::Int4(Some(organization.ceo_id)),
            ],
        };
        proof {
            assert(statement.params.deep_view() =~= StatementView::insert_organization(
                organization@,
            ).params);
        }
        statement
    }
}

} // verus!
