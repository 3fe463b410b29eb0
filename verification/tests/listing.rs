use people_store::error::DbError;
use people_store::listing::{get_all_organizations, Listing, Step};
use people_store::models::{
    NewOrganization, NewPerson, Organization, OrganizationWithCeo, Person,
};
use people_store::row::{Column, Row, Value};
use people_store::statement::Statement;

fn text(s: &str) -> Value {
    Value::Text(Some(s.to_string()))
}

fn person(id: i32, name: &str) -> Person {
    Person {
        id,
        name: name.to_string(),
        job: "Boss".to_string(),
        is_adult: true,
        favorite_number: 7,
    }
}

fn person_row(p: &Person) -> Row {
    Row::new(vec![
        Column::new("id", Value::Int4(Some(p.id))),
        Column::new("name", text(&p.name)),
        Column::new("job", text(&p.job)),
        Column::new("is_adult", Value::Bool(Some(p.is_adult))),
        Column::new("favorite_number", Value::Int2(Some(p.favorite_number))),
    ])
}

fn organization(id: i32, name: &str, ceo_id: i32) -> Organization {
    Organization {
        id,
        name: name.to_string(),
        address: "somewhere".to_string(),
        phone: "555".to_string(),
        ceo_id,
    }
}

fn organization_row(o: &Organization) -> Row {
    Row::new(vec![
        Column::new("id", Value::Int4(Some(o.id))),
        Column::new("name", text(&o.name)),
        Column::new("address", text(&o.address)),
        Column::new("phone", text(&o.phone)),
        Column::new("ceo_id", Value::Int4(Some(o.ceo_id))),
    ])
}

fn joined(o: &Organization, ceo: Person) -> OrganizationWithCeo {
    OrganizationWithCeo {
        id: o.id,
        name: o.name.clone(),
        address: o.address.clone(),
        phone: o.phone.clone(),
        ceo,
    }
}

fn expect_run(step: Step) -> (Listing, Statement) {
    match step {
        Step::Run(listing, statement) => (listing, statement),
        Step::Done(list) => panic!("ended with {} organizations", list.len()),
        Step::Failed(e) => panic!("failed with {:?}", e),
    }
}

fn expect_done(step: Step) -> Vec<OrganizationWithCeo> {
    match step {
        Step::Done(list) => list,
        Step::Run(_, statement) => panic!("asked for {}", statement.sql),
        Step::Failed(e) => panic!("failed with {:?}", e),
    }
}

fn expect_failed(step: Step) -> DbError {
    match step {
        Step::Failed(e) => e,
        Step::Done(list) => panic!("ended with {} organizations", list.len()),
        Step::Run(_, statement) => panic!("asked for {}", statement.sql),
    }
}

#[test]
fn listing_starts_with_the_organizations() {
    let (_, statement) = Listing::start();
    assert_eq!(statement, Statement::all_organizations());
}

#[test]
fn listing_without_organizations_ends_at_once() {
    let (listing, _) = Listing::start();
    let list = expect_done(get_all_organizations(listing, Ok(vec![])));
    assert!(list.is_empty());
}

#[test]
fn listing_joins_each_organization_with_its_leader() {
    let orgs = vec![organization(1, "A", 20), organization(2, "B", 10), organization(4, "C", 20)];
    let (listing, _) = Listing::start();
    let rows = orgs.iter().map(organization_row).collect();

    let (listing, statement) = expect_run(get_all_organizations(listing, Ok(rows)));
    assert_eq!(statement, Statement::ceo_of_organisation(1));
    let (listing, statement) =
        expect_run(get_all_organizations(listing, Ok(vec![person_row(&person(20, "Zed"))])));
    assert_eq!(statement, Statement::ceo_of_organisation(2));
    let (listing, statement) =
        expect_run(get_all_organizations(listing, Ok(vec![person_row(&person(10, "Yan"))])));
    assert_eq!(statement, Statement::ceo_of_organisation(4));
    let list =
        expect_done(get_all_organizations(listing, Ok(vec![person_row(&person(20, "Zed"))])));

    assert_eq!(
        list,
        vec![
            joined(&orgs[0], person(20, "Zed")),
            joined(&orgs[1], person(10, "Yan")),
            joined(&orgs[2], person(20, "Zed")),
        ]
    );
}

#[test]
fn listing_shows_what_was_joined_last() {
    let orgs = vec![organization(1, "A", 20), organization(2, "B", 10)];
    let (listing, _) = Listing::start();
    assert_eq!(listing.latest(), None);
    let rows = orgs.iter().map(organization_row).collect();
    let (listing, _) = expect_run(get_all_organizations(listing, Ok(rows)));
    assert_eq!(listing.latest(), None);
    let (listing, _) =
        expect_run(get_all_organizations(listing, Ok(vec![person_row(&person(20, "Zed"))])));
    assert_eq!(listing.latest(), Some(&joined(&orgs[0], person(20, "Zed"))));
    let list =
        expect_done(get_all_organizations(listing, Ok(vec![person_row(&person(10, "Yan"))])));
    assert_eq!(list.last(), Some(&joined(&orgs[1], person(10, "Yan"))));
}

#[test]
fn listing_fails_when_the_organizations_cannot_be_read() {
    let (listing, _) = Listing::start();
    assert_eq!(
        expect_failed(get_all_organizations(listing, Err(DbError::QueryError))),
        DbError::QueryError
    );
    let (listing, _) = Listing::start();
    assert_eq!(
        expect_failed(get_all_organizations(listing, Err(DbError::PoolExhausted))),
        DbError::PoolExhausted
    );
    let (listing, _) = Listing::start();
    let bad = Row::new(vec![Column::new("id", Value::Int4(Some(1)))]);
    assert_eq!(
        expect_failed(get_all_organizations(listing, Ok(vec![bad]))),
        DbError::MappingError
    );
}

#[test]
fn listing_fails_whole_when_a_leader_is_not_found() {
    let orgs = vec![organization(1, "A", 20), organization(2, "B", 99)];
    let (listing, _) = Listing::start();
    let rows = orgs.iter().map(organization_row).collect();
    let (listing, _) = expect_run(get_all_organizations(listing, Ok(rows)));
    let (listing, statement) =
        expect_run(get_all_organizations(listing, Ok(vec![person_row(&person(20, "Zed"))])));
    assert_eq!(statement.params, vec![Value::Int4(Some(2))]);
    assert_eq!(expect_failed(get_all_organizations(listing, Ok(vec![]))), DbError::NotFound);
}

#[test]
fn listing_fails_whole_when_a_lookup_fails() {
    let orgs = vec![organization(1, "A", 20), organization(2, "B", 10)];
    let (listing, _) = Listing::start();
    let rows = orgs.iter().map(organization_row).collect();
    let (listing, _) = expect_run(get_all_organizations(listing, Ok(rows)));
    assert_eq!(
        expect_failed(get_all_organizations(listing, Err(DbError::QueryError))),
        DbError::QueryError
    );

    let (listing, _) = Listing::start();
    let rows = orgs.iter().map(organization_row).collect();
    let (listing, _) = expect_run(get_all_organizations(listing, Ok(rows)));
    let not_a_person = organization_row(&orgs[0]);
    assert_eq!(
        expect_failed(get_all_organizations(listing, Ok(vec![not_a_person]))),
        DbError::MappingError
    );
}

#[test]
fn organization_with_ceo_new_copies_the_organization() {
    let org = organization(3, "Acme", 20);
    let with = OrganizationWithCeo::new(&org, person(20, "Zed"));
    assert_eq!(with, joined(&org, person(20, "Zed")));
    assert_eq!(org.ceo_id, with.ceo.id);
}

#[test]
fn clones_hold_what_was_cloned() {
    let p = person(1, "Al");
    assert_eq!(p.clone(), p);
    let o = organization(1, "A", 1);
    assert_eq!(o.clone(), o);
    let w = joined(&o, p.clone());
    assert_eq!(w.clone(), w);
    let np = NewPerson {
        name: "Al".to_string(),
        job: "Actor".to_string(),
        is_adult: false,
        favorite_number: -4,
    };
    assert_eq!(np.clone(), np);
    let no = NewOrganization {
        name: "A".to_string(),
        address: "a".to_string(),
        phone: "1".to_string(),
        ceo_id: 3,
    };
    assert_eq!(no.clone(), no);
}
