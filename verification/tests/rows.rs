use people_store::error::DbError;
use people_store::mapper::{
    organizations_from_rows, people_from_rows, PersonColumns,
};
use people_store::models::{Organization, Person};
use people_store::row::{str_eq, Column, Row, Value};

fn text(s: &str) -> Value {
    Value::Text(Some(s.to_string()))
}

fn person_row(id: i32, name: &str, job: &str, is_adult: bool, favorite_number: i16) -> Row {
    Row::new(vec![
        Column::new("id", Value::Int4(Some(id))),
        Column::new("name", text(name)),
        Column::new("job", text(job)),
        Column::new("is_adult", Value::Bool(Some(is_adult))),
        Column::new("favorite_number", Value::Int2(Some(favorite_number))),
    ])
}

fn aliased_row(id: i32, name: &str, job: &str, is_adult: bool, favorite_number: i16) -> Row {
    Row::new(vec![
        Column::new("p_id", Value::Int4(Some(id))),
        Column::new("p_name", text(name)),
        Column::new("p_job", text(job)),
        Column::new("p_is_adult", Value::Bool(Some(is_adult))),
        Column::new("p_favorite_number", Value::Int2(Some(favorite_number))),
    ])
}

fn john(id: i32) -> Person {
    Person {
        id,
        name: "John".to_string(),
        job: "Programmer".to_string(),
        is_adult: true,
        favorite_number: 27,
    }
}

#[test]
fn str_eq_compares_characters() {
    assert!(str_eq("", ""));
    assert!(str_eq("p_id", "p_id"));
    assert!(!str_eq("p_id", "p_iD"));
    assert!(!str_eq("id", "id "));
    assert!(!str_eq("id", ""));
    assert!(str_eq("na\u{ef}ve", "na\u{ef}ve"));
    assert!(!str_eq("na\u{ef}ve", "naive"));
}

#[test]
fn value_reads_only_its_own_type() {
    assert_eq!(Value::Bool(Some(true)).as_bool(), Ok(true));
    assert_eq!(Value::Bool(None).as_bool(), Err(DbError::MappingError));
    assert_eq!(Value::Int2(Some(1)).as_bool(), Err(DbError::MappingError));
    assert_eq!(Value::Int2(Some(-5)).as_i16(), Ok(-5));
    assert_eq!(Value::Int4(Some(5)).as_i16(), Err(DbError::MappingError));
    assert_eq!(Value::Int2(None).as_i16(), Err(DbError::MappingError));
    assert_eq!(Value::Int4(Some(7)).as_i32(), Ok(7));
    assert_eq!(Value::Int2(Some(7)).as_i32(), Err(DbError::MappingError));
    assert_eq!(Value::Int8(Some(7)).as_i32(), Err(DbError::MappingError));
    assert_eq!(Value::Int4(None).as_i32(), Err(DbError::MappingError));
    assert_eq!(text("abc").as_text(), Ok("abc".to_string()));
    assert_eq!(Value::Text(None).as_text(), Err(DbError::MappingError));
    assert_eq!(Value::Other.as_text(), Err(DbError::MappingError));
    assert_eq!(Value::Other.as_i32(), Err(DbError::MappingError));
}

#[test]
fn value_clone_keeps_the_value() {
    assert_eq!(text("abc").clone(), text("abc"));
    assert_eq!(Value::Int8(Some(9)).clone(), Value::Int8(Some(9)));
    assert_eq!(Value::Text(None).clone(), Value::Text(None));
    assert_eq!(Value::Other.clone(), Value::Other);
}

#[test]
fn row_get_finds_the_first_column_of_that_name() {
    let row = Row::new(vec![
        Column::new("a", Value::Int4(Some(1))),
        Column::new("b", Value::Int4(Some(2))),
        Column::new("a", Value::Int4(Some(3))),
    ]);
    assert_eq!(row.len(), 3);
    assert_eq!(row.get("a"), Some(&Value::Int4(Some(1))));
    assert_eq!(row.get("b"), Some(&Value::Int4(Some(2))));
    assert_eq!(row.get("c"), None);
    assert_eq!(row.get("A"), None);
    assert_eq!(row.field("b"), Ok(&Value::Int4(Some(2))));
    assert_eq!(row.field("c"), Err(DbError::MappingError));
}

#[test]
fn row_get_on_an_empty_row() {
    let row = Row::new(vec![]);
    assert_eq!(row.len(), 0);
    assert_eq!(row.get("id"), None);
    assert_eq!(row.try_get_i32("id"), Err(DbError::MappingError));
}

#[test]
fn row_typed_reads() {
    let row = person_row(4, "Ann", "Pilot", false, -3);
    assert_eq!(row.try_get_i32("id"), Ok(4));
    assert_eq!(row.try_get_text("name"), Ok("Ann".to_string()));
    assert_eq!(row.try_get_bool("is_adult"), Ok(false));
    assert_eq!(row.try_get_i16("favorite_number"), Ok(-3));
    assert_eq!(row.try_get_i16("id"), Err(DbError::MappingError));
    assert_eq!(row.try_get_text("id"), Err(DbError::MappingError));
    assert_eq!(row.try_get_bool("missing"), Err(DbError::MappingError));
    assert_eq!(row.try_get_i32("name"), Err(DbError::MappingError));
}

#[test]
fn person_from_declared_columns() {
    let row = person_row(1, "John", "Programmer", true, 27);
    assert_eq!(Person::from_row_ref(&row), Ok(john(1)));
    assert_eq!(Person::from_row(&row, &PersonColumns::declared()), Ok(john(1)));
}

#[test]
fn person_from_aliased_columns() {
    let row = aliased_row(9, "John", "Programmer", true, 27);
    assert_eq!(Person::from_aliased_row(&row), Ok(john(9)));
    assert_eq!(Person::from_row(&row, &PersonColumns::aliased()), Ok(john(9)));
}

#[test]
fn the_two_column_tables_do_not_stand_in_for_each_other() {
    let declared = person_row(1, "John", "Programmer", true, 27);
    let aliased = aliased_row(1, "John", "Programmer", true, 27);
    assert_eq!(Person::from_aliased_row(&declared), Err(DbError::MappingError));
    assert_eq!(Person::from_row_ref(&aliased), Err(DbError::MappingError));
}

#[test]
fn column_tables_are_written_out() {
    let d = PersonColumns::declared();
    assert_eq!(
        (d.id, d.name, d.job, d.is_adult, d.favorite_number),
        ("id", "name", "job", "is_adult", "favorite_number")
    );
    let a = PersonColumns::aliased();
    assert_eq!(
        (a.id, a.name, a.job, a.is_adult, a.favorite_number),
        ("p_id", "p_name", "p_job", "p_is_adult", "p_favorite_number")
    );
}

#[test]
fn person_mapping_ignores_other_columns_and_their_order() {
    let row = Row::new(vec![
        Column::new("created", Value::Other),
        Column::new("favorite_number", Value::Int2(Some(27))),
        Column::new("job", text("Programmer")),
        Column::new("id", Value::Int4(Some(3))),
        Column::new("is_adult", Value::Bool(Some(true))),
        Column::new("name", text("John")),
    ]);
    assert_eq!(Person::from_row_ref(&row), Ok(john(3)));
}

#[test]
fn person_mapping_fails_on_a_missing_column() {
    let row = Row::new(vec![
        Column::new("id", Value::Int4(Some(1))),
        Column::new("name", text("John")),
        Column::new("job", text("Programmer")),
        Column::new("is_adult", Value::Bool(Some(true))),
    ]);
    assert_eq!(Person::from_row_ref(&row), Err(DbError::MappingError));
}

#[test]
fn person_mapping_fails_on_a_value_of_another_type() {
    let row = Row::new(vec![
        Column::new("id", Value::Int4(Some(1))),
        Column::new("name", text("John")),
        Column::new("job", text("Programmer")),
        Column::new("is_adult", Value::Int2(Some(1))),
        Column::new("favorite_number", Value::Int2(Some(27))),
    ]);
    assert_eq!(Person::from_row_ref(&row), Err(DbError::MappingError));
    let wide_id = Row::new(vec![
        Column::new("id", Value::Int8(Some(1))),
        Column::new("name", text("John")),
        Column::new("job", text("Programmer")),
        Column::new("is_adult", Value::Bool(Some(true))),
        Column::new("favorite_number", Value::Int2(Some(27))),
    ]);
    assert_eq!(Person::from_row_ref(&wide_id), Err(DbError::MappingError));
}

#[test]
fn person_mapping_fails_on_a_null_and_fills_no_default() {
    let row = Row::new(vec![
        Column::new("id", Value::Int4(Some(1))),
        Column::new("name", Value::Text(None)),
        Column::new("job", text("Programmer")),
        Column::new("is_adult", Value::Bool(Some(true))),
        Column::new("favorite_number", Value::Int2(Some(27))),
    ]);
    assert_eq!(Person::from_row_ref(&row), Err(DbError::MappingError));
}

#[test]
fn person_mapping_reads_the_first_of_two_columns_of_one_name() {
    let row = Row::new(vec![
        Column::new("id", Value::Int4(Some(1))),
        Column::new("id", Value::Int4(Some(2))),
        Column::new("name", text("John")),
        Column::new("job", text("Programmer")),
        Column::new("is_adult", Value::Bool(Some(true))),
        Column::new("favorite_number", Value::Int2(Some(27))),
    ]);
    assert_eq!(Person::from_row_ref(&row), Ok(john(1)));
}

#[test]
fn organization_from_row() {
    let row = Row::new(vec![
        Column::new("id", Value::Int4(Some(5))),
        Column::new("name", text("Acme")),
        Column::new("address", text("1 Main St")),
        Column::new("phone", text("555-0100")),
        Column::new("ceo_id", Value::Int4(Some(1))),
    ]);
    assert_eq!(
        Organization::from_row_ref(&row),
        Ok(Organization {
            id: 5,
            name: "Acme".to_string(),
            address: "1 Main St".to_string(),
            phone: "555-0100".to_string(),
            ceo_id: 1,
        })
    );
}

#[test]
fn organization_mapping_fails_on_a_missing_or_mistyped_column() {
    let missing = Row::new(vec![
        Column::new("id", Value::Int4(Some(5))),
        Column::new("name", text("Acme")),
        Column::new("address", text("1 Main St")),
        Column::new("phone", text("555-0100")),
    ]);
    assert_eq!(Organization::from_row_ref(&missing), Err(DbError::MappingError));
    let mistyped = Row::new(vec![
        Column::new("id", Value::Int4(Some(5))),
        Column::new("name", text("Acme")),
        Column::new("address", text("1 Main St")),
        Column::new("phone", Value::Int4(Some(5550100))),
        Column::new("ceo_id", Value::Int4(Some(1))),
    ]);
    assert_eq!(Organization::from_row_ref(&mistyped), Err(DbError::MappingError));
}

#[test]
fn people_from_rows_keeps_the_order_of_the_rows() {
    let rows = vec![
        person_row(3, "Cy", "Cook", true, 3),
        person_row(1, "Al", "Actor", false, 1),
        person_row(2, "Bo", "Baker", true, 2),
    ];
    let people = people_from_rows(&rows, &PersonColumns::declared()).unwrap();
    let ids: Vec<i32> = people.iter().map(|p| p.id).collect();
    assert_eq!(ids, vec![3, 1, 2]);
    assert_eq!(people[1].name, "Al");
}

#[test]
fn people_from_rows_is_all_or_nothing() {
    let rows = vec![
        person_row(1, "Al", "Actor", false, 1),
        Row::new(vec![Column::new("id", Value::Int4(Some(2)))]),
        person_row(3, "Cy", "Cook", true, 3),
    ];
    assert_eq!(
        people_from_rows(&rows, &PersonColumns::declared()),
        Err(DbError::MappingError)
    );
}

#[test]
fn organizations_from_rows_maps_each_row() {
    let rows = vec![
        Row::new(vec![
            Column::new("id", Value::Int4(Some(1))),
            Column::new("name", text("A")),
            Column::new("address", text("a")),
            Column::new("phone", text("1")),
            Column::new("ceo_id", Value::Int4(Some(10))),
        ]),
        Row::new(vec![
            Column::new("id", Value::Int4(Some(2))),
            Column::new("name", text("B")),
            Column::new("address", text("b")),
            Column::new("phone", text("2")),
            Column::new("ceo_id", Value::Int4(Some(20))),
        ]),
    ];
    let organizations = organizations_from_rows(&rows).unwrap();
    assert_eq!(organizations.len(), 2);
    assert_eq!(organizations[0].ceo_id, 10);
    assert_eq!(organizations[1].name, "B");
    assert_eq!(organizations_from_rows(&vec![]), Ok(vec![]));
}
