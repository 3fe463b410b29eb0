use vstd::prelude::*;
use crate::models::{NewPersonView, Person, PersonView};

verus! {

/// A number of records at which the two layouts differ measurably.
pub const RECORDS: i32 = 100_000_000;

/// How many records a number asks for: that many, and none where it is
/// negative. The number is an `i32` because the people that are built carry
/// their place as their id.
pub open spec fn count(n: i32) -> nat {
    if n > 0 {
        n as nat
    } else {
        0
    }
}

/// The fields of the person that fills both layouts.
pub open spec fn sample() -> NewPersonView {
    NewPersonView { name: "John"@, job: "Programmer"@, is_adult: true, favorite_number: 27 }
}

/// A record after the pass: its favorite number is one more, and nothing
/// else has changed.
pub open spec fn bumped(record: NewPersonView) -> NewPersonView {
    NewPersonView { favorite_number: (record.favorite_number + 1) as i16, ..record }
}

/// Whether the pass can add one to every favorite number: none is the
/// largest `i16` already.
pub open spec fn can_increment(records: Seq<NewPersonView>) -> bool {
    forall|i: int| 0 <= i < records.len() ==> (#[trigger] records[i]).favorite_number < i16::MAX
}

/// The records after the pass.
pub open spec fn incremented(records: Seq<NewPersonView>) -> Seq<NewPersonView> {
    Seq::new(records.len(), |i: int| bumped(records[i]))
}

/// The records that a sequence of people holds: each person without its id.
pub open spec fn records_of(people: Seq<PersonView>) -> Seq<NewPersonView> {
    Seq::new(people.len(), |i: int| people[i].without_id())
}

/// The people after the pass: each keeps its id.
pub open spec fn incremented_people(people: Seq<PersonView>) -> Seq<PersonView> {
    Seq::new(people.len(), |i: int| bumped(people[i].without_id()).with_id(people[i].id))
}

/// The people that are built for the number `n`: as many as [`count`] says,
/// with the ids `0`, `1`, ... and the fields of [`sample`].
pub open spec fn built_people(n: i32) -> Seq<PersonView> {
    Seq::new(count(n), |i: int| sample().with_id(i as i32))
}

/// The records that are built for the number `n`: as many as [`count`]
/// says, each with the fields of [`sample`].
pub open spec fn built_records(n: i32) -> Seq<NewPersonView> {
    Seq::new(count(n), |i: int| sample())
}

/// Builds the layout with one record per slot: `n` people with the ids `0`,
/// `1`, ... and the fields of [`sample`]; nobody where `n` is negative.
pub fn build_people(n: i32) -> (people: Vec<Person>)
    ensures
        people.deep_view() == built_people(n),
        people.len() == count(n),
{
    let mut people: Vec<Person> = Vec::new();
    let mut i: i32 = 0;
    while i < n
        invariant
            0 <= i,
            i <= count(n),
            people.len() == i,
            forall|j: int| 0 <= j < i ==> (#[trigger] people[j])@ == sample().with_id(j as i32),
        decreases n - i,
    {
        people.push(
            Person {
                id: i,
                name: "John".to_string(),
                job: "Programmer".to_string(),
                is_adult: true,
                favorite_number: 27,
            },
        );
        i += 1;
    }
    proof {
        assert(people.deep_view() =~= built_people(n));
    }
    people
}

/// The pass over the layout with one record per slot: adds one to the
/// favorite number of every person.
pub fn increment_people(people: &mut Vec<Person>)
    requires
        can_increment(records_of(old(people).deep_view())),
    ensures
        final(people).deep_view() == incremented_people(old(people).deep_view()),
{
    let mut i: usize = 0;
    while i < people.len()
        invariant
            i <= people.len(),
            people.len() == old(people).len(),
            can_increment(records_of(old(people).deep_view())),
            forall|j: int|
                0 <= j < i ==> (#[trigger] people[j])@ == incremented_people(
                    old(people).deep_view(),
                )[j],
            forall|j: int| i <= j < people.len() ==> (#[trigger] people[j]) == old(people)[j],
        decreases people.len() - i,
    {
        assert(records_of(old(people).deep_view())[i as int].favorite_number < i16::MAX);
        people[i].favorite_number += 1;
        i += 1;
    }
}

/// People laid out with one sequence per field. The record at index `i` is
/// made of what the four sequences hold at `i`; a record has no id.
#[derive(Debug, PartialEq, Eq)]
pub struct PersonDOD {
    pub names: Vec<String>,
    pub jobs: Vec<String>,
    pub is_adults: Vec<bool>,
    pub favorite_numbers: Vec<i16>,
}

impl View for PersonDOD {
    type V = Seq<NewPersonView>;

    /// The records, meaningful where the layout is well formed.
    open spec fn view(&self) -> Seq<NewPersonView> {
        Seq::new(
            self.names.len() as nat,
            |i: int|
                NewPersonView {
                    name: self.names[i]@,
                    job: self.jobs[i]@,
                    is_adult: self.is_adults[i],
                    favorite_number: self.favorite_numbers[i],
                },
        )
    }
}

impl PersonDOD {
    /// The four sequences have one length.
    pub open spec fn wf(&self) -> bool {
        &&& self.jobs.len() == self.names.len()
        &&& self.is_adults.len() == self.names.len()
        &&& self.favorite_numbers.len() == self.names.len()
    }

    /// The number of records.
    pub fn len(&self) -> (n: usize)
        ensures
            n == self@.len(),
    {
        self.names.len()
    }

    /// Builds the layout with one sequence per field: `n` records with the
    /// fields of [`sample`]; none where `n` is negative.
    pub fn build(n: i32) -> (layout: Self)
        ensures
            layout.wf(),
            layout@ == built_records(n),
            layout@ == records_of(built_people(n)),
    {
        let mut names: Vec<String> = Vec::new();
        let mut jobs: Vec<String> = Vec::new();
        let mut is_adults: Vec<bool> = Vec::new();
        let mut favorite_numbers: Vec<i16> = Vec::new();
        let mut i: i32 = 0;
        while i < n
            invariant
                0 <= i,
                i <= count(n),
                names.len() == i,
                jobs.len() == i,
                is_adults.len() == i,
                favorite_numbers.len() == i,
                forall|j: int| 0 <= j < i ==> (#[trigger] names[j])@ == sample().name,
                forall|j: int| 0 <= j < i ==> (#[trigger] jobs[j])@ == sample().job,
                forall|j: int| 0 <= j < i ==> #[trigger] is_adults[j] == sample().is_adult,
                forall|j: int|
                    0 <= j < i ==> #[trigger] favorite_numbers[j] == sample().favorite_number,
            decreases n - i,
        {
            names.push("John".to_string());
            jobs.push("Programmer".to_string());
            is_adults.push(true);
            favorite_numbers.push(27);
            i += 1;
        }
        let layout = PersonDOD { names, jobs, is_adults, favorite_numbers };
        proof {
            assert(layout@ =~= built_records(n));
            assert(built_records(n) =~= records_of(built_people(n)));
        }
        layout
    }

    /// The pass over the layout with one sequence per field: adds one to
    /// every favorite number. Only that one sequence is walked.
    pub fn increment(&mut self)
        requires
            old(self).wf(),
            can_increment(old(self)@),
        ensures
            final(self).wf(),
            final(self)@ == incremented(old(self)@),
            final(self).names == old(self).names,
            final(self).jobs == old(self).jobs,
            final(self).is_adults == old(self).is_adults,
    {
        let mut i: usize = 0;
        while i < self.favorite_numbers.len()
            invariant
                i <= self.favorite_numbers.len(),
                self.wf(),
                self.names == old(self).names,
                self.jobs == old(self).jobs,
                self.is_adults == old(self).is_adults,
                can_increment(old(self)@),
                forall|j: int|
                    0 <= j < i ==> #[trigger] self.favorite_numbers[j] == old(
                        self,
                    ).favorite_numbers[j] + 1,
                forall|j: int|
                    i <= j < self.favorite_numbers.len() ==> #[trigger] self.favorite_numbers[j]
                        == old(self).favorite_numbers[j],
            decreases self.favorite_numbers.len() - i,
        {
            assert(old(self)@[i as int].favorite_number < i16::MAX);
            self.favorite_numbers[i] += 1;
            i += 1;
        }
    }
}

/// The work that is measured on the layout with one record per slot:
/// builds `n` people and adds one to the favorite number of each. Every
/// number is taken: a negative one builds nobody. Each person ends with its
/// place as its id and with a favorite number one above that of [`sample`].
pub fn oop_person_benchmark(n: i32) -> (people: Vec<Person>)
    ensures
        people.deep_view() == incremented_people(built_people(n)),
        people.len() == count(n),
        forall|i: int|
            0 <= i < people.len() ==> (#[trigger] people[i]).favorite_number
                == sample().favorite_number + 1,
        forall|i: int| 0 <= i < people.len() ==> (#[trigger] people[i]).id == i,
{
    let mut people = build_people(n);
    increment_people(&mut people);
    proof {
        assert(people.deep_view().len() == people.len());
        assert forall|i: int| 0 <= i < people.len() implies (#[trigger] people[i]).favorite_number
            == sample().favorite_number + 1 && people[i].id == i by {
            assert(people.deep_view()[i] == people[i]@);
        }
    }
    people
}

/// The work that is measured on the layout with one sequence per field:
/// builds `n` records and adds one to the favorite number of each. Every
/// number is taken: a negative one builds nothing. The layout ends with the
/// records with which [`oop_person_benchmark`] ends for the same `n`, each
/// with a favorite number one above that of [`sample`].
pub fn dod_person_benchmark(n: i32) -> (layout: PersonDOD)
    ensures
        layout.wf(),
        layout@ == incremented(built_records(n)),
        layout@ == records_of(incremented_people(built_people(n))),
        layout@.len() == count(n),
        forall|i: int|
            0 <= i < layout.favorite_numbers.len() ==> #[trigger] layout.favorite_numbers[i]
                == sample().favorite_number + 1,
{
    let mut layout = PersonDOD::build(n);
    layout.increment();
    proof {
        lemma_layouts_agree(built_people(n), built_records(n));
        assert forall|i: int| 0 <= i < layout.favorite_numbers.len() implies (
        #[trigger] layout.favorite_numbers[i]) == sample().favorite_number + 1 by {
            assert(layout@[i].favorite_number == layout.favorite_numbers[i]);
        }
    }
    layout
}

/// The pass does the same to both layouts: where the people and the
/// sequences hold the same records before it, they hold the same records
/// after it, and every favorite number is one more than it was.
pub proof fn lemma_layouts_agree(people: Seq<PersonView>, records: Seq<NewPersonView>)
    requires
        records_of(people) == records,
        can_increment(records),
    ensures
        records_of(incremented_people(people)) == incremented(records),
        incremented(records).len() == records.len(),
        forall|i: int|
            0 <= i < records.len() ==> (#[trigger] incremented(records)[i]).favorite_number
                == records[i].favorite_number + 1,
        forall|i: int|
            0 <= i < people.len() ==> (#[trigger] incremented_people(people)[i]).favorite_number
                == people[i].favorite_number + 1,
        forall|i: int|
            0 <= i < people.len() ==> (#[trigger] incremented_people(people)[i]).id
                == people[i].id,
{
    assert(records_of(incremented_people(people)) =~= incremented(records));
    assert forall|i: int| 0 <= i < people.len() implies (#[trigger] incremented_people(
        people,
    )[i]).favorite_number == people[i].favorite_number + 1 by {
        assert(records[i] == people[i].without_id());
    }
}

/// The two measured works end in the same records, whatever `n` is: both
/// hold as many records as `n` asks for, and record for record the fields of
/// [`sample`] with the favorite number 28.
pub proof fn lemma_benchmarks_agree(n: i32)
    ensures
        records_of(incremented_people(built_people(n))) == incremented(built_records(n)),
        incremented(built_records(n)).len() == count(n),
        forall|i: int|
            0 <= i < count(n) ==> (#[trigger] incremented(built_records(n))[i]) == bumped(sample()),
        forall|i: int|
            0 <= i < count(n) ==> (#[trigger] incremented_people(built_people(n))[i]) == bumped(
                sample(),
            ).with_id(i as i32),
        bumped(sample()).favorite_number == 28,
{
    assert(built_records(n) =~= records_of(built_people(n)));
    lemma_layouts_agree(built_people(n), built_records(n));
}

} // verus!
