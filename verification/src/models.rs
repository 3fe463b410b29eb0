use vstd::prelude::*;

verus! {

/// A person as the store holds it.
#[derive(Debug, PartialEq, Eq)]
pub struct Person {
    pub id: i32,
    pub name: String,
    pub job: String,
    pub is_adult: bool,
    pub favorite_number: i16,
}

/// What a [`Person`] holds, as mathematical values.
pub ghost struct PersonView {
    pub id: i32,
    pub name: Seq<char>,
    pub job: Seq<char>,
    pub is_adult: bool,
    pub favorite_number: i16,
}

impl View for Person {
    type V = PersonView;

    open spec fn view(&self) -> PersonView {
        PersonView {
            id: self.id,
            name: self.name@,
            job: self.job@,
            is_adult: self.is_adult,
            favorite_number: self.favorite_number,
        }
    }
}

impl DeepView for Person {
    type V = PersonView;

    open spec fn deep_view(&self) -> PersonView {
        self@
    }
}

impl Clone for Person {
    fn clone(&self) -> (copy: Self)
        ensures
            copy@ == self@,
    {
        Person {
            id: self.id,
            name: self.name.clone(),
            job: self.job.clone(),
            is_adult: self.is_adult,
            favorite_number: self.favorite_number,
        }
    }
}

/// The fields of a person that is yet to be stored: all of [`Person`] but the
/// id, which the store gives.
#[derive(Debug, PartialEq, Eq)]
pub struct NewPerson {
    pub name: String,
    pub job: String,
    pub is_adult: bool,
    pub favorite_number: i16,
}

/// What a [`NewPerson`] holds, as mathematical values.
pub ghost struct NewPersonView {
    pub name: Seq<char>,
    pub job: Seq<char>,
    pub is_adult: bool,
    pub favorite_number: i16,
}

impl View for NewPerson {
    type V = NewPersonView;

    open spec fn view(&self) -> NewPersonView {
        NewPersonView {
            name: self.name@,
            job: self.job@,
            is_adult: self.is_adult,
            favorite_number: self.favorite_number,
        }
    }
}

impl DeepView for NewPerson {
    type V = NewPersonView;

    open spec fn deep_view(&self) -> NewPersonView {
        self@
    }
}

impl Clone for NewPerson {
    fn clone(&self) -> (copy: Self)
        ensures
            copy@ == self@,
    {
        NewPerson {
            name: self.name.clone(),
            job: self.job.clone(),
            is_adult: self.is_adult,
            favorite_number: self.favorite_number,
        }
    }
}

impl PersonView {
    /// The fields that the person had before the store gave it an id.
    pub open spec fn without_id(self) -> NewPersonView {
        NewPersonView {
            name: self.name,
            job: self.job,
            is_adult: self.is_adult,
            favorite_number: self.favorite_number,
        }
    }
}

impl NewPersonView {
    /// The person that these fields make under the id `id`.
    pub open spec fn with_id(self, id: i32) -> PersonView {
        PersonView {
            id,
            name: self.name,
            job: self.job,
            is_adult: self.is_adult,
            favorite_number: self.favorite_number,
        }
    }
}

/// An organization as the store holds it. `ceo_id` is the id of a person.
#[derive(Debug, PartialEq, Eq)]
pub struct Organization {
    pub id: i32,
    pub name: String,
    pub address: String,
    pub phone: String,
    pub ceo_id: i32,
}

/// What an [`Organization`] holds, as mathematical values.
pub ghost struct OrganizationView {
    pub id: i32,
    pub name: Seq<char>,
    pub address: Seq<char>,
    pub phone: Seq<char>,
    pub ceo_id: i32,
}

impl View for Organization {
    type V = OrganizationView;

    open spec fn view(&self) -> OrganizationView {
        OrganizationView {
            id: self.id,
            name: self.name@,
            address: self.address@,
            phone: self.phone@,
            ceo_id: self.ceo_id,
        }
    }
}

impl DeepView for Organization {
    type V = OrganizationView;

    open spec fn deep_view(&self) -> OrganizationView {
        self@
    }
}

impl Clone for Organization {
    fn clone(&self) -> (copy: Self)
        ensures
            copy@ == self@,
    {
        Organization {
            id: self.id,
            name: self.name.clone(),
            address: self.address.clone(),
            phone: self.phone.clone(),
            ceo_id: self.ceo_id,
        }
    }
}

/// The fields of an organization that is yet to be stored.
#[derive(Debug, PartialEq, Eq)]
pub struct NewOrganization {
    pub name: String,
    pub address: String,
    pub phone: String,
    pub ceo_id: i32,
}

/// What a [`NewOrganization`] holds, as mathematical values.
pub ghost struct NewOrganizationView {
    pub name: Seq<char>,
    pub address: Seq<char>,
    pub phone: Seq<char>,
    pub ceo_id: i32,
}

impl View for NewOrganization {
    type V = NewOrganizationView;

    open spec fn view(&self) -> NewOrganizationView {
        NewOrganizationView {
            name: self.name@,
            address: self.address@,
            phone: self.phone@,
            ceo_id: self.ceo_id,
        }
    }
}

impl DeepView for NewOrganization {
    type V = NewOrganizationView;

    open spec fn deep_view(&self) -> NewOrganizationView {
        self@
    }
}

impl Clone for NewOrganization {
    fn clone(&self) -> (copy: Self)
        ensures
            copy@ == self@,
    {
        NewOrganization {
            name: self.name.clone(),
            address: self.address.clone(),
            phone: self.phone.clone(),
            ceo_id: self.ceo_id,
        }
    }
}

impl NewOrganizationView {
    /// The organization that these fields make under the id `id`.
    pub open spec fn with_id(self, id: i32) -> OrganizationView {
        OrganizationView {
            id,
            name: self.name,
            address: self.address,
            phone: self.phone,
            ceo_id: self.ceo_id,
        }
    }
}

/// An organization together with the person who leads it, for showing. The
/// person is a copy of its own, not a reference into anything else.
#[derive(Debug, PartialEq, Eq)]
pub struct OrganizationWithCeo {
    pub id: i32,
    pub name: String,
    pub address: String,
    pub phone: String,
    pub ceo: Person,
}

/// What an [`OrganizationWithCeo`] holds, as mathematical values.
pub ghost struct OrganizationWithCeoView {
    pub id: i32,
    pub name: Seq<char>,
    pub address: Seq<char>,
    pub phone: Seq<char>,
    pub ceo: PersonView,
}

impl View for OrganizationWithCeo {
    type V = OrganizationWithCeoView;

    open spec fn view(&self) -> OrganizationWithCeoView {
        OrganizationWithCeoView {
            id: self.id,
            name: self.name@,
            address: self.address@,
            phone: self.phone@,
            ceo: self.ceo@,
        }
    }
}

impl DeepView for OrganizationWithCeo {
    type V = OrganizationWithCeoView;

    open spec fn deep_view(&self) -> OrganizationWithCeoView {
        self@
    }
}

impl Clone for OrganizationWithCeo {
    fn clone(&self) -> (copy: Self)
        ensures
            copy@ == self@,
    {
        OrganizationWithCeo {
            id: self.id,
            name: self.name.clone(),
            address: self.address.clone(),
            phone: self.phone.clone(),
            ceo: self.ceo.clone(),
        }
    }
}

impl OrganizationView {
    /// This organization with `ceo` in the place of the id of its leader.
    pub open spec fn with_ceo(self, ceo: PersonView) -> OrganizationWithCeoView {
        OrganizationWithCeoView {
            id: self.id,
            name: self.name,
            address: self.address,
            phone: self.phone,
            ceo,
        }
    }
}

impl OrganizationWithCeo {
    /// Joins an organization and the person who leads it.
    pub fn new(organization: &Organization, ceo: Person) -> (joined: Self)
        ensures
            joined@ == organization@.with_ceo(ceo@),
    {
        OrganizationWithCeo {
            id: organization.id,
            name: organization.name.clone(),
            address: organization.address.clone(),
            phone: organization.phone.clone(),
            ceo,
        }
    }
}

} // verus!
