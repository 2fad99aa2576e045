//! The customer record that business handlers work on.

use vstd::prelude::*;
use vstd::string::*;
use crate::text::{optional_str_text, optional_text, same_text};

verus! {

/// A customer record. Its fields can be read by everyone and written only
/// here: the id is fixed at construction, the other fields change together
/// through `update`.
#[derive(Clone, Debug)]
pub struct Customer {
    id: i32,
    name: String,
    email: String,
    address: String,
    contact_number: Option<String>,
}

/// What a customer record holds.
pub ghost struct CustomerModel {
    pub id: i32,
    pub name: Seq<char>,
    pub email: Seq<char>,
    pub address: Seq<char>,
    pub contact_number: Option<Seq<char>>,
}

impl View for Customer {
    type V = CustomerModel;

    closed spec fn view(&self) -> CustomerModel {
        CustomerModel {
            id: self.id,
            name: self.name@,
            email: self.email@,
            address: self.address@,
            contact_number: optional_text(self.contact_number),
        }
    }
}

fn owned_optional(value: Option<&str>) -> (out: Option<String>)
    ensures
        optional_text(out) == optional_str_text(value),
{
    match value {
        None => None,
        Some(s) => Some(String::from_str(s)),
    }
}

fn same_optional(a: &Option<String>, b: &Option<String>) -> (same: bool)
    ensures
        same == (optional_text(*a) == optional_text(*b)),
{
    match (a, b) {
        (Some(x), Some(y)) => same_text(x.as_str(), y.as_str()),
        (None, None) => true,
        _ => false,
    }
}

impl PartialEq for Customer {
    fn eq(&self, other: &Customer) -> (same: bool) {
        self.id == other.id && same_text(self.name.as_str(), other.name.as_str()) && same_text(
            self.email.as_str(),
            other.email.as_str(),
        ) && same_text(self.address.as_str(), other.address.as_str()) && same_optional(
            &self.contact_number,
            &other.contact_number,
        )
    }
}

impl Eq for Customer {

}

impl vstd::std_specs::cmp::PartialEqSpecImpl for Customer {
    open spec fn obeys_eq_spec() -> bool {
        true
    }

    /// Two customers are equal when all their fields hold the same.
    open spec fn eq_spec(&self, other: &Customer) -> bool {
        self@ == other@
    }
}

impl Customer {
    pub fn id(&self) -> (id: i32)
        ensures
            id == self@.id,
    {
        self.id
    }

    pub fn name(&self) -> (name: &str)
        ensures
            name@ == self@.name,
    {
        self.name.as_str()
    }

    pub fn email(&self) -> (email: &str)
        ensures
            email@ == self@.email,
    {
        self.email.as_str()
    }

    pub fn address(&self) -> (address: &str)
        ensures
            address@ == self@.address,
    {
        self.address.as_str()
    }

    pub fn contact_number(&self) -> (contact_number: Option<&str>)
        ensures
            optional_str_text(contact_number) == self@.contact_number,
    {
        match &self.contact_number {
            Some(number) => Some(number.as_str()),
            None => None,
        }
    }

    /// Whether the record has not been stored yet. A record is created
    /// under the id 0 and gets its id from the store; only a stored record
    /// can be updated.
    pub fn is_new(&self) -> (fresh: bool)
        ensures
            fresh == (self@.id == 0),
    {
        self.id == 0
    }

    pub fn new(
        id: i32,
        name: &str,
        email: &str,
        address: &str,
        contact_number: Option<&str>,
    ) -> (customer: Customer)
        ensures
            customer@ == (CustomerModel {
                id,
                name: name@,
                email: email@,
                address: address@,
                contact_number: optional_str_text(contact_number),
            }),
    {
        Customer {
            id,
            name: String::from_str(name),
            email: String::from_str(email),
            address: String::from_str(address),
            contact_number: owned_optional(contact_number),
        }
    }

    pub fn update(&mut self, name: &str, email: &str, address: &str, contact_number: Option<&str>)
        ensures
            final(self)@ == (CustomerModel {
                id: old(self)@.id,
                name: name@,
                email: email@,
                address: address@,
                contact_number: optional_str_text(contact_number),
            }),
    {
        self.name = String::from_str(name);
        self.email = String::from_str(email);
        self.address = String::from_str(address);
        self.contact_number = owned_optional(contact_number);
    }
}

} // verus!
