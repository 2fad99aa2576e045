//! The shapes in which customer and vendor records cross the HTTP
//! boundary.

use vstd::prelude::*;
use vstd::string::*;
use crate::customer::Customer;
use crate::text::optional_text;

verus! {

/// A customer as it is sent to a client.
#[derive(Debug)]
pub struct CustomerDto {
    pub id: i32,
    pub name: String,
    pub email: String,
    pub address: String,
    pub contact_number: Option<String>,
}

/// A vendor as it is sent to a client.
#[derive(Debug)]
pub struct VendorDto {
    pub id: i32,
    pub name: String,
    pub email: String,
    pub address: String,
    pub contact_number: Option<String>,
}

/// What a client sends to create or change a vendor.
#[derive(Debug)]
pub struct CreateVendorRequest {
    pub name: String,
    pub email: String,
    pub address: String,
    pub contact_number: Option<String>,
}

impl CustomerDto {
    /// The customer, field by field.
    pub fn from_customer(customer: &Customer) -> (dto: CustomerDto)
        ensures
            dto.id == customer@.id,
            dto.name@ == customer@.name,
            dto.email@ == customer@.email,
            dto.address@ == customer@.address,
            optional_text(dto.contact_number) == customer@.contact_number,
    {
        CustomerDto {
            id: customer.id(),
            name: String::from_str(customer.name()),
            email: String::from_str(customer.email()),
            address: String::from_str(customer.address()),
            contact_number: match customer.contact_number() {
                Some(number) => Some(String::from_str(number)),
                None => None,
            },
        }
    }
}

impl CreateVendorRequest {
    /// Whether the email has between 1 and 1000 characters.
    pub open spec fn spec_is_valid(&self) -> bool {
        1 <= self.email@.len() <= 1000
    }

    /// Whether the request may be stored.
    #[verifier::when_used_as_spec(spec_is_valid)]
    pub fn is_valid(&self) -> (valid: bool)
        ensures
            valid == self.spec_is_valid(),
    {
        let n = self.email.as_str().unicode_len();
        1 <= n && n <= 1000
    }

    /// The vendor that the request describes, under the id it was stored
    /// with.
    pub fn into_dto(self, id: i32) -> (dto: VendorDto)
        ensures
            dto.id == id,
            dto.name == self.name,
            dto.email == self.email,
            dto.address == self.address,
            dto.contact_number == self.contact_number,
    {
        VendorDto {
            id,
            name: self.name,
            email: self.email,
            address: self.address,
            contact_number: self.contact_number,
        }
    }
}

} // verus!
