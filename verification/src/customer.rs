//! Customers: what a request carries, what a valid customer is, and the
//! rules that turn the first into the second.

use vstd::prelude::*;

use crate::errors::CustomerError;
use crate::ids::IdGenerator;
use crate::phone::{has_phone_shape, phone_shape};
use crate::text::{decimal_i64, number_or, optional_text, parse_i64};

verus! {

/// Whether validator's `validate_email` takes `text` for an email address
/// (the HTML5 rules, with length limits on both sides of the `@`).
pub uninterp spec fn email_is_valid(text: Seq<char>) -> bool;

/// `text` has the shape of a phone number.
pub open spec fn phone_is_valid(text: Seq<char>) -> bool {
    phone_shape(text)
}

/// `validate_email` of validator. Claimed: the answer is a function of the text.
#[verifier::external_body]
fn validate_email(text: &str) -> (valid: bool)
    ensures
        valid == email_is_valid(text@),
{
    validator::validate_email(text)
}

/// An email address that passed validation.
#[derive(Clone, Debug)]
pub struct ValidEmail(pub String);

/// A phone number that passed validation.
#[derive(Clone, Debug)]
pub struct ValidPhone(pub String);

/// The body of a request to create a customer.
#[derive(Debug)]
pub struct CreateCustomerRequest {
    pub name: String,
    pub email: Option<String>,
    pub phone: Option<String>,
    pub remark: Option<String>,
}

/// The body of a request to update a customer: the fields that are there
/// are the ones to change.
#[derive(Debug)]
pub struct UpdateCustomerRequest {
    pub id: String,
    pub name: Option<String>,
    pub email: Option<String>,
    pub phone: Option<String>,
    pub remark: Option<String>,
}

/// The body of a request to delete a customer.
#[derive(Debug)]
pub struct DeleteCustomerRequest {
    pub id: i64,
}

/// A customer that can be stored.
pub struct NewCustomer {
    pub id: i64,
    pub name: String,
    pub email: Option<ValidEmail>,
    pub phone: Option<ValidPhone>,
    pub remark: Option<String>,
}

/// The changes to a customer that can be stored.
pub struct UpdateCustomer {
    pub id: i64,
    pub name: Option<String>,
    pub email: Option<ValidEmail>,
    pub phone: Option<ValidPhone>,
    pub remark: Option<String>,
}

/// The answer to a request that created a customer.
pub struct CreateCustomerResponse {
    pub id: i64,
}

/// The query of a request to list customers.
#[derive(Debug)]
pub struct ListCustomersRequest {
    pub keyword: Option<String>,
    pub page: Option<u64>,
    pub page_size: Option<u64>,
}

/// What the customers of a listing are searched by: an identifier, and
/// parts of the texts.
#[derive(Default, Debug)]
pub struct CustomerSearchParameters {
    pub id: Option<i64>,
    pub partial_name: Option<String>,
    pub partial_email: Option<String>,
    pub partial_phone: Option<String>,
    pub partial_remark: Option<String>,
}

/// The text that turns an invalid email down.
pub open spec fn invalid_email_message(text: Seq<char>) -> Seq<char> {
    text + " is not a valid email"@
}

/// The text that turns an invalid phone number down.
pub open spec fn invalid_phone_message(text: Seq<char>) -> Seq<char> {
    text + " is not a valid phone number. Please follow this format (853) 12345678"@
}

/// The first complaint about an optional email and an optional phone
/// number, the email first; `None` when both pass.
pub open spec fn contact_complaint(email: Option<Seq<char>>, phone: Option<Seq<char>>) -> Option<
    Seq<char>,
> {
    if email is Some && !email_is_valid(email->0) {
        Some(invalid_email_message(email->0))
    } else if phone is Some && !phone_is_valid(phone->0) {
        Some(invalid_phone_message(phone->0))
    } else {
        None
    }
}

/// The text of an optional valid email.
pub open spec fn optional_email_text(email: Option<ValidEmail>) -> Option<Seq<char>> {
    match email {
        Some(e) => Some(e.0@),
        None => None,
    }
}

/// The text of an optional valid phone number.
pub open spec fn optional_phone_text(phone: Option<ValidPhone>) -> Option<Seq<char>> {
    match phone {
        Some(p) => Some(p.0@),
        None => None,
    }
}

impl ValidEmail {
    /// The address inside is one that validation accepts.
    pub open spec fn wf(self) -> bool {
        email_is_valid(self.0@)
    }

    /// Decides on `s` by what validation said of it.
    pub fn accept(s: String, valid: bool) -> (r: Result<Self, String>)
        ensures
            match r {
                Ok(email) => valid && email.0@ == s@,
                Err(message) => !valid && message@ == invalid_email_message(s@),
            },
    {
        if valid {
            Ok(ValidEmail(s))
        } else {
            Err(s.concat(" is not a valid email"))
        }
    }

    /// Accepts `s` exactly when it is a valid email address.
    pub fn parse(s: String) -> (r: Result<Self, String>)
        ensures
            match r {
                Ok(email) => email_is_valid(s@) && email.0@ == s@ && email.wf(),
                Err(message) => !email_is_valid(s@) && message@ == invalid_email_message(s@),
            },
    {
        let valid = validate_email(s.as_str());
        ValidEmail::accept(s, valid)
    }
}

impl ValidPhone {
    /// The number inside has the shape of a phone number.
    pub open spec fn wf(self) -> bool {
        phone_is_valid(self.0@)
    }

    /// Accepts `s` exactly when it has the shape of a phone number.
    pub fn parse(s: String) -> (r: Result<Self, String>)
        ensures
            match r {
                Ok(phone) => phone_is_valid(s@) && phone.0@ == s@ && phone.wf(),
                Err(message) => !phone_is_valid(s@) && message@ == invalid_phone_message(s@),
            },
    {
        if has_phone_shape(s.as_str()) {
            Ok(ValidPhone(s))
        } else {
            Err(
                s.concat(" is not a valid phone number. Please follow this format (853) 12345678"),
            )
        }
    }
}

/// Turns a customer down whose email or phone number another customer has.
pub fn refuse_duplicate(exists: bool) -> (r: Result<(), CustomerError>)
    ensures
        r == (if exists {
            Err(CustomerError::CustomerIsExist)
        } else {
            Ok(())
        }),
{
    if exists {
        Err(CustomerError::CustomerIsExist)
    } else {
        Ok(())
    }
}

/// Validates an email that may be absent.
pub fn parse_optional_email(email: Option<String>) -> (r: Result<Option<ValidEmail>, String>)
    ensures
        match r {
            Ok(parsed) => contact_complaint(optional_text(email), None) is None
                && optional_email_text(parsed) == optional_text(email),
            Err(message) => contact_complaint(optional_text(email), None) == Some(message@),
        },
{
    match email {
        None => Ok(None),
        Some(text) => match ValidEmail::parse(text) {
            Ok(valid) => Ok(Some(valid)),
            Err(message) => Err(message),
        },
    }
}

/// Validates a phone number that may be absent.
pub fn parse_optional_phone(phone: Option<String>) -> (r: Result<Option<ValidPhone>, String>)
    ensures
        match r {
            Ok(parsed) => contact_complaint(None, optional_text(phone)) is None
                && optional_phone_text(parsed) == optional_text(phone),
            Err(message) => contact_complaint(None, optional_text(phone)) == Some(message@),
        },
{
    match phone {
        None => Ok(None),
        Some(text) => match ValidPhone::parse(text) {
            Ok(valid) => Ok(Some(valid)),
            Err(message) => Err(message),
        },
    }
}

impl CreateCustomerRequest {
    /// Why the request cannot become a customer: an invalid email, else an
    /// invalid phone number, else that both are absent. `None` when it can.
    pub open spec fn complaint(self) -> Option<Seq<char>> {
        let contact = contact_complaint(optional_text(self.email), optional_text(self.phone));
        if contact is Some {
            contact
        } else if self.email is None && self.phone is None {
            Some("Email and phone are missing."@)
        } else {
            None
        }
    }
}

impl NewCustomer {
    /// Email and phone number are valid, and one of them is there.
    pub open spec fn wf(self) -> bool {
        &&& self.email matches Some(e) ==> e.wf()
        &&& self.phone matches Some(p) ==> p.wf()
        &&& self.email is Some || self.phone is Some
    }

    /// Builds a customer from a request that raises no complaint, under an
    /// identifier drawn from `generator`; no identifier is drawn otherwise.
    pub fn parse(customer: CreateCustomerRequest, generator: &mut IdGenerator) -> (r: Result<
        Self,
        String,
    >)
        ensures
            match r {
                Ok(new) => {
                    &&& customer.complaint() is None
                    &&& new.wf()
                    &&& new.name@ == customer.name@
                    &&& optional_email_text(new.email) == optional_text(customer.email)
                    &&& optional_phone_text(new.phone) == optional_text(customer.phone)
                    &&& optional_text(new.remark) == optional_text(customer.remark)
                },
                Err(message) => customer.complaint() == Some(message@),
            },
    {
        let email = match parse_optional_email(customer.email) {
            Ok(email) => email,
            Err(message) => { return Err(message); },
        };
        let phone = match parse_optional_phone(customer.phone) {
            Ok(phone) => phone,
            Err(message) => { return Err(message); },
        };
        if email.is_none() && phone.is_none() {
            return Err("Email and phone are missing.".to_owned());
        }
        let id = generator.next_id();
        Ok(NewCustomer { id, name: customer.name, email, phone, remark: customer.remark })
    }
}

impl UpdateCustomerRequest {
    /// Why the request cannot become an update: an invalid email, else an
    /// invalid phone number, else an identifier that is no `i64`.
    pub open spec fn complaint(self) -> Option<Seq<char>> {
        let contact = contact_complaint(optional_text(self.email), optional_text(self.phone));
        if contact is Some {
            contact
        } else if decimal_i64(self.id@) is None {
            Some("Can't parse the id to i64."@)
        } else {
            None
        }
    }
}

impl UpdateCustomer {
    /// The email and the phone number that are there are valid.
    pub open spec fn wf(self) -> bool {
        &&& self.email matches Some(e) ==> e.wf()
        &&& self.phone matches Some(p) ==> p.wf()
    }

    /// Builds an update from a request that raises no complaint.
    pub fn parse(customer: UpdateCustomerRequest) -> (r: Result<Self, String>)
        ensures
            match r {
                Ok(update) => {
                    &&& customer.complaint() is None
                    &&& update.wf()
                    &&& Some(update.id) == decimal_i64(customer.id@)
                    &&& optional_text(update.name) == optional_text(customer.name)
                    &&& optional_email_text(update.email) == optional_text(customer.email)
                    &&& optional_phone_text(update.phone) == optional_text(customer.phone)
                    &&& optional_text(update.remark) == optional_text(customer.remark)
                },
                Err(message) => customer.complaint() == Some(message@),
            },
    {
        let email = match parse_optional_email(customer.email) {
            Ok(email) => email,
            Err(message) => { return Err(message); },
        };
        let phone = match parse_optional_phone(customer.phone) {
            Ok(phone) => phone,
            Err(message) => { return Err(message); },
        };
        let id = match number_or(parse_i64(customer.id.as_str()), "Can't parse the id to i64.") {
            Ok(id) => id,
            Err(message) => { return Err(message); },
        };
        Ok(UpdateCustomer { id, name: customer.name, email, phone, remark: customer.remark })
    }

    /// An update that changes the email or the phone number must first be
    /// held against the other customers.
    pub fn changes_contact(&self) -> (b: bool)
        ensures
            b == (self.email is Some || self.phone is Some),
    {
        self.email.is_some() || self.phone.is_some()
    }

    /// Whether the update changes anything at all.
    pub fn need_update(&self) -> (b: bool)
        ensures
            b == (self.name is Some || self.email is Some || self.phone is Some
                || self.remark is Some),
    {
        self.name.is_some() || self.email.is_some() || self.phone.is_some()
            || self.remark.is_some()
    }
}

} // verus!
