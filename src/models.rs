//! The job board's records, as the rest of the application stores and shows them.

use vstd::prelude::*;

verus! {

/// A company.
#[derive(Debug)]
pub struct Company {
    pub id: i32,
    pub name: String,
    pub description: Option<String>,
    pub website: Option<String>,
    pub logo_url: Option<String>,
}

/// A company's id and name, for listings.
#[derive(Debug)]
pub struct CompanyIdName {
    pub id: i32,
    pub name: String,
}

/// A place where jobs are offered.
#[derive(Debug)]
pub struct JobLocation {
    pub location: String,
}

/// A user account; the id is the 128-bit value of its UUID.
#[derive(Debug)]
pub struct User {
    pub id: u128,
    pub email: String,
    pub password: String,
}

/// The data of the greeting page.
#[derive(Debug)]
pub struct HelloTemplate<'a> {
    pub name: &'a str,
}

/// The data of a company's page.
#[derive(Debug)]
pub struct CompanyTemplate {
    pub company: Company,
}

} // verus!
