use vstd::prelude::*;

pub mod api;
pub mod coerce;
pub mod cookie;
pub mod credentials;
pub mod form;
pub mod http;
pub mod media;
pub mod numbers;
pub mod query;
pub mod render;
pub mod restaurants;
pub mod routes;
pub mod service;
pub mod sessions;
pub mod text;

verus! {

/// Identifier of a registered user.
pub type UserId = i32;

/// The backing store could not serve a request.
#[derive(Clone, Copy, PartialEq, Eq, Structural, Debug)]
pub struct StoreError;

/// Why a registration was refused.
#[derive(Clone, Copy, PartialEq, Eq, Structural, Debug)]
pub enum AccountError {
    /// The username is already taken.
    Conflict,
    /// The backing store could not serve the request.
    Unavailable,
}

} // verus!
