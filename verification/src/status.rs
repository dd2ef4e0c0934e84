use vstd::prelude::*;

verus! {

/// The HTTP statuses this service answers with.
#[derive(Clone, Copy, Debug, PartialEq, Eq, Structural)]
pub enum Status {
    Success,
    Created,
    BadRequest,
    Unauthorized,
    Forbidden,
    NotFound,
    Conflict,
    InternalServerError,
}

impl Status {
    /// The numeric status code, as registered by IANA.
    pub open spec fn spec_code(self) -> u16 {
        match self {
            Status::Success => 200,
            Status::Created => 201,
            Status::BadRequest => 400,
            Status::Unauthorized => 401,
            Status::Forbidden => 403,
            Status::NotFound => 404,
            Status::Conflict => 409,
            Status::InternalServerError => 500,
        }
    }

    /// Returns the numeric status code.
    pub fn code(&self) -> (c: u16)
        ensures
            c == self.spec_code(),
    {
        match self {
            Status::Success => 200,
            Status::Created => 201,
            Status::BadRequest => 400,
            Status::Unauthorized => 401,
            Status::Forbidden => 403,
            Status::NotFound => 404,
            Status::Conflict => 409,
            Status::InternalServerError => 500,
        }
    }
}

/// Distinct statuses have distinct codes, and every code lies in the range
/// `100..=999` that HTTP status codes may take.
pub proof fn lemma_codes_distinct_and_valid(a: Status, b: Status)
    ensures
        100 <= a.spec_code() <= 999,
        a.spec_code() == b.spec_code() ==> a == b,
{
}

} // verus!
