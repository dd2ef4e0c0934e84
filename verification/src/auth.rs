use vstd::prelude::*;
use vstd::utf8::{decode_utf8, encode_utf8, valid_utf8};
use crate::middleware::{Layer, ServiceStack};
use crate::status::Status;

verus! {

/// Why a request was turned away: the status and the message sent back.
#[derive(Clone, Copy, Debug)]
pub struct Rejection {
    pub status: Status,
    pub message: &'static str,
}

impl View for Rejection {
    type V = (Status, Seq<char>);

    open spec fn view(&self) -> (Status, Seq<char>) {
        (self.status, self.message@)
    }
}

/// A result whose rejection is taken by its view.
pub open spec fn outcome<T>(r: Result<T, Rejection>) -> Result<T, (Status, Seq<char>)> {
    match r {
        Ok(v) => Ok(v),
        Err(e) => Err(e@),
    }
}

/// The bytes of an optional header value.
pub open spec fn header_bytes(header: Option<&[u8]>) -> Option<Seq<u8>> {
    match header {
        Some(h) => Some(h@),
        None => None,
    }
}

/// The byte of `'1'`, the flag of an administrator.
pub const ADMIN: u8 = 49;

/// The byte of `'0'`, the flag of an ordinary user.
pub const NOT_ADMIN: u8 = 48;

/// The header value `admin=<flag>`.
pub open spec fn admin_header(flag: u8) -> Seq<u8> {
    seq![97u8, 100u8, 109u8, 105u8, 110u8, 61u8, flag]
}

/// The answer to a request without an `Authorization` header.
pub open spec fn missing_header() -> (Status, Seq<char>) {
    (Status::Unauthorized, "Missing Authorization header"@)
}

/// The answer to a request whose `Authorization` header is not accepted.
pub open spec fn invalid_header() -> (Status, Seq<char>) {
    (Status::Unauthorized, "Invalid Authorization header value"@)
}

/// Which requests the administrator guard lets through.
pub open spec fn admin_guard(header: Option<Seq<u8>>) -> Result<(), (Status, Seq<char>)> {
    match header {
        None => Err(missing_header()),
        Some(h) => if h == admin_header(ADMIN) {
            Ok(())
        } else {
            Err(invalid_header())
        },
    }
}

/// A user known from the `Authorization` header.
#[derive(Clone, Copy, Debug, PartialEq, Eq, Structural)]
pub struct User {
    pub admin: bool,
}

/// Which user the `Authorization` header names.
pub open spec fn user_of(header: Option<Seq<u8>>) -> Result<User, (Status, Seq<char>)> {
    match header {
        None => Err(missing_header()),
        Some(h) => if h == admin_header(ADMIN) {
            Ok(User { admin: true })
        } else if h == admin_header(NOT_ADMIN) {
            Ok(User { admin: false })
        } else {
            Err(invalid_header())
        },
    }
}

/// Whether `h` is the header value `admin=<flag>`.
fn is_admin_header(h: &[u8], flag: u8) -> (b: bool)
    ensures
        b == (h@ == admin_header(flag)),
{
    let b = h.len() == 7 && h[0] == 97 && h[1] == 100 && h[2] == 109 && h[3] == 105 && h[4] == 110
        && h[5] == 61 && h[6] == flag;
    if b {
        assert(h@ =~= admin_header(flag));
    }
    b
}

/// The administrator guard: only `admin=1` passes; a missing header and any
/// other value are answered `401`.
pub fn authenticate(header: Option<&[u8]>) -> (r: Result<(), Rejection>)
    ensures
        outcome(r) == admin_guard(header_bytes(header)),
{
    match header {
        Some(h) => {
            if is_admin_header(h, ADMIN) {
                Ok(())
            } else {
                Err(Rejection { status: Status::Unauthorized, message: "Invalid Authorization header value" })
            }
        },
        None => Err(Rejection { status: Status::Unauthorized, message: "Missing Authorization header" }),
    }
}

/// The user extractor: `admin=1` is an administrator, `admin=0` an ordinary
/// user; a missing header and any other value are answered `401`.
pub fn extract_user(header: Option<&[u8]>) -> (r: Result<User, Rejection>)
    ensures
        outcome(r) == user_of(header_bytes(header)),
{
    match header {
        Some(h) => {
            if is_admin_header(h, ADMIN) {
                Ok(User { admin: true })
            } else if is_admin_header(h, NOT_ADMIN) {
                Ok(User { admin: false })
            } else {
                Err(Rejection { status: Status::Unauthorized, message: "Invalid Authorization header value" })
            }
        },
        None => Err(Rejection { status: Status::Unauthorized, message: "Missing Authorization header" }),
    }
}

/// Puts the administrator guard in front of the service.
pub fn from_fn(stack: &mut ServiceStack)
    ensures
        final(stack)@ == old(stack)@.push(Layer::AdminAuth),
{
    stack.layer(Layer::AdminAuth);
}

/// Puts the user extractor in front of the service.
pub fn from_extractor(stack: &mut ServiceStack)
    ensures
        final(stack)@ == old(stack)@.push(Layer::UserExtractor),
{
    stack.layer(Layer::UserExtractor);
}

/// The guard and the extractor agree: the guard lets a request through exactly
/// when the extractor finds an administrator, both answer a missing header
/// alike, and a header that the guard refuses is either refused by the
/// extractor with the same answer or names an ordinary user.
pub proof fn lemma_guard_agrees_with_extractor(header: Option<Seq<u8>>)
    ensures
        admin_guard(header) is Ok <==> user_of(header) == Ok::<User, (Status, Seq<char>)>(User { admin: true }),
        header is None ==> admin_guard(header) == Err::<(), (Status, Seq<char>)>(missing_header())
            && user_of(header) == Err::<User, (Status, Seq<char>)>(missing_header()),
        admin_guard(header) is Err ==> (user_of(header) == Ok::<User, (Status, Seq<char>)>(User { admin: false })
            || (user_of(header) is Err && user_of(header)->Err_0 == admin_guard(header)->Err_0)),
{
    if let Some(h) = header {
        assert(admin_header(ADMIN)[6] != admin_header(NOT_ADMIN)[6]);
    }
}

/// Only the exact bytes `admin=1` pass the administrator guard, and the
/// extractor names an ordinary user exactly for `admin=0`; every other
/// present header is answered `401 "Invalid Authorization header value"`.
pub proof fn lemma_exact_admin_headers(h: Seq<u8>)
    ensures
        admin_guard(Some(h)) is Ok <==> h == seq![97u8, 100u8, 109u8, 105u8, 110u8, 61u8, 49u8],
        user_of(Some(h)) == Ok::<User, (Status, Seq<char>)>(User { admin: false }) <==> h == seq![
            97u8,
            100u8,
            109u8,
            105u8,
            110u8,
            61u8,
            48u8,
        ],
        admin_guard(Some(h)) is Err ==> admin_guard(Some(h)) == Err::<(), (Status, Seq<char>)>(
            (Status::Unauthorized, "Invalid Authorization header value"@),
        ),
        admin_guard(None) == Err::<(), (Status, Seq<char>)>(
            (Status::Unauthorized, "Missing Authorization header"@),
        ),
{
    assert(admin_header(ADMIN) =~= seq![97u8, 100u8, 109u8, 105u8, 110u8, 61u8, 49u8]);
    assert(admin_header(NOT_ADMIN) =~= seq![97u8, 100u8, 109u8, 105u8, 110u8, 61u8, 48u8]);
}

/// A person, named by the `Authorization` header.
#[derive(Clone, Debug)]
pub struct Person {
    pub name: String,
}

/// The answer to a request without an `Authorization` header.
pub open spec fn missing_name() -> (Status, Seq<char>) {
    (Status::Unauthorized, "missing Authorization header"@)
}

/// The answer to a request whose `Authorization` header is not UTF-8.
pub open spec fn bad_name() -> (Status, Seq<char>) {
    (Status::Forbidden, "bad Authorization header value"@)
}

/// The name that the `Authorization` header carries.
pub open spec fn name_of(header: Option<Seq<u8>>) -> Result<Seq<char>, (Status, Seq<char>)> {
    match header {
        None => Err(missing_name()),
        Some(h) => if valid_utf8(h) {
            Ok(decode_utf8(h))
        } else {
            Err(bad_name())
        },
    }
}

/// `std::str::from_utf8`: the bytes as text when they are valid UTF-8.
/// The contract states the standard library's documented behaviour through
/// vstd's definitions of UTF-8 validity and decoding.
#[verifier::external_body]
fn utf8_text(bytes: &[u8]) -> (r: Option<&str>)
    ensures
        r is Some <==> valid_utf8(bytes@),
        r matches Some(s) ==> s@ == decode_utf8(bytes@),
{
    std::str::from_utf8(bytes).ok()
}

/// Takes the person's name from the `Authorization` header: a missing
/// header is answered `401`, one that is not UTF-8 `403`.
pub fn authenticate_person(header: Option<&[u8]>) -> (r: Result<Person, Rejection>)
    ensures
        match (r, name_of(header_bytes(header))) {
            (Ok(p), Ok(name)) => p.name@ == name,
            (Err(e), Err(expected)) => e@ == expected,
            _ => false,
        },
{
    match header {
        Some(h) => match utf8_text(h) {
            Some(name) => Ok(Person { name: name.to_owned() }),
            None => Err(Rejection { status: Status::Forbidden, message: "bad Authorization header value" }),
        },
        None => Err(Rejection { status: Status::Unauthorized, message: "missing Authorization header" }),
    }
}

/// Puts the person extractor in front of the service.
pub fn authenticate_layer(stack: &mut ServiceStack)
    ensures
        final(stack)@ == old(stack)@.push(Layer::PersonAuth),
{
    stack.layer(Layer::PersonAuth);
}

/// Only a missing header is answered `401`: a header that is present but is
/// not valid UTF-8 is always answered `403 "bad Authorization header
/// value"`, and a missing one `401 "missing Authorization header"`.
pub proof fn lemma_only_missing_header_is_unauthorized(header: Option<Seq<u8>>)
    ensures
        header is None ==> name_of(header) == Err::<Seq<char>, (Status, Seq<char>)>(
            (Status::Unauthorized, "missing Authorization header"@),
        ),
        (header is Some) && !valid_utf8(header->0) ==> name_of(header) == Err::<Seq<char>, (Status, Seq<char>)>(
            (Status::Forbidden, "bad Authorization header value"@),
        ),
        (header is Some) && valid_utf8(header->0) ==> name_of(header) == Ok::<Seq<char>, (Status, Seq<char>)>(
            decode_utf8(header->0),
        ),
        name_of(header) matches Err(e) ==> (e.0 == Status::Unauthorized <==> header is None),
{
}

/// Any name sent as the UTF-8 bytes of its text is read back unchanged.
pub proof fn lemma_name_round_trip(name: Seq<char>)
    ensures
        name_of(Some(encode_utf8(name))) == Ok::<Seq<char>, (Status, Seq<char>)>(name),
{
    vstd::utf8::encode_utf8_valid_utf8(name);
    vstd::utf8::encode_utf8_decode_utf8(name);
}

} // verus!
