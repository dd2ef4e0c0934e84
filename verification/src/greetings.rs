use vstd::prelude::*;
use vstd::string::StringExecFns;
use crate::status::Status;
use crate::text::{decimal, push_char, push_decimal};

verus! {

/// The text served at the root path.
pub open spec fn root_text() -> Seq<char> {
    "Hello World!"@
}

/// The root path answers `200 Hello World!`.
pub fn root() -> (r: (Status, &'static str))
    ensures
        r.0 == Status::Success,
        r.1@ == root_text(),
{
    (Status::Success, "Hello World!")
}

/// The greeting for a numeric name: `Hello, <name>!`.
pub open spec fn number_greeting(name: nat) -> Seq<char> {
    "Hello, "@ + decimal(name) + "!"@
}

/// The greeting for a full name: `Hello, <surname>, <first name>!`.
pub open spec fn full_greeting(first_name: Seq<char>, surname: Seq<char>) -> Seq<char> {
    "Hello, "@ + surname + ", "@ + first_name + "!"@
}

/// The layout of a full greeting, whatever the lengths of the names:
/// `Hello, ` (seven characters), then the surname, then `, `, then the
/// first name, then `!`.
pub proof fn lemma_full_greeting_layout(first_name: Seq<char>, surname: Seq<char>)
    ensures
        full_greeting(first_name, surname).len() == surname.len() + first_name.len() + 10,
        full_greeting(first_name, surname).subrange(0, 7) == "Hello, "@,
        full_greeting(first_name, surname).subrange(7, 7 + surname.len() as int) == surname,
        full_greeting(first_name, surname).subrange(7 + surname.len() as int, 9 + surname.len() as int) == ", "@,
        full_greeting(first_name, surname).subrange(9 + surname.len() as int, 9 + surname.len() as int + first_name.len() as int)
            == first_name,
        full_greeting(first_name, surname).last() == '!',
{
    reveal_strlit("Hello, ");
    reveal_strlit(", ");
    reveal_strlit("!");
    let g = full_greeting(first_name, surname);
    let a = surname.len() as int;
    let b = first_name.len() as int;
    assert(g.subrange(0, 7) =~= "Hello, "@);
    assert(g.subrange(7, 7 + a) =~= surname);
    assert(g.subrange(7 + a, 9 + a) =~= ", "@);
    assert(g.subrange(9 + a, 9 + a + b) =~= first_name);
}

/// The greeting of a number: `Hello, `, then the base-ten numeral of the
/// number, then `!`.
pub proof fn lemma_number_greeting_layout(name: nat)
    ensures
        number_greeting(name).subrange(0, 7) == "Hello, "@,
        number_greeting(name).subrange(7, number_greeting(name).len() - 1) == decimal(name),
        number_greeting(name).last() == '!',
        number_greeting(name).len() == decimal(name).len() + 8,
{
    reveal_strlit("Hello, ");
    reveal_strlit("!");
    let g = number_greeting(name);
    assert(g.subrange(0, 7) =~= "Hello, "@);
    assert(g.subrange(7, g.len() - 1) =~= decimal(name));
}

/// Greets the number taken from the path.
pub fn hello_name(name: u32) -> (s: String)
    ensures
        s@ == number_greeting(name as nat),
{
    let mut s = String::from_str("Hello, ");
    push_decimal(&mut s, name);
    push_char(&mut s, '!');
    proof {
        reveal_strlit("!");
        assert(s@ =~= number_greeting(name as nat));
    }
    s
}

/// Greets the first name and surname taken from the path.
pub fn hello_full_name(first_name: &str, surname: &str) -> (s: String)
    ensures
        s@ == full_greeting(first_name@, surname@),
{
    let mut s = String::from_str("Hello, ");
    s.append(surname);
    s.append(", ");
    s.append(first_name);
    s.append("!");
    proof {
        assert(s@ =~= full_greeting(first_name@, surname@));
    }
    s
}

/// A person's full name, as it appears in paths and JSON bodies.
#[derive(Clone, Debug, PartialEq, Eq)]
pub struct FullName {
    pub first_name: String,
    pub surname: String,
}

/// Greets a full name taken from the path as a whole.
pub fn hello_full_name_serde(full_name: &FullName) -> (s: String)
    ensures
        s@ == full_greeting(full_name.first_name@, full_name.surname@),
{
    hello_full_name(full_name.first_name.as_str(), full_name.surname.as_str())
}

/// Echoes a full name with the status `201 Created`.
pub fn hello_status_code_json(full_name: FullName) -> (r: (Status, FullName))
    ensures
        r.0 == Status::Created,
        r.1 == full_name,
{
    (Status::Created, full_name)
}

} // verus!
