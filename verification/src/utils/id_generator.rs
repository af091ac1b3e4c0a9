use vstd::prelude::*;
use vstd::string::StrSliceExecFns;
use vstd::string::StringExecFns;

verus! {

/// An entity identifier: the 128 bits of a UUID, most significant first.
pub type Id = u128;

/// Where an identifier holds its version, four bits, and its variant, two bits.
pub const V4_MASK: u128 = 0x0000_0000_0000_f000_c000_0000_0000_0000;

/// What a random identifier holds there: version 4 and the variant `10`.
pub const V4_BITS: u128 = 0x0000_0000_0000_4000_8000_0000_0000_0000;

/// What `uuid::Uuid::parse_str` makes of a text: the identifier it reads, or
/// `None` where it rejects the text.
pub uninterp spec fn uuid_parse(text: Seq<char>) -> Option<u128>;

/// The error that the uuid crate reports for a text it cannot read.
#[verifier::external_type_specification]
#[verifier::external_body]
pub struct ExUuidError(uuid::Error);

/// `id` has the version and variant bits of a random (version 4) UUID.
pub open spec fn is_v4(id: u128) -> bool {
    id & V4_MASK == V4_BITS
}

/// The lower-case hexadecimal digit for a value below sixteen.
pub open spec fn hex_digit(n: int) -> char {
    if n == 0 {
        '0'
    } else if n == 1 {
        '1'
    } else if n == 2 {
        '2'
    } else if n == 3 {
        '3'
    } else if n == 4 {
        '4'
    } else if n == 5 {
        '5'
    } else if n == 6 {
        '6'
    } else if n == 7 {
        '7'
    } else if n == 8 {
        '8'
    } else if n == 9 {
        '9'
    } else if n == 10 {
        'a'
    } else if n == 11 {
        'b'
    } else if n == 12 {
        'c'
    } else if n == 13 {
        'd'
    } else if n == 14 {
        'e'
    } else {
        'f'
    }
}

/// Sixteen to the power `k`.
pub open spec fn pow16(k: nat) -> nat
    decreases k,
{
    if k == 0 {
        1
    } else {
        16 * pow16((k - 1) as nat)
    }
}

/// The `k`-th of the thirty-two hexadecimal digits of `id`, counted from the
/// most significant.
pub open spec fn nibble(id: u128, k: int) -> int {
    (id as int / pow16((31 - k) as nat) as int) % 16
}

/// Which of the thirty-two digits stands at position `i` of the hyphenated form.
pub open spec fn digit_index(i: int) -> int {
    if i < 8 {
        i
    } else if i < 13 {
        i - 1
    } else if i < 18 {
        i - 2
    } else if i < 23 {
        i - 3
    } else {
        i - 4
    }
}

/// The canonical text of an identifier: thirty-two lower-case hexadecimal
/// digits in groups of 8, 4, 4, 4 and 12, with hyphens between the groups.
pub open spec fn hyphenated(id: u128) -> Seq<char> {
    Seq::new(
        36,
        |i: int|
            if i == 8 || i == 13 || i == 18 || i == 23 {
                '-'
            } else {
                hex_digit(nibble(id, digit_index(i)))
            },
    )
}

/// The first eight characters of the canonical text.
pub open spec fn short_form(id: u128) -> Seq<char> {
    hyphenated(id).subrange(0, 8)
}

/// `uuid::Uuid::new_v4`, read with `Uuid::as_u128`: sixteen random bytes in
/// which the crate sets the version nibble to 4 and the variant bits to 10.
/// The crate panics where the operating system hands out no random bytes.
#[verifier::external_body]
fn new_v4() -> (id: u128)
    ensures
        is_v4(id),
{
    uuid::Uuid::new_v4().as_u128()
}

/// `uuid::Uuid::parse_str`, the identifier read with `Uuid::as_u128`. The
/// contract names the outcome: the crate accepts several spellings.
#[verifier::external_body]
pub(crate) fn parse_uuid(text: &str) -> (r: Result<u128, uuid::Error>)
    ensures
        match r {
            Ok(id) => uuid_parse(text@) == Some(id),
            Err(_) => uuid_parse(text@) is None,
        },
{
    uuid::Uuid::parse_str(text).map(|u| u.as_u128())
}

/// `uuid::Uuid::from_u128` and the `Display` of the result: the lower-case
/// hyphenated form. That form is one of the spellings that
/// `uuid::Uuid::parse_str` reads, and it reads the same identifier from it.
#[verifier::external_body]
pub(crate) fn uuid_text(id: u128) -> (s: String)
    ensures
        s@ == hyphenated(id),
        uuid_parse(s@) == Some(id),
{
    uuid::Uuid::from_u128(id).to_string()
}

/// The canonical text of an identifier, which reads back as the identifier.
pub fn id_to_string(id: &Id) -> (s: String)
    ensures
        s@ == hyphenated(*id),
        uuid_parse(s@) == Some(*id),
{
    uuid_text(*id)
}

/// A new random identifier.
pub fn generate_id() -> (id: Id)
    ensures
        is_v4(id),
{
    new_v4()
}

/// A new random identifier in its canonical text.
pub fn generate_id_string() -> (s: String)
    ensures
        exists|id: u128| is_v4(id) && s@ == #[trigger] hyphenated(id) && uuid_parse(s@) == Some(id),
{
    let id = new_v4();
    uuid_text(id)
}

/// The first eight characters of a new random identifier.
pub fn generate_short_id() -> (s: String)
    ensures
        exists|id: u128| is_v4(id) && s@ == #[trigger] short_form(id),
{
    let id = new_v4();
    to_short_display(&id)
}

/// Tells whether `id` can be read as an identifier.
pub fn is_valid_uuid(id: &str) -> (b: bool)
    ensures
        b == uuid_parse(id@) is Some,
{
    parse_uuid(id).is_ok()
}

/// The first eight characters of the canonical text of `id`.
pub fn to_short_display(id: &Id) -> (s: String)
    ensures
        s@ == short_form(*id),
{
    let text = uuid_text(*id);
    String::from_str(text.as_str().substring_char(0, 8))
}

/// Reads `id` and gives the first eight characters of its canonical text.
pub fn to_short_display_str(id: &str) -> (r: Result<String, uuid::Error>)
    ensures
        match uuid_parse(id@) {
            Some(u) => r matches Ok(s) && s@ == short_form(u),
            None => r is Err,
        },
{
    match parse_uuid(id) {
        Ok(u) => Ok(to_short_display(&u)),
        Err(e) => Err(e),
    }
}

} // verus!
