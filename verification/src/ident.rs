//! Record identifiers.
//!
//! An identifier is a UUID, held as its 128 bits. Reading one from text,
//! writing one as text and drawing a fresh one are the work of the `uuid`
//! crate; this module states what the rest of the library relies on.

use vstd::prelude::*;

verus! {

#[verifier::external_type_specification]
#[verifier::external_body]
pub struct ExUuidError(uuid::Error);

/// The identifier that `uuid::Uuid::parse_str` reads from a text, as its 128
/// bits; `None` where it refuses the text.
pub uninterp spec fn parsed_id(text: Seq<char>) -> Option<u128>;

/// The last `digits` hexadecimal digits of `value`, in lower case.
pub open spec fn hex_of(value: nat, digits: nat) -> Seq<char>
    decreases digits,
{
    if digits == 0 {
        Seq::<char>::empty()
    } else {
        hex_of(value / 16, (digits - 1) as nat).push("0123456789abcdef"@[(value % 16) as int])
    }
}

/// An identifier in its usual written form: 32 lower-case hexadecimal digits
/// in groups of 8, 4, 4, 4 and 12, with a hyphen between the groups.
pub open spec fn hyphenated(bits: u128) -> Seq<char> {
    let h = hex_of(bits as nat, 32);
    h.subrange(0, 8) + seq!['-'] + h.subrange(8, 12) + seq!['-'] + h.subrange(12, 16) + seq!['-']
        + h.subrange(16, 20) + seq!['-'] + h.subrange(20, 32)
}

/// Whether the bits carry the marks of a randomly drawn identifier: version
/// 4 in the thirteenth hexadecimal digit, and `10` in the two highest bits of
/// the seventeenth.
pub open spec fn is_random_id(bits: u128) -> bool {
    bits & 0x0000_0000_0000_f000_c000_0000_0000_0000u128
        == 0x0000_0000_0000_4000_8000_0000_0000_0000u128
}

/// Reads an identifier with `uuid::Uuid::parse_str`. The result is the named
/// one: the bits that the crate reads from the text, or its error.
#[verifier::external_body]
fn parse_uuid(text: &str) -> (r: Result<u128, uuid::Error>)
    ensures
        match r {
            Ok(bits) => parsed_id(text@) == Some(bits),
            Err(_) => parsed_id(text@) is None,
        },
{
    match uuid::Uuid::parse_str(text) {
        Ok(id) => Ok(id.as_u128()),
        Err(e) => Err(e),
    }
}

/// Writes an identifier with `uuid::Uuid`'s `Display`, which gives the
/// hyphenated lower-case form. `parse_str` reads every form that the crate
/// writes, so it reads this text back as the same bits.
#[verifier::external_body]
fn format_uuid(bits: u128) -> (r: String)
    ensures
        r@ == hyphenated(bits),
        parsed_id(r@) == Some(bits),
{
    uuid::Uuid::from_u128(bits).to_string()
}

/// Draws an identifier with `uuid::Uuid::new_v4`. The bits are random but for
/// the version and variant marks, which the crate sets on every draw.
#[verifier::external_body]
fn random_uuid() -> (r: u128)
    ensures
        is_random_id(r),
{
    uuid::Uuid::new_v4().as_u128()
}

/// The message of a `uuid::Error`, as its `Display` writes it. Nothing is
/// claimed of the text.
#[verifier::external_body]
fn uuid_error_text(e: &uuid::Error) -> (r: String) {
    e.to_string()
}

/// The identifier of a record.
#[derive(Debug, Clone, Copy, PartialEq, Eq, Hash, Structural)]
pub struct ItemId {
    /// The 128 bits of the UUID, the first written digit highest.
    pub bits: u128,
}

impl ItemId {
    /// A fresh, randomly drawn identifier.
    pub fn generate() -> (r: ItemId)
        ensures
            is_random_id(r.bits),
    {
        ItemId { bits: random_uuid() }
    }

    /// Reads an identifier from text. Where the text is no identifier, the
    /// error holds the reason, in words.
    pub fn parse(text: &str) -> (r: Result<ItemId, String>)
        ensures
            match r {
                Ok(id) => parsed_id(text@) == Some(id.bits),
                Err(_) => parsed_id(text@) is None,
            },
    {
        match parse_uuid(text) {
            Ok(bits) => Ok(ItemId { bits }),
            Err(e) => Err(uuid_error_text(&e)),
        }
    }

    /// The identifier in its hyphenated written form.
    pub fn to_text(&self) -> (r: String)
        ensures
            r@ == hyphenated(self.bits),
            parsed_id(r@) == Some(self.bits),
    {
        format_uuid(self.bits)
    }
}

} // verus!
