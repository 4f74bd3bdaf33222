//! Aggregate identifiers: 128-bit UUIDs, written and read through the `uuid` crate.
use vstd::prelude::*;

verus! {

/// The lowercase hexadecimal digit of `n` (`0..=15`).
pub open spec fn hex_digit(n: nat) -> char {
    if n < 10 {
        (n + 48) as char
    } else {
        (n + 87) as char
    }
}

/// The `i`-th hexadecimal digit of `id`, counted from the most significant one.
pub open spec fn nibble(id: u128, i: int) -> nat {
    ((id >> ((31 - i) * 4) as u128) % 16) as nat
}

/// The 32 lowercase hexadecimal digits of `id`, most significant first.
pub open spec fn uuid_hex(id: u128) -> Seq<char> {
    Seq::new(32, |i: int| hex_digit(nibble(id, i)))
}

/// The hyphenated lowercase text of a UUID (`8-4-4-4-12` digits), which is
/// what `uuid::Uuid` displays.
pub open spec fn uuid_text(id: u128) -> Seq<char> {
    let h = uuid_hex(id);
    h.subrange(0, 8) + seq!['-'] + h.subrange(8, 12) + seq!['-'] + h.subrange(12, 16) + seq!['-']
        + h.subrange(16, 20) + seq!['-'] + h.subrange(20, 32)
}

/// What `uuid::Uuid::try_parse` returns for a text: the UUID as a `u128`, or
/// the message of its error.
pub uninterp spec fn uuid_parse(s: Seq<char>) -> Result<u128, Seq<char>>;

/// A successful parse of `id`.
pub open spec fn parsed_as(id: u128) -> Result<u128, Seq<char>> {
    Ok(id)
}

/// The view of a parse result whose error is a message.
pub open spec fn parse_view(r: Result<u128, String>) -> Result<u128, Seq<char>> {
    match r {
        Ok(v) => Ok(v),
        Err(m) => Err(m@),
    }
}

/// The text of a UUID holds only hexadecimal digits and hyphens.
pub proof fn lemma_uuid_text_chars(id: u128)
    ensures
        uuid_text(id).len() == 36,
        forall|i: int|
            0 <= i < 36 ==> {
                let c = #[trigger] uuid_text(id)[i];
                ('0' <= c <= '9') || ('a' <= c <= 'f') || c == '-'
            },
{
    let h = uuid_hex(id);
    assert forall|i: int| 0 <= i < 32 implies {
        let c = #[trigger] h[i];
        ('0' <= c <= '9') || ('a' <= c <= 'f')
    } by {
        let n = nibble(id, i);
        assert(n < 16);
    }
}

/// Parse a UUID with `uuid::Uuid::try_parse`.
///
/// The contract claims that the result is `uuid_parse` of the text: the UUID
/// as its big-endian `u128`, or the displayed message of the crate's error.
#[verifier::external_body]
pub(crate) fn parse_uuid(s: &str) -> (r: Result<u128, String>)
    ensures
        parse_view(r) == uuid_parse(s@),
{
    match uuid::Uuid::try_parse(s) {
        Ok(u) => Ok(u.as_u128()),
        Err(e) => Err(e.to_string()),
    }
}

/// Display a UUID with `uuid::Uuid`'s `Display` (its hyphenated lowercase form).
///
/// The contract claims the text is `uuid_text(id)` and that `Uuid::try_parse`
/// reads that text back as the same UUID.
#[verifier::external_body]
pub(crate) fn uuid_string(id: u128) -> (r: String)
    ensures
        r@ == uuid_text(id),
        uuid_parse(r@) == parsed_as(id),
{
    uuid::Uuid::from_u128(id).to_string()
}

} // verus!
