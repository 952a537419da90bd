//! The calls that the menu service makes into outside crates: identifiers
//! from `scru128` and the local wall-clock time from `chrono`.

use vstd::prelude::*;

verus! {

/// `chrono::NaiveDateTime`, the type of the creation and update stamps of a
/// menu record. Verus sees nothing inside it; the library only carries it.
#[verifier::external_type_specification]
#[verifier::external_body]
pub struct ExNaiveDateTime(chrono::NaiveDateTime);

/// A digit of the canonical textual form of a SCRU128 identifier:
/// `0`-`9` or a lower-case ASCII letter.
pub open spec fn is_id_digit(c: char) -> bool {
    ('0' <= c && c <= '9') || ('a' <= c && c <= 'z')
}

/// A string in the 25-digit canonical form of a SCRU128 identifier.
pub open spec fn is_scru128_text(s: Seq<char>) -> bool {
    s.len() == 25 && forall|i: int| 0 <= i < 25 ==> is_id_digit(#[trigger] s[i])
}

/// Calls `scru128::new_string`, which draws a fresh identifier from the
/// process-wide generator (clock and random numbers) and encodes it in the
/// 25-digit canonical Base36 form, digits and lower-case letters. Which
/// identifier comes back is left open: it depends on the time and on chance.
#[verifier::external_body]
pub(crate) fn new_menu_id() -> (id: String)
    ensures
        is_scru128_text(id@),
{
    scru128::new_string()
}

/// Calls `chrono::Local::now` and takes its `naive_local` part: the wall-clock
/// time in the machine's time zone. Nothing is stated of the value, which
/// depends on the clock and the time zone of the machine.
#[verifier::external_body]
pub(crate) fn local_now() -> (now: chrono::NaiveDateTime) {
    chrono::Local::now().naive_local()
}

} // verus!
