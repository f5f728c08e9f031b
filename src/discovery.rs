//! Which attached input devices the engine listens to.
use vstd::prelude::*;

verus! {

/// Whether `pat` occurs in `s` as a run of consecutive characters.
pub open spec fn occurs_in(s: Seq<char>, pat: Seq<char>) -> bool {
    exists|i: int| 0 <= i && i + pat.len() <= s.len() && #[trigger] s.subrange(i, i + pat.len()) == pat
}

/// Relies on `str::contains` with a `&str` pattern: whether `pat` occurs in
/// `s` as a contiguous substring.
#[verifier::external_body]
fn str_contains(s: &str, pat: &str) -> (r: bool)
    ensures
        r == occurs_in(s@, pat@),
{
    s.contains(pat)
}

/// The tag that the names of the supported joysticks carry.
pub open spec fn device_tag() -> Seq<char> {
    "VIRPIL"@
}

/// Whether a joystick with this display name is one to open: its name carries
/// the manufacturer tag `VIRPIL`.
pub fn is_virpil(name: &str) -> (r: bool)
    ensures
        r == occurs_in(name@, device_tag()),
{
    str_contains(name, "VIRPIL")
}

} // verus!
