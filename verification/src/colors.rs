//! Colors of the user interface, as CSS values that refer to the theme's
//! custom properties.

use vstd::prelude::*;
use vstd::string::StringExecFns;

verus! {

/// The theme's red.
pub open spec fn red_spec() -> Seq<char> {
    "var(--red)"@
}

/// The theme's yellow.
pub open spec fn yellow_spec() -> Seq<char> {
    "var(--yellow)"@
}

/// The theme's green.
pub open spec fn green_spec() -> Seq<char> {
    "var(--green)"@
}

/// The theme's red.
pub fn red() -> (color: String)
    ensures
        color@ == red_spec(),
        color@ == "var(--red)"@,
{
    String::from_str("var(--red)")
}

/// The theme's yellow.
pub fn yellow() -> (color: String)
    ensures
        color@ == yellow_spec(),
        color@ == "var(--yellow)"@,
{
    String::from_str("var(--yellow)")
}

/// The theme's green.
pub fn green() -> (color: String)
    ensures
        color@ == green_spec(),
        color@ == "var(--green)"@,
{
    String::from_str("var(--green)")
}

} // verus!
