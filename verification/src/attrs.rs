//! The attribute names the binding reads and writes, and the values it writes
//! for them.

use crate::text::nul_free;
use vstd::prelude::*;

verus! {

/// Whether a widget is shown.
pub const VISIBLE: &'static str = "VISIBLE";

/// Whether a widget reacts to the user.
pub const ACTIVE: &'static str = "ACTIVE";

/// Where a widget sits relative to the top-left corner of its parent.
pub const POSITION: &'static str = "POSITION";

/// The name under which a widget can be found within its parent.
pub const NAME: &'static str = "NAME";

/// The rendered size of a widget, in pixels.
pub const RASTERSIZE: &'static str = "RASTERSIZE";

/// The global switch that makes the toolkit exchange all text as UTF-8.
pub const UTF8_MODE: &'static str = "UTF8MODE";

/// The value the toolkit reads as "true".
pub const YES: &'static str = "YES";

/// The value the toolkit reads as "false".
pub const NO: &'static str = "NO";

/// The text that stands for a boolean in an attribute.
pub open spec fn yes_no(val: bool) -> Seq<char> {
    if val {
        YES@
    } else {
        NO@
    }
}

/// The value to write for a boolean attribute: [`YES`] for `true`, [`NO`] for
/// `false`. Either can be handed to the toolkit as text.
pub fn bool_yes_no(val: bool) -> (text: &'static str)
    ensures
        text@ == yes_no(val),
        nul_free(text@),
{
    proof {
        reveal_strlit("YES");
        reveal_strlit("NO");
    }
    if val {
        YES
    } else {
        NO
    }
}

/// The two values never coincide, so a boolean can be read back from what was
/// written for it.
pub proof fn lemma_yes_no_distinct(a: bool, b: bool)
    ensures
        yes_no(a) == yes_no(b) <==> a == b,
{
    reveal_strlit("YES");
    reveal_strlit("NO");
    assert(YES@.len() == 3);
    assert(NO@.len() == 2);
}

/// One dimension of a rendered size, as the toolkit's signed integer is read
/// into an unsigned pixel count.
pub open spec fn pixels(raw: i32) -> u32 {
    raw as u32
}

/// A rendered size in pixels from the two integers the toolkit reports for
/// it. A dimension that is not negative is kept as it is.
pub fn size_pixels(width: i32, height: i32) -> (size: (u32, u32))
    ensures
        size.0 == pixels(width),
        size.1 == pixels(height),
        width >= 0 ==> size.0 == width,
        height >= 0 ==> size.1 == height,
{
    (width as u32, height as u32)
}

} // verus!
