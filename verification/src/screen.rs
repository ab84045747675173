//! The whole screen: the frame, and the help panel laid over it.

use vstd::prelude::*;
use vstd::string::StringExecFns;
use crate::bitmap::Bitmap;
use crate::palette::{push_background, background_text};
use crate::term::{goto_sequence, push_signed, goto_code, signed_decimal};

verus! {

/// The screen text `under` with the help panel written over its top left
/// corner: the cursor goes home, the colours go back to white on black,
/// then come the position, the key bindings and the depth, one line each.
pub open spec fn help_over(under: Seq<char>, position: Seq<char>, depth: int) -> Seq<char> {
    under + goto_code(1, 1) + background_text() + "pos:"@ + position + "\r\n"@
        + "? - Open this message\r\n"@ + "Arrows- Move Slower\r\n"@ + "wasd  - Move\r\n"@
        + "WASD  - Move Faster\r\n"@ + "+-    - Zoom\r\n"@ + "()    - Depth "@ + signed_decimal(
        depth,
    ) + "\r\n"@ + "1     - Color mode\r\n"@ + "2     - Outline mode\r\n"@ + "q     - Quit\r\n"@
}

/// The text of a full repaint: the cursor goes to the top left corner, so
/// that the frame covers the one before; the frame follows in the bitmap's
/// own mode; the help panel comes last where it is asked for.
pub open spec fn screen_text(bitmap: Bitmap, help: bool, position: Seq<char>, depth: int) -> Seq<
    char,
> {
    let frame = goto_code(1, 1) + bitmap.frame_text(bitmap.in_colour());
    if help {
        help_over(frame, position, depth)
    } else {
        frame
    }
}

/// The text of a full repaint of `bitmap`, with the help panel over it
/// where `help` is set. `position` is the viewport as the panel shows it.
pub fn display_all(bitmap: &Bitmap, help: bool, position: &str, complexity: i32) -> (s: String)
    requires
        bitmap.wf(),
    ensures
        s@ == screen_text(*bitmap, help, position@, complexity as int),
{
    let mut out = goto_sequence(1, 1);
    let frame = bitmap.display();
    out.append(frame.as_str());
    if help {
        let home = goto_sequence(1, 1);
        out.append(home.as_str());
        push_background(&mut out);
        out.append("pos:");
        out.append(position);
        out.append("\r\n");
        out.append("? - Open this message\r\n");
        out.append("Arrows- Move Slower\r\n");
        out.append("wasd  - Move\r\n");
        out.append("WASD  - Move Faster\r\n");
        out.append("+-    - Zoom\r\n");
        out.append("()    - Depth ");
        push_signed(&mut out, complexity);
        out.append("\r\n");
        out.append("1     - Color mode\r\n");
        out.append("2     - Outline mode\r\n");
        out.append("q     - Quit\r\n");
    }
    out
}

} // verus!
