use vstd::prelude::*;

verus! {

/// Pixel dimensions of a physical display.
#[derive(Clone, Copy, Debug, PartialEq, Eq, Structural)]
pub struct GraphicsDisplaySize {
    pub height: u32,
    pub width: u32,
}

/// The size of a numbered display, from the firmware's answer to the size
/// query: its status code and the width and height it wrote. Only a zero
/// status gives a size; any other status (a display number out of range or
/// not attached) gives `None`, whatever the two dimensions hold.
pub fn graphics_get_display_size(status: i32, width: u32, height: u32) -> (r: Option<
    GraphicsDisplaySize,
>)
    ensures
        r == (if status == 0 {
            Some(GraphicsDisplaySize { height, width })
        } else {
            None
        }),
{
    if status == 0 {
        Some(GraphicsDisplaySize { height, width })
    } else {
        None
    }
}

} // verus!
