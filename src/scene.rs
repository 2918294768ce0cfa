use vstd::prelude::*;

use crate::err::{self, Error};

verus! {

/// Bytes in one vertex component, a 32-bit float.
pub const COMPONENT_BYTES: usize = 4;

/// Components per vertex: a position of three, then a color of three.
pub const VERTEX_COMPONENTS: usize = 6;

/// How the driver reads one vertex attribute out of the vertex buffer.
#[derive(Clone, Copy, Debug, PartialEq, Eq, Structural)]
pub struct Attribute {
    /// The attribute's location in the vertex shader.
    pub index: u32,
    /// Components per attribute.
    pub components: i32,
    /// Bytes from one vertex's attribute to the next one's.
    pub stride: i32,
    /// Bytes from the start of the buffer to the first component.
    pub offset: usize,
}

/// The vertex layout: position at location 0 and color at location 1, both
/// three components, interleaved in that order within each vertex.
pub fn vertex_attributes() -> (r: Vec<Attribute>)
    ensures
        r@ == seq![
            Attribute { index: 0, components: 3, stride: 24, offset: 0 },
            Attribute { index: 1, components: 3, stride: 24, offset: 12 },
        ],
{
    let stride = (VERTEX_COMPONENTS * COMPONENT_BYTES) as i32;
    let position = Attribute { index: 0, components: 3, stride, offset: 0 };
    let color = Attribute { index: 1, components: 3, stride, offset: 3 * COMPONENT_BYTES };
    let mut r: Vec<Attribute> = Vec::new();
    r.push(position);
    r.push(color);
    assert(r@ =~= seq![
        Attribute { index: 0, components: 3, stride: 24, offset: 0 },
        Attribute { index: 1, components: 3, stride: 24, offset: 12 },
    ]);
    r
}

/// The size in bytes of a vertex buffer of `components` components, where it
/// fits the driver's signed size type.
pub fn buffer_bytes(components: usize) -> (r: Option<isize>)
    ensures
        components * COMPONENT_BYTES <= isize::MAX <==> r is Some,
        r is Some ==> r->Some_0 == components * COMPONENT_BYTES,
{
    if components > (isize::MAX as usize) / COMPONENT_BYTES {
        None
    } else {
        Some((components * COMPONENT_BYTES) as isize)
    }
}

/// The viewport for a window of `width` by `height` pixels, in the driver's
/// signed sizes. A side too large for them is refused, the width first.
pub fn viewport_size(width: u32, height: u32) -> (r: Result<(i32, i32), Error>)
    ensures
        width <= i32::MAX && height <= i32::MAX <==> r is Ok,
        r is Ok ==> r->Ok_0 == (width as i32, height as i32),
        width > i32::MAX ==> r is Err && r->Err_0 is Other
            && r->Err_0->Other_message@ == "Window width too large"@,
        width <= i32::MAX && height > i32::MAX ==> r is Err && r->Err_0 is Other
            && r->Err_0->Other_message@ == "Window height too large"@,
{
    if width > i32::MAX as u32 {
        return Err(err::new("Window width too large"));
    }
    if height > i32::MAX as u32 {
        return Err(err::new("Window height too large"));
    }
    Ok((width as i32, height as i32))
}

/// An input event, as far as the render loop cares.
#[derive(Clone, Copy, Debug, PartialEq, Eq, Structural)]
pub enum InputEvent {
    /// The user asked to close the window.
    Quit,
    /// Anything else.
    Other,
}

/// Whether the render loop goes on after a poll that gave `events`: it stops
/// as soon as one of them asks to quit.
pub fn keep_running(events: &Vec<InputEvent>) -> (r: bool)
    ensures
        r <==> forall|i: int| 0 <= i < events@.len() ==> events@[i] != InputEvent::Quit,
{
    let mut i: usize = 0;
    while i < events.len()
        invariant
            0 <= i <= events@.len(),
            forall|j: int| 0 <= j < i ==> events@[j] != InputEvent::Quit,
        decreases events@.len() - i,
    {
        if events[i] == InputEvent::Quit {
            return false;
        }
        i = i + 1;
    }
    true
}

} // verus!
