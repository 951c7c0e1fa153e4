use vstd::prelude::*;

use crate::key::Key;

verus! {

/// A rectangular region of the terminal.
#[derive(Clone, Copy, Debug, PartialEq, Eq, Structural)]
pub struct Rect {
    pub x: u16,
    pub y: u16,
    pub width: u16,
    pub height: u16,
}

impl Rect {
    pub fn new(x: u16, y: u16, width: u16, height: u16) -> (r: Rect)
        ensures
            r == (Rect { x, y, width, height }),
    {
        Rect { x, y, width, height }
    }
}

/// The region of the element activated by `key`, within `rect`: the query
/// takes the top three rows, the path the next three, and the results the
/// rest below them.
pub open spec fn area_for(rect: Rect, key: Key) -> Rect {
    match key {
        Key::Char('/') => Rect { height: 3, ..rect },
        Key::Char('f') => Rect { y: 3, height: 3, ..rect },
        Key::Char('r') => Rect {
            y: 6,
            height: if rect.height >= 6 {
                (rect.height - 6) as u16
            } else {
                rect.height
            },
            ..rect
        },
        _ => rect,
    }
}

/// The columns and rows that the region of the element activated by `key`
/// reaches when laid out from nothing.
pub open spec fn extent(key: Key) -> (int, int) {
    let a = area_for(Rect { x: 0, y: 0, width: 0, height: 0 }, key);
    (a.x + a.width, a.y + a.height)
}

} // verus!
