use crate::value::Vec2;
use vstd::prelude::*;

verus! {

/// A `width` x `height` RGBA image stored row by row, four channels per pixel.
/// Each channel holds the bit pattern of a 32-bit float in `[0, 1]`.
#[derive(Clone, Debug, PartialEq, Eq)]
pub struct ColorBuffer {
    pub width: usize,
    pub height: usize,
    pub pixels: Vec<u32>,
}

/// The normalized coordinates of the pixel grid of a buffer, as float bit
/// patterns: `xs[c]` is the `u` of column `c`, `ys[j]` the `v` of the `j`-th
/// row counted from the last stored row, and `screen` the grid's size in
/// pixels.
#[derive(Clone, Debug, PartialEq, Eq)]
pub struct UvTable {
    pub xs: Vec<u32>,
    pub ys: Vec<u32>,
    pub screen: Vec2,
}

impl ColorBuffer {
    pub open spec fn well_formed(&self) -> bool {
        self.pixels@.len() == self.width * self.height * 4
    }

    /// A buffer of the given size with every channel `0.0`.
    pub fn new(width: usize, height: usize) -> (r: ColorBuffer)
        requires
            width * height * 4 <= usize::MAX,
        ensures
            r.width == width,
            r.height == height,
            r.well_formed(),
            forall|i: int| 0 <= i < r.pixels@.len() ==> r.pixels@[i] == 0,
    {
        let n: usize = width * height * 4;
        let mut pixels: Vec<u32> = Vec::new();
        let mut i: usize = 0;
        while i < n
            invariant
                i <= n,
                pixels@.len() == i,
                forall|k: int| 0 <= k < i ==> pixels@[k] == 0,
            decreases n - i,
        {
            pixels.push(0);
            i = i + 1;
        }
        ColorBuffer { width, height, pixels }
    }
}

impl UvTable {
    /// Whether the table covers a `width` x `height` grid.
    pub open spec fn fits(&self, width: nat, height: nat) -> bool {
        self.xs@.len() == width && self.ys@.len() == height
    }
}

} // verus!
