//! RGB colors and the allocator that picks a color not yet taken.

use rand::Rng;
use vstd::prelude::*;

verus! {

/// An opaque RGB color, one byte per channel.
#[derive(Clone, Copy, PartialEq, Eq, Structural, Debug, Hash)]
pub struct Color {
    pub r: u8,
    pub g: u8,
    pub b: u8,
}

/// Number of distinct RGB colors: three independent 8-bit channels.
pub const COLOR_SPACE: usize = 0x100_0000;

impl Color {
    pub fn from_rgb(r: u8, g: u8, b: u8) -> (c: Color)
        ensures
            c == (Color { r, g, b }),
    {
        Color { r, g, b }
    }
}

/// Position of the first occurrence of `x` in `s`, if any.
pub open spec fn is_first_index<T>(s: Seq<T>, x: T, i: int) -> bool {
    &&& 0 <= i < s.len()
    &&& s[i] == x
    &&& forall|j: int| 0 <= j < i ==> s[j] != x
}

/// Whether `color` occurs in `colors`.
pub fn contains_color(colors: &[Color], color: Color) -> (r: bool)
    ensures
        r == colors@.contains(color),
{
    match find_color_index(colors, color) {
        Some(_) => true,
        None => false,
    }
}

/// Position of the first occurrence of `color` in `colors`.
pub fn find_color_index(colors: &[Color], color: Color) -> (r: Option<usize>)
    ensures
        match r {
            Some(i) => is_first_index(colors@, color, i as int),
            None => !colors@.contains(color),
        },
{
    let mut i: usize = 0;
    while i < colors.len()
        invariant
            i <= colors@.len(),
            forall|j: int| 0 <= j < i ==> colors@[j] != color,
        decreases colors@.len() - i,
    {
        if colors[i] == color {
            return Some(i);
        }
        i += 1;
    }
    None
}

/// Relies on `rand::Rng::gen_range` over `rand::thread_rng()`: a uniformly
/// drawn byte (the full range `0..=255` is never empty, so the call does not
/// panic). Nothing is promised of the value.
#[verifier::external_body]
fn random_channel() -> (r: u8) {
    rand::thread_rng().gen_range(0..=255u8)
}

/// A color with three independently drawn channels.
fn draw_color() -> (c: Color) {
    let r = random_channel();
    let g = random_channel();
    let b = random_channel();
    Color { r, g, b }
}

/// What the allocator settled on, and how many attempts had been counted
/// when it stopped.
#[derive(Clone, Copy, PartialEq, Eq, Structural, Debug)]
pub struct Allocation {
    pub color: Color,
    pub attempts: usize,
}

impl Allocation {
    /// The allocator gave up: the attempt bound (the size of the color
    /// space) was reached and `color` may collide with a taken one.
    pub open spec fn exhausted(self) -> bool {
        self.attempts >= COLOR_SPACE
    }
}

/// Picks a color for a new tag. `preferred` is kept when it is free;
/// otherwise random colors are drawn until one is free, for at most
/// `COLOR_SPACE` attempts in all, counting from `attempts`. On exhaustion the
/// last drawn color is returned even if it is taken.
pub fn allocate_from(taken: &[Color], preferred: Color, attempts: usize) -> (r: Allocation)
    ensures
        !taken@.contains(preferred) ==> r == (Allocation { color: preferred, attempts }),
        !r.exhausted() ==> !taken@.contains(r.color),
        attempts <= r.attempts,
        r.attempts <= attempts || r.attempts <= COLOR_SPACE,
{
    let mut color = preferred;
    let mut count = attempts;
    while contains_color(taken, color) && count < COLOR_SPACE
        invariant
            attempts <= count,
            count <= attempts || count <= COLOR_SPACE,
            !taken@.contains(preferred) ==> color == preferred && count == attempts,
        decreases COLOR_SPACE - count,
    {
        color = draw_color();
        count = count + 1;
    }
    Allocation { color, attempts: count }
}

/// Picks a color not in `taken`, preferring `preferred`; see `allocate_from`.
pub fn allocate(taken: &[Color], preferred: Color) -> (r: Allocation)
    ensures
        !taken@.contains(preferred) ==> r == (Allocation { color: preferred, attempts: 0 }),
        !r.exhausted() ==> !taken@.contains(r.color),
        r.attempts <= COLOR_SPACE,
{
    allocate_from(taken, preferred, 0)
}

} // verus!
