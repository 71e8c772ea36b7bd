use vstd::prelude::*;

use crate::number::{decimal_of, parse_line, trimmed};

verus! {

/// A rectangle with unsigned dimensions; any pair of `u32` values is one.
#[derive(Clone, Copy, Debug, PartialEq, Eq, Structural)]
pub struct Rectangle {
    pub width: u32,
    pub height: u32,
}

/// The exact area of a rectangle with the given sides.
pub open spec fn area_of(width: u32, height: u32) -> int {
    width * height
}

/// The numbers that a sequence of input lines supplies, in order: each line
/// that reads as a number gives one, every other line gives none.
pub open spec fn supplied_values(lines: Seq<Seq<char>>) -> Seq<u32>
    decreases lines.len(),
{
    if lines.len() == 0 {
        seq![]
    } else {
        let before = supplied_values(lines.drop_last());
        match decimal_of(trimmed(lines.last())) {
            Some(v) => before.push(v),
            None => before,
        }
    }
}

/// The rectangle that a sequence of input lines builds: the first number
/// supplied is the width and the second the height; `None` while fewer than
/// two have been supplied.
pub open spec fn built_from(lines: Seq<Seq<char>>) -> Option<Rectangle> {
    let v = supplied_values(lines);
    if v.len() >= 2 {
        Some(Rectangle { width: v[0], height: v[1] })
    } else {
        None
    }
}

/// The text of each line.
pub open spec fn texts(lines: Seq<String>) -> Seq<Seq<char>> {
    lines.map_values(|l: String| l@)
}

impl Rectangle {
    /// The exact area of this rectangle.
    pub open spec fn area_spec(self) -> int {
        area_of(self.width, self.height)
    }

    pub fn new(width: u32, height: u32) -> (r: Self)
        ensures
            r.width == width,
            r.height == height,
    {
        Self { width, height }
    }

    /// Width times height. The product must fit in `u32`; `checked_area`
    /// tells whether it does.
    pub fn area(&self) -> (r: u32)
        requires
            self.area_spec() <= u32::MAX,
        ensures
            r == self.area_spec(),
    {
        self.width * self.height
    }

    /// Width times height, or `None` where the product does not fit in `u32`.
    pub fn checked_area(&self) -> (r: Option<u32>)
        ensures
            r == (if self.area_spec() <= u32::MAX {
                Some(self.area_spec() as u32)
            } else {
                None
            }),
    {
        self.width.checked_mul(self.height)
    }

    /// Builds a rectangle from lines of input as the prompts would read
    /// them: lines that are not numbers are passed over, the first number
    /// is the width and the next the height. `None` where the lines supply
    /// fewer than two numbers.
    pub fn build(lines: &Vec<String>) -> (r: Option<Rectangle>)
        ensures
            r == built_from(texts(lines@)),
    {
        let ghost all = texts(lines@);
        let mut builder = RectangleBuilder::start();
        let mut i: usize = 0;
        while i < lines.len()
            invariant
                i <= lines.len(),
                all == texts(lines@),
                builder.matches(supplied_values(all.subrange(0, i as int))),
            decreases lines.len() - i,
        {
            let ghost before = all.subrange(0, i as int);
            let ghost after = all.subrange(0, i + 1);
            assert(after.drop_last() == before);
            assert(after.last() == lines@[i as int]@);
            if builder.next_field().is_some() {
                builder.feed(lines[i].as_str());
            }
            i = i + 1;
        }
        assert(all.subrange(0, lines.len() as int) == all);
        builder.finish()
    }
}

/// Width times height, the product fitting in `u32`.
pub fn area(rect: &Rectangle) -> (r: u32)
    requires
        rect.area_spec() <= u32::MAX,
    ensures
        r == rect.area_spec(),
{
    rect.height * rect.width
}

/// The side of a rectangle that a prompt asks for.
#[derive(Clone, Copy, Debug, PartialEq, Eq, Structural)]
pub enum Field {
    Width,
    Height,
}

/// What became of one line of input given for a side.
#[derive(Clone, Copy, Debug, PartialEq, Eq, Structural)]
pub enum FieldReply {
    /// The line is no number: ask for the same side again.
    Retry,
    /// The line gave this value to the side.
    Accepted(u32),
}

/// The reply to a line that reads as `parsed`.
pub open spec fn reply_for(parsed: Option<u32>) -> FieldReply {
    match parsed {
        Some(v) => FieldReply::Accepted(v),
        None => FieldReply::Retry,
    }
}

/// Gathers the two sides of a rectangle from lines of input, width first.
#[derive(Clone, Copy, Debug, PartialEq, Eq, Structural)]
pub struct RectangleBuilder {
    pub width: Option<u32>,
    pub height: Option<u32>,
}

impl RectangleBuilder {
    /// A height is only ever given after the width.
    pub open spec fn wf(self) -> bool {
        self.width.is_none() ==> self.height.is_none()
    }

    /// This builder holds the first two of the values `v`, as many as there are.
    pub open spec fn matches(self, v: Seq<u32>) -> bool {
        &&& self.width == (if v.len() >= 1 { Some(v[0]) } else { None::<u32> })
        &&& self.height == (if v.len() >= 2 { Some(v[1]) } else { None::<u32> })
    }

    /// The side asked for next, if any is left.
    pub open spec fn next_field_spec(self) -> Option<Field> {
        if self.width.is_none() {
            Some(Field::Width)
        } else if self.height.is_none() {
            Some(Field::Height)
        } else {
            None
        }
    }

    pub fn start() -> (r: Self)
        ensures
            r.width.is_none(),
            r.height.is_none(),
            r.wf(),
    {
        RectangleBuilder { width: None, height: None }
    }

    /// The side asked for next; `None` once both are known.
    pub fn next_field(&self) -> (r: Option<Field>)
        ensures
            r == self.next_field_spec(),
    {
        if self.width.is_none() {
            Some(Field::Width)
        } else if self.height.is_none() {
            Some(Field::Height)
        } else {
            None
        }
    }

    /// Takes one line of input for the side asked for next. A line that
    /// reads as a number fills that side; any other line leaves the builder
    /// as it was, to ask for the same side again.
    pub fn feed(&mut self, line: &str) -> (r: FieldReply)
        requires
            old(self).wf(),
            old(self).next_field_spec().is_some(),
        ensures
            r == reply_for(decimal_of(trimmed(line@))),
            final(self).wf(),
            r == FieldReply::Retry ==> *final(self) == *old(self),
            forall|v: u32| r == FieldReply::Accepted(v) ==> {
                if old(self).width.is_none() {
                    *final(self) == (RectangleBuilder { width: Some(v), height: None })
                } else {
                    *final(self) == (RectangleBuilder { width: old(self).width, height: Some(v) })
                }
            },
    {
        match parse_line(line) {
            Some(v) => {
                if self.width.is_none() {
                    self.width = Some(v);
                } else {
                    self.height = Some(v);
                }
                FieldReply::Accepted(v)
            },
            None => FieldReply::Retry,
        }
    }

    /// The rectangle, once both sides are known.
    pub fn finish(&self) -> (r: Option<Rectangle>)
        ensures
            r == (match (self.width, self.height) {
                (Some(w), Some(h)) => Some(Rectangle { width: w, height: h }),
                _ => None,
            }),
    {
        match (self.width, self.height) {
            (Some(w), Some(h)) => Some(Rectangle::new(w, h)),
            _ => None,
        }
    }
}

/// The rectangle made from any two sides has exactly their product as its
/// area, and `area` may be taken of it exactly when that product fits in
/// `u32`; otherwise `checked_area` reports `None`.
pub proof fn lemma_area_of_new(w: u32, h: u32)
    ensures
        (Rectangle { width: w, height: h }).area_spec() == w as int * h as int,
        (Rectangle { width: w, height: h }).area_spec() <= u32::MAX <==> w as int * h as int <= u32::MAX,
{
}

} // verus!
