//! Encoder for the raw multi-touch command stream: one command per line,
//! `d`/`m` with slot, position and pressure, `u` with a slot, `c` to commit.
use vstd::prelude::*;

use crate::text::{decimal, push_decimal};

verus! {

/// A contact point in device pixels, with pressure in percent.
#[derive(Debug, Clone, Copy, PartialEq, Eq, Structural)]
pub struct TouchPoint {
    pub slot: u8,
    pub x: u32,
    pub y: u32,
    pub pressure: u32,
}

impl TouchPoint {
    pub fn new(slot: u8, x: u32, y: u32, pressure: u32) -> (r: Self)
        ensures
            r == (TouchPoint { slot, x, y, pressure }),
    {
        TouchPoint { slot, x, y, pressure }
    }
}

/// The command line `<tag> slot x y pressure`.
pub open spec fn point_line(tag: char, p: TouchPoint) -> Seq<char> {
    seq![tag] + " "@ + decimal(p.slot as nat) + " "@ + decimal(p.x as nat) + " "@ + decimal(
        p.y as nat,
    ) + " "@ + decimal(p.pressure as nat)
}

/// The command line `u slot`.
pub open spec fn up_line(slot: u8) -> Seq<char> {
    "u "@ + decimal(slot as nat)
}

/// The command line that commits the batch.
pub open spec fn commit_line() -> Seq<char> {
    "c"@
}

/// The stream for `lines`: each line followed by a line feed.
pub open spec fn payload_text(lines: Seq<Seq<char>>) -> Seq<char>
    decreases lines.len(),
{
    if lines.len() == 0 {
        Seq::empty()
    } else {
        payload_text(lines.drop_last()) + lines.last() + "\n"@
    }
}

/// Accumulates the command lines of one batch.
#[derive(Debug, Clone)]
pub struct MinitouchBuilder {
    lines: Vec<String>,
}

impl View for MinitouchBuilder {
    type V = Seq<Seq<char>>;

    closed spec fn view(&self) -> Seq<Seq<char>> {
        self.lines@.map_values(|l: String| l@)
    }
}

impl Default for MinitouchBuilder {
    fn default() -> (r: Self)
        ensures
            r@ == Seq::<Seq<char>>::empty(),
    {
        let r = MinitouchBuilder { lines: Vec::new() };
        assert(r@ =~= Seq::<Seq<char>>::empty());
        r
    }
}

fn point_text(tag: &str, point: TouchPoint) -> (r: String)
    requires
        tag@.len() == 1,
    ensures
        r@ == point_line(tag@[0], point),
{
    let mut s = String::from_str(tag);
    s.append(" ");
    push_decimal(&mut s, point.slot as u64);
    s.append(" ");
    push_decimal(&mut s, point.x as u64);
    s.append(" ");
    push_decimal(&mut s, point.y as u64);
    s.append(" ");
    push_decimal(&mut s, point.pressure as u64);
    assert(tag@ =~= seq![tag@[0]]);
    s
}

impl MinitouchBuilder {
    fn push_line(self, line: String) -> (r: Self)
        ensures
            r@ == self@.push(line@),
    {
        let mut lines = self.lines;
        lines.push(line);
        let r = MinitouchBuilder { lines };
        assert(r@ =~= self@.push(line@));
        r
    }

    /// Adds a contact going down.
    pub fn down(self, point: TouchPoint) -> (r: Self)
        ensures
            r@ == self@.push(point_line('d', point)),
    {
        proof {
            reveal_strlit("d");
        }
        self.push_line(point_text("d", point))
    }

    /// Adds a contact moving.
    pub fn move_to(self, point: TouchPoint) -> (r: Self)
        ensures
            r@ == self@.push(point_line('m', point)),
    {
        proof {
            reveal_strlit("m");
        }
        self.push_line(point_text("m", point))
    }

    /// Adds a contact lifting.
    pub fn up(self, slot: u8) -> (r: Self)
        ensures
            r@ == self@.push(up_line(slot)),
    {
        let mut s = String::from_str("u ");
        push_decimal(&mut s, slot as u64);
        self.push_line(s)
    }

    /// Adds the commit line.
    pub fn commit(self) -> (r: Self)
        ensures
            r@ == self@.push(commit_line()),
    {
        self.push_line(String::from_str("c"))
    }

    /// The command stream: each line followed by a line feed; empty when no
    /// line was added.
    pub fn to_string(&self) -> (r: String)
        ensures
            r@ == payload_text(self@),
    {
        let mut out = String::new();
        let mut i: usize = 0;
        while i < self.lines.len()
            invariant
                i <= self.lines@.len(),
                self@ == self.lines@.map_values(|l: String| l@),
                out@ == payload_text(self@.subrange(0, i as int)),
            decreases self.lines@.len() - i,
        {
            out.append(self.lines[i].as_str());
            out.append("\n");
            assert(self@.subrange(0, i + 1).drop_last() =~= self@.subrange(0, i as int));
            i = i + 1;
        }
        assert(self@.subrange(0, i as int) =~= self@);
        out
    }
}

} // verus!
