//! The hexagram data model: six ordered lines, read top to bottom, and
//! the 6-bit binary encoding that gives a hexagram its identity.

use vstd::prelude::*;

verus! {

/// One line of a hexagram: solid ("yang", value 1) or broken ("yin",
/// value 0).
#[derive(Debug, Copy, Clone, PartialEq, Eq, Structural)]
pub enum LineType {
    Yang,
    Yin,
}

impl LineType {
    /// The complementary line: solid becomes broken and broken becomes
    /// solid.
    pub open spec fn complement(self) -> LineType {
        match self {
            LineType::Yang => LineType::Yin,
            LineType::Yin => LineType::Yang,
        }
    }

    /// The bit a line contributes to the binary id: solid is 1, broken
    /// is 0.
    pub open spec fn bit(self) -> int {
        match self {
            LineType::Yang => 1,
            LineType::Yin => 0,
        }
    }

    /// Complement this line.
    pub fn not(self) -> (r: LineType)
        ensures
            r == self.complement(),
    {
        match self {
            LineType::Yang => LineType::Yin,
            LineType::Yin => LineType::Yang,
        }
    }
}

/// The line that stands for a bit: 1 is solid, anything else broken.
pub open spec fn line_of_bit(b: int) -> LineType {
    if b == 1 {
        LineType::Yang
    } else {
        LineType::Yin
    }
}

/// The binary id of a six-line sequence read top to bottom: the topmost
/// line contributes the most significant bit, so the id is
/// sum of line i times 2^(5 - i).
pub open spec fn bin_id_of(s: Seq<LineType>) -> int
    recommends
        s.len() == 6,
{
    32 * s[0].bit() + 16 * s[1].bit() + 8 * s[2].bit() + 4 * s[3].bit() + 2 * s[4].bit()
        + s[5].bit()
}

/// The six-line sequence whose binary id is `id`: line i is bit 5 - i
/// of `id`.
pub open spec fn lines_of(id: int) -> Seq<LineType>
    recommends
        0 <= id < 64,
{
    seq![
        line_of_bit(id / 32 % 2),
        line_of_bit(id / 16 % 2),
        line_of_bit(id / 8 % 2),
        line_of_bit(id / 4 % 2),
        line_of_bit(id / 2 % 2),
        line_of_bit(id % 2),
    ]
}

/// A hexagram: exactly six lines, index 0 being the topmost.
#[derive(Debug, Clone, PartialEq, Eq)]
pub struct Hexagram {
    lines: Vec<LineType>,
}

impl View for Hexagram {
    type V = Seq<LineType>;

    closed spec fn view(&self) -> Seq<LineType> {
        self.lines@
    }
}

impl Hexagram {
    /// A hexagram always holds exactly six lines.
    pub open spec fn wf(self) -> bool {
        self@.len() == 6
    }

    /// A new hexagram with all six lines solid.
    pub fn new() -> (h: Hexagram)
        ensures
            h.wf(),
            forall|i: int| 0 <= i < 6 ==> h@[i] == LineType::Yang,
    {
        let mut lines: Vec<LineType> = Vec::new();
        lines.push(LineType::Yang);
        lines.push(LineType::Yang);
        lines.push(LineType::Yang);
        lines.push(LineType::Yang);
        lines.push(LineType::Yang);
        lines.push(LineType::Yang);
        Hexagram { lines }
    }

    /// Build a hexagram from its lines, topmost first.  Handing in any
    /// other number of lines than six is a contract violation.
    pub fn from_lines(lines: Vec<LineType>) -> (h: Hexagram)
        requires
            lines@.len() == 6,
        ensures
            h.wf(),
            h@ == lines@,
    {
        Hexagram { lines }
    }

    /// The six lines from top to bottom, as an owned vector.
    pub fn lines(&self) -> (r: Vec<LineType>)
        ensures
            r@ == self@,
    {
        let mut r: Vec<LineType> = Vec::new();
        let mut i: usize = 0;
        while i < self.lines.len()
            invariant
                i <= self.lines.len(),
                r@.len() == i,
                forall|j: int| 0 <= j < i ==> r@[j] == self@[j],
            decreases self.lines.len() - i,
        {
            r.push(self.lines[i]);
            i += 1;
        }
        proof {
            assert(r@ =~= self@);
        }
        r
    }

    /// Set line `i` to `line_type`.  Returns true iff the stored value
    /// differed and was updated.  An index outside [0, 6) is a contract
    /// violation.
    pub fn set_line(&mut self, i: usize, line_type: LineType) -> (changed: bool)
        requires
            old(self).wf(),
            i < 6,
        ensures
            final(self).wf(),
            final(self)@ == old(self)@.update(i as int, line_type),
            changed == (old(self)@[i as int] != line_type),
    {
        if self.lines[i] != line_type {
            self.lines[i] = line_type;
            true
        } else {
            proof {
                assert(self@.update(i as int, line_type) =~= self@);
            }
            false
        }
    }

    /// Flip line `i`: solid becomes broken and broken becomes solid.
    /// An index outside [0, 6) is a contract violation.
    pub fn switch_line(&mut self, i: usize)
        requires
            old(self).wf(),
            i < 6,
        ensures
            final(self).wf(),
            final(self)@ == old(self)@.update(i as int, old(self)@[i as int].complement()),
    {
        let cur: LineType = self.lines[i];
        self.lines[i] = cur.not();
    }

    /// The 6-bit binary id of this hexagram, in [0, 64): solid lines are
    /// 1-bits, broken lines 0-bits, topmost line most significant.
    pub fn bin_id(&self) -> (id: usize)
        requires
            self.wf(),
        ensures
            id as int == bin_id_of(self@),
            id < 64,
    {
        let b0: usize = bit_of(self.lines[0]);
        let b1: usize = bit_of(self.lines[1]);
        let b2: usize = bit_of(self.lines[2]);
        let b3: usize = bit_of(self.lines[3]);
        let b4: usize = bit_of(self.lines[4]);
        let b5: usize = bit_of(self.lines[5]);
        32 * b0 + 16 * b1 + 8 * b2 + 4 * b3 + 2 * b4 + b5
    }

    /// The Unicode character of this hexagram, looked up by binary id.
    pub fn as_char(&self) -> (c: char)
        requires
            self.wf(),
        ensures
            c == crate::table::hexagram_entry(bin_id_of(self@)).0,
    {
        crate::table::entry_of(self.bin_id()).0
    }

    /// The traditional King Wen number of this hexagram, in [1, 64],
    /// looked up by binary id.
    pub fn id(&self) -> (t: usize)
        requires
            self.wf(),
        ensures
            t as int == crate::table::hexagram_entry(bin_id_of(self@)).1,
    {
        crate::table::entry_of(self.bin_id()).1
    }

    /// The Chinese name of this hexagram, looked up by binary id.
    pub fn name(&self) -> (n: &'static str)
        requires
            self.wf(),
        ensures
            n@ == crate::table::hexagram_entry(bin_id_of(self@)).2,
    {
        crate::table::entry_of(self.bin_id()).2
    }

    /// Element-wise equality of the two line sequences.
    pub fn eq_lines(&self, other: &Hexagram) -> (r: bool)
        ensures
            r == (self@ == other@),
    {
        if self.lines.len() != other.lines.len() {
            return false;
        }
        let mut i: usize = 0;
        while i < self.lines.len()
            invariant
                i <= self.lines.len(),
                self.lines.len() == other.lines.len(),
                forall|j: int| 0 <= j < i ==> self@[j] == other@[j],
            decreases self.lines.len() - i,
        {
            if self.lines[i] != other.lines[i] {
                return false;
            }
            i += 1;
        }
        proof {
            assert(self@ =~= other@);
        }
        true
    }
}

/// The bit of a single line as a machine integer.
fn bit_of(l: LineType) -> (b: usize)
    ensures
        b as int == l.bit(),
{
    match l {
        LineType::Yang => 1,
        LineType::Yin => 0,
    }
}

/// The binary id of any six-line sequence lies in [0, 64).
pub proof fn lemma_bin_id_bounds(s: Seq<LineType>)
    requires
        s.len() == 6,
    ensures
        0 <= bin_id_of(s) < 64,
{
}

/// Building the line sequence of an id and reading its binary id back
/// yields the id again: every id in [0, 64) is the binary id of some
/// hexagram.
pub proof fn lemma_bin_id_onto(id: int)
    requires
        0 <= id < 64,
    ensures
        lines_of(id).len() == 6,
        bin_id_of(lines_of(id)) == id,
{
}

/// Reading the binary id of a six-line sequence and building the line
/// sequence of that id yields the original sequence: the encoding loses
/// nothing.
pub proof fn lemma_bin_id_round_trip(s: Seq<LineType>)
    requires
        s.len() == 6,
    ensures
        lines_of(bin_id_of(s)) =~= s,
{
    assert(s[0].bit() == 0 || s[0].bit() == 1);
    assert(s[1].bit() == 0 || s[1].bit() == 1);
    assert(s[2].bit() == 0 || s[2].bit() == 1);
    assert(s[3].bit() == 0 || s[3].bit() == 1);
    assert(s[4].bit() == 0 || s[4].bit() == 1);
    assert(s[5].bit() == 0 || s[5].bit() == 1);
}

/// Two six-line sequences with the same binary id are the same
/// sequence: the encoding is injective.
pub proof fn lemma_bin_id_injective(s1: Seq<LineType>, s2: Seq<LineType>)
    requires
        s1.len() == 6,
        s2.len() == 6,
        bin_id_of(s1) == bin_id_of(s2),
    ensures
        s1 =~= s2,
{
    lemma_bin_id_round_trip(s1);
    lemma_bin_id_round_trip(s2);
}

/// Flipping the same line twice restores the hexagram: `switch_line` is
/// an involution.
pub proof fn lemma_switch_involution(s: Seq<LineType>, i: int)
    requires
        s.len() == 6,
        0 <= i < 6,
    ensures
        s.update(i, s[i].complement()).update(
            i,
            s.update(i, s[i].complement())[i].complement(),
        ) =~= s,
{
}

} // verus!
