//! The three-coin generation of hexagram pairs.
//!
//! A generation event makes eighteen coin tosses, three per line.  The
//! "present" hexagram and the "future" hexagram are both derived from
//! the same eighteen tosses, under two different head-count rules, so
//! the two are correlated by construction.

use crate::hexagram::Hexagram;
use crate::hexagram::LineType;
use vstd::prelude::*;

verus! {

/// A toss counted as heads contributes 1, tails 0.
pub open spec fn head(b: bool) -> int {
    if b {
        1
    } else {
        0
    }
}

/// The number of heads among the three tosses of line group `k`.
pub open spec fn heads_in_group(drops: Seq<bool>, k: int) -> int
    recommends
        drops.len() == 18,
        0 <= k < 6,
{
    head(drops[3 * k]) + head(drops[3 * k + 1]) + head(drops[3 * k + 2])
}

/// The present-hexagram rule: 1 or 3 heads give a solid line, 0 or 2 a
/// broken one.
pub open spec fn present_line(count: int) -> LineType {
    if count == 1 || count == 3 {
        LineType::Yang
    } else {
        LineType::Yin
    }
}

/// The future-hexagram rule on the same tosses: 0 or 1 heads give a
/// solid line, 2 or 3 a broken one.
pub open spec fn future_line(count: int) -> LineType {
    if count == 0 || count == 1 {
        LineType::Yang
    } else {
        LineType::Yin
    }
}

/// The six present-hexagram lines of a toss sequence: group k, read in
/// generation order, fills line k, top to bottom.
pub open spec fn present_lines(drops: Seq<bool>) -> Seq<LineType>
    recommends
        drops.len() == 18,
{
    Seq::new(6, |k: int| present_line(heads_in_group(drops, k)))
}

/// The six future-hexagram lines of the same toss sequence.
pub open spec fn future_lines(drops: Seq<bool>) -> Seq<LineType>
    recommends
        drops.len() == 18,
{
    Seq::new(6, |k: int| future_line(heads_in_group(drops, k)))
}

/// The fixed initial toss pattern: (heads, tails, tails) repeated for
/// each of the six line groups, so the derived initial hexagrams render
/// as a neutral all-solid state before the first generation event.
pub open spec fn default_drops() -> Seq<bool> {
    Seq::new(18, |i: int| i % 3 == 0)
}

/// Simulates the traditional three-coin method: holds the eighteen
/// tosses of the latest generation event (or the fixed initial pattern)
/// and derives the present and future hexagrams from them.
#[derive(Debug, Clone)]
pub struct HexagramGenerator {
    coin_drops: Vec<bool>,
}

impl View for HexagramGenerator {
    type V = Seq<bool>;

    closed spec fn view(&self) -> Seq<bool> {
        self.coin_drops@
    }
}

/// Relies on rand::random: one draw of a uniformly distributed boolean
/// from the thread-local generator.  Nothing can be promised of the
/// value drawn.
#[verifier::external_body]
fn coin_toss() -> bool {
    rand::random()
}

impl HexagramGenerator {
    /// A generator always holds exactly eighteen tosses.
    pub open spec fn wf(self) -> bool {
        self@.len() == 18
    }

    /// A generator holding the fixed initial toss pattern.
    pub fn new() -> (g: HexagramGenerator)
        ensures
            g.wf(),
            g@ == default_drops(),
    {
        HexagramGenerator { coin_drops: Self::default_coin_drops() }
    }

    /// A generator holding a recorded toss sequence, first-generated
    /// group first.  Handing in any other number of tosses than
    /// eighteen is a contract violation.
    pub fn from_coin_drops(drops: Vec<bool>) -> (g: HexagramGenerator)
        requires
            drops@.len() == 18,
        ensures
            g.wf(),
            g@ == drops@,
    {
        HexagramGenerator { coin_drops: drops }
    }

    /// The stored tosses, as an owned vector.
    pub fn coin_drops(&self) -> (r: Vec<bool>)
        ensures
            r@ == self@,
    {
        let mut r: Vec<bool> = Vec::new();
        let mut i: usize = 0;
        while i < self.coin_drops.len()
            invariant
                i <= self.coin_drops.len(),
                r@.len() == i,
                forall|j: int| 0 <= j < i ==> r@[j] == self@[j],
            decreases self.coin_drops.len() - i,
        {
            r.push(self.coin_drops[i]);
            i += 1;
        }
        proof {
            assert(r@ =~= self@);
        }
        r
    }

    /// The fixed initial toss pattern as a vector.
    pub fn default_coin_drops() -> (r: Vec<bool>)
        ensures
            r@ == default_drops(),
    {
        let mut r: Vec<bool> = Vec::new();
        let mut k: usize = 0;
        while k < 6
            invariant
                k <= 6,
                r@.len() == 3 * k,
                forall|j: int| 0 <= j < 3 * k ==> r@[j] == (j % 3 == 0),
            decreases 6 - k,
        {
            r.push(true);
            r.push(false);
            r.push(false);
            k += 1;
        }
        proof {
            assert(r@ =~= default_drops());
        }
        r
    }

    /// The number of heads in line group `k` of the stored tosses.
    fn count_heads(&self, k: usize) -> (c: usize)
        requires
            self.wf(),
            k < 6,
        ensures
            c as int == heads_in_group(self@, k as int),
            c <= 3,
    {
        let mut c: usize = 0;
        if self.coin_drops[3 * k] {
            c += 1;
        }
        if self.coin_drops[3 * k + 1] {
            c += 1;
        }
        if self.coin_drops[3 * k + 2] {
            c += 1;
        }
        c
    }

    /// The present hexagram of the stored tosses: each line group gives
    /// a solid line on 1 or 3 heads, a broken one on 0 or 2.
    pub fn get_present_hexagram(&self) -> (h: Hexagram)
        requires
            self.wf(),
        ensures
            h.wf(),
            h@ == present_lines(self@),
    {
        let mut lines: Vec<LineType> = Vec::new();
        let mut k: usize = 0;
        while k < 6
            invariant
                self.wf(),
                k <= 6,
                lines@.len() == k,
                forall|j: int| 0 <= j < k ==> lines@[j] == present_line(heads_in_group(self@, j)),
            decreases 6 - k,
        {
            let c: usize = self.count_heads(k);
            if c == 1 || c == 3 {
                lines.push(LineType::Yang);
            } else {
                lines.push(LineType::Yin);
            }
            k += 1;
        }
        proof {
            assert(lines@ =~= present_lines(self@));
        }
        Hexagram::from_lines(lines)
    }

    /// The future hexagram of the same stored tosses: each line group
    /// gives a solid line on 0 or 1 heads, a broken one on 2 or 3.
    pub fn get_future_hexagram(&self) -> (h: Hexagram)
        requires
            self.wf(),
        ensures
            h.wf(),
            h@ == future_lines(self@),
    {
        let mut lines: Vec<LineType> = Vec::new();
        let mut k: usize = 0;
        while k < 6
            invariant
                self.wf(),
                k <= 6,
                lines@.len() == k,
                forall|j: int| 0 <= j < k ==> lines@[j] == future_line(heads_in_group(self@, j)),
            decreases 6 - k,
        {
            let c: usize = self.count_heads(k);
            if c == 0 || c == 1 {
                lines.push(LineType::Yang);
            } else {
                lines.push(LineType::Yin);
            }
            k += 1;
        }
        proof {
            assert(lines@ =~= future_lines(self@));
        }
        Hexagram::from_lines(lines)
    }

    /// One generation event: make eighteen fresh tosses, store them,
    /// and derive the (present, future) pair.  Both hexagrams of the
    /// pair come from the one stored toss sequence.
    pub fn generate(&mut self) -> (r: (Hexagram, Hexagram))
        ensures
            final(self).wf(),
            r.0.wf(),
            r.1.wf(),
            r.0@ == present_lines(final(self)@),
            r.1@ == future_lines(final(self)@),
    {
        let mut drops: Vec<bool> = Vec::new();
        let mut i: usize = 0;
        while i < 18
            invariant
                drops@.len() == i,
                i <= 18,
            decreases 18 - i,
        {
            drops.push(coin_toss());
            i += 1;
        }
        let mut rev: Vec<bool> = Vec::new();
        while drops.len() > 0
            invariant
                rev@.len() + drops@.len() == 18,
            decreases drops@.len(),
        {
            if let Some(b) = drops.pop() {
                rev.push(b);
            }
        }
        self.coin_drops = rev;
        (self.get_present_hexagram(), self.get_future_hexagram())
    }
}

} // verus!
