//! The interactive state behind the presentation layer: the pair of
//! derived hexagrams and the mark of the one whose description is
//! shown.  Events update the state through one plain function that
//! returns whether anything changed, independent of any UI toolkit.

use crate::hexagram::Hexagram;
use crate::hexagram::LineType;
use vstd::prelude::*;

verus! {

/// Which of the two derived hexagrams a state slot or an event
/// addresses.
#[derive(Debug, Copy, Clone, PartialEq, Eq, Structural)]
pub enum HexagramType {
    Present,
    Future,
}

impl HexagramType {
    /// The other slot.
    pub open spec fn other(self) -> HexagramType {
        match self {
            HexagramType::Present => HexagramType::Future,
            HexagramType::Future => HexagramType::Present,
        }
    }
}

/// An event from the presentation layer.
#[derive(Debug, Clone)]
pub enum Msg {
    /// Replace one slot's hexagram.
    SetHexagram(HexagramType, Hexagram),
    /// Replace both slots at once, as one generation event does, and
    /// make the present hexagram the active one.
    SetHexagrams(Hexagram, Hexagram),
    /// Mark one slot as the active hexagram.
    SetActiveHexagram(HexagramType),
}

impl Msg {
    /// Every hexagram an event carries holds exactly six lines.
    pub open spec fn wf(self) -> bool {
        match self {
            Msg::SetHexagram(_, h) => h.wf(),
            Msg::SetHexagrams(p, f) => p.wf() && f.wf(),
            Msg::SetActiveHexagram(_) => true,
        }
    }
}

/// The interactive state: a present and a future hexagram, and which
/// of the two is active.
pub struct Model {
    present: Hexagram,
    future: Hexagram,
    active: HexagramType,
}

impl Model {
    /// The lines of the present hexagram.
    pub closed spec fn present_view(self) -> Seq<LineType> {
        self.present@
    }

    /// The lines of the future hexagram.
    pub closed spec fn future_view(self) -> Seq<LineType> {
        self.future@
    }

    /// The active slot.
    pub closed spec fn active_spec(self) -> HexagramType {
        self.active
    }

    /// The lines of the hexagram in slot `t`.
    pub open spec fn hexagram_view(self, t: HexagramType) -> Seq<LineType> {
        match t {
            HexagramType::Present => self.present_view(),
            HexagramType::Future => self.future_view(),
        }
    }

    /// Both stored hexagrams hold exactly six lines.
    pub open spec fn wf(self) -> bool {
        self.present_view().len() == 6 && self.future_view().len() == 6
    }

    /// The initial state: two all-solid hexagrams, the present one
    /// active.
    pub fn new() -> (m: Model)
        ensures
            m.wf(),
            forall|i: int| 0 <= i < 6 ==> m.present_view()[i] == LineType::Yang,
            forall|i: int| 0 <= i < 6 ==> m.future_view()[i] == LineType::Yang,
            m.active_spec() == HexagramType::Present,
    {
        Model {
            present: Hexagram::new(),
            future: Hexagram::new(),
            active: HexagramType::Present,
        }
    }

    /// The hexagram in slot `t`.
    pub fn hexagram(&self, t: HexagramType) -> (h: &Hexagram)
        ensures
            h@ == self.hexagram_view(t),
    {
        match t {
            HexagramType::Present => &self.present,
            HexagramType::Future => &self.future,
        }
    }

    /// The active slot.
    pub fn active(&self) -> (t: HexagramType)
        ensures
            t == self.active_spec(),
    {
        self.active
    }

    /// The active hexagram, whose description the presentation layer
    /// shows.
    pub fn active_hexagram(&self) -> (h: &Hexagram)
        ensures
            h@ == self.hexagram_view(self.active_spec()),
    {
        self.hexagram(self.active)
    }

    /// Apply one event and report whether the state changed: replacing
    /// a slot reports whether the stored lines differed, replacing both
    /// slots always reports a change and activates the present
    /// hexagram, and activating a slot reports whether it was inactive.
    pub fn update(&mut self, msg: Msg) -> (changed: bool)
        requires
            old(self).wf(),
            msg.wf(),
        ensures
            final(self).wf(),
            match msg {
                Msg::SetHexagram(t, h) => {
                    &&& final(self).hexagram_view(t) == h@
                    &&& final(self).hexagram_view(t.other()) == old(self).hexagram_view(t.other())
                    &&& final(self).active_spec() == old(self).active_spec()
                    &&& changed == (old(self).hexagram_view(t) != h@)
                },
                Msg::SetHexagrams(p, f) => {
                    &&& final(self).present_view() == p@
                    &&& final(self).future_view() == f@
                    &&& final(self).active_spec() == HexagramType::Present
                    &&& changed
                },
                Msg::SetActiveHexagram(t) => {
                    &&& final(self).present_view() == old(self).present_view()
                    &&& final(self).future_view() == old(self).future_view()
                    &&& final(self).active_spec() == t
                    &&& changed == (old(self).active_spec() != t)
                },
            },
    {
        match msg {
            Msg::SetHexagram(t, h) => {
                match t {
                    HexagramType::Present => {
                        let changed: bool = !self.present.eq_lines(&h);
                        self.present = h;
                        changed
                    },
                    HexagramType::Future => {
                        let changed: bool = !self.future.eq_lines(&h);
                        self.future = h;
                        changed
                    },
                }
            },
            Msg::SetHexagrams(p, f) => {
                self.present = p;
                self.future = f;
                self.active = HexagramType::Present;
                true
            },
            Msg::SetActiveHexagram(t) => {
                if self.active != t {
                    self.active = t;
                    true
                } else {
                    false
                }
            },
        }
    }
}

} // verus!
