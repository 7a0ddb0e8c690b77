//! Palettes of named reference colours and nearest-colour classification.

use vstd::prelude::*;
use crate::color::Color;
use crate::error::CoreError;

verus! {

/// Name of a palette entry; the classifier answers with one of these.
#[derive(Clone, Copy, Debug, PartialEq, Eq, Structural)]
pub enum ClosestColor {
    Red,
    Green,
    Blue,
    /// Nothing recognisable; shown as `None`.
    NoColor,
    Orange,
    White,
}

/// A named reference colour.
#[derive(Clone, Copy, Debug, PartialEq, Eq, Structural)]
pub struct PaletteEntry {
    pub label: ClosestColor,
    pub color: Color,
}

/// `idx` is the position of the entry nearest to `c`: no entry is nearer,
/// and every earlier entry is strictly farther.
pub open spec fn is_nearest(entries: Seq<PaletteEntry>, c: Color, idx: int) -> bool {
    &&& 0 <= idx < entries.len()
    &&& forall|j: int|
        0 <= j < entries.len() ==> c.distance(entries[idx].color) <= c.distance(
            #[trigger] entries[j].color,
        )
    &&& forall|j: int|
        0 <= j < idx ==> c.distance(entries[idx].color) < c.distance(#[trigger] entries[j].color)
}

/// Position of the entry nearest to `c`, ties going to the earliest entry.
/// Meaningful for a non-empty sequence.
pub open spec fn nearest_index(entries: Seq<PaletteEntry>, c: Color) -> int {
    choose|idx: int| is_nearest(entries, c, idx)
}

/// The traffic palette: red, green, blue, and a dark grey for "nothing".
pub open spec fn traffic_entries() -> Seq<PaletteEntry> {
    seq![
        PaletteEntry { label: ClosestColor::Red, color: Color { r: 255, g: 0, b: 0 } },
        PaletteEntry { label: ClosestColor::Green, color: Color { r: 0, g: 255, b: 0 } },
        PaletteEntry { label: ClosestColor::Blue, color: Color { r: 0, g: 0, b: 255 } },
        PaletteEntry { label: ClosestColor::NoColor, color: Color { r: 16, g: 16, b: 16 } },
    ]
}

/// The signal palette: blue, orange, white.
pub open spec fn signal_entries() -> Seq<PaletteEntry> {
    seq![
        PaletteEntry { label: ClosestColor::Blue, color: Color { r: 0, g: 0, b: 255 } },
        PaletteEntry { label: ClosestColor::Orange, color: Color { r: 255, g: 128, b: 0 } },
        PaletteEntry { label: ClosestColor::White, color: Color { r: 255, g: 255, b: 255 } },
    ]
}

/// An ordered, non-empty sequence of named reference colours.
#[derive(Debug)]
pub struct Palette {
    entries: Vec<PaletteEntry>,
}

impl View for Palette {
    type V = Seq<PaletteEntry>;

    closed spec fn view(&self) -> Seq<PaletteEntry> {
        self.entries@
    }
}

impl Palette {
    #[verifier::type_invariant]
    spec fn inv(self) -> bool {
        self.entries@.len() > 0
    }

    /// Builds a palette from its entries, in order. An empty list is not a
    /// palette.
    pub fn new(entries: Vec<PaletteEntry>) -> (res: Result<Palette, CoreError>)
        ensures
            entries@.len() == 0 <==> res is Err,
            res is Err ==> res == Err::<Palette, CoreError>(CoreError::ConfigInvalid),
            res matches Ok(p) ==> p@ == entries@,
    {
        if entries.len() == 0 {
            Err(CoreError::ConfigInvalid)
        } else {
            Ok(Palette { entries })
        }
    }

    /// The traffic palette.
    pub fn traffic() -> (p: Palette)
        ensures
            p@ == traffic_entries(),
    {
        let mut entries: Vec<PaletteEntry> = Vec::new();
        entries.push(
            PaletteEntry { label: ClosestColor::Red, color: Color { r: 255, g: 0, b: 0 } },
        );
        entries.push(
            PaletteEntry { label: ClosestColor::Green, color: Color { r: 0, g: 255, b: 0 } },
        );
        entries.push(
            PaletteEntry { label: ClosestColor::Blue, color: Color { r: 0, g: 0, b: 255 } },
        );
        entries.push(
            PaletteEntry { label: ClosestColor::NoColor, color: Color { r: 16, g: 16, b: 16 } },
        );
        assert(entries@ =~= traffic_entries());
        Palette { entries }
    }

    /// The signal palette.
    pub fn signal() -> (p: Palette)
        ensures
            p@ == signal_entries(),
    {
        let mut entries: Vec<PaletteEntry> = Vec::new();
        entries.push(
            PaletteEntry { label: ClosestColor::Blue, color: Color { r: 0, g: 0, b: 255 } },
        );
        entries.push(
            PaletteEntry { label: ClosestColor::Orange, color: Color { r: 255, g: 128, b: 0 } },
        );
        entries.push(
            PaletteEntry { label: ClosestColor::White, color: Color { r: 255, g: 255, b: 255 } },
        );
        assert(entries@ =~= signal_entries());
        Palette { entries }
    }

    /// Number of entries; never zero.
    pub fn len(&self) -> (n: usize)
        ensures
            n == self@.len(),
            n > 0,
    {
        proof {
            use_type_invariant(self);
        }
        self.entries.len()
    }

    /// The entry at position `idx`, if there is one.
    pub fn entry(&self, idx: usize) -> (e: Option<PaletteEntry>)
        ensures
            idx < self@.len() ==> e == Some(self@[idx as int]),
            idx >= self@.len() ==> e is None,
    {
        if idx < self.entries.len() {
            Some(self.entries[idx])
        } else {
            None
        }
    }

    /// Position of the entry whose colour is nearest to `c`; among equally
    /// near entries, the earliest.
    pub fn classify(&self, c: &Color) -> (idx: usize)
        ensures
            is_nearest(self@, *c, idx as int),
            idx == nearest_index(self@, *c),
    {
        proof {
            use_type_invariant(self);
        }
        let mut best: usize = 0;
        let mut best_distance: u32 = c.abs_diff(&self.entries[0].color);
        let mut i: usize = 1;
        while i < self.entries.len()
            invariant
                1 <= i <= self.entries@.len(),
                best < i,
                best_distance == c.distance(self.entries@[best as int].color),
                forall|j: int|
                    0 <= j < i ==> best_distance <= c.distance(#[trigger] self.entries@[j].color),
                forall|j: int|
                    0 <= j < best ==> best_distance < c.distance(#[trigger] self.entries@[j].color),
            decreases self.entries@.len() - i,
        {
            let d: u32 = c.abs_diff(&self.entries[i].color);
            if d < best_distance {
                best = i;
                best_distance = d;
            }
            i += 1;
        }
        proof {
            nearest_is_unique(self@, *c, best as int, nearest_index(self@, *c));
        }
        best
    }

    /// Label of the entry nearest to `c`.
    pub fn closest(&self, c: &Color) -> (label: ClosestColor)
        ensures
            label == self@[nearest_index(self@, *c)].label,
    {
        let idx: usize = self.classify(c);
        self.entries[idx].label
    }
}

impl ClosestColor {
    /// Classifies `c` against the traffic palette.
    pub fn closest(c: &Color) -> (label: Self)
        ensures
            label == traffic_entries()[nearest_index(traffic_entries(), *c)].label,
    {
        Palette::traffic().closest(c)
    }

    /// The label's name as text.
    pub open spec fn name_text(self) -> Seq<char> {
        match self {
            ClosestColor::Red => "Red"@,
            ClosestColor::Green => "Green"@,
            ClosestColor::Blue => "Blue"@,
            ClosestColor::NoColor => "None"@,
            ClosestColor::Orange => "Orange"@,
            ClosestColor::White => "White"@,
        }
    }

    /// The label's name, for display.
    pub fn name(&self) -> (s: &'static str)
        ensures
            s@ == self.name_text(),
    {
        match self {
            ClosestColor::Red => "Red",
            ClosestColor::Green => "Green",
            ClosestColor::Blue => "Blue",
            ClosestColor::NoColor => "None",
            ClosestColor::Orange => "Orange",
            ClosestColor::White => "White",
        }
    }
}

/// At most one position is the nearest: whatever satisfies `is_nearest` is
/// `nearest_index`.
pub proof fn nearest_is_unique(entries: Seq<PaletteEntry>, c: Color, i: int, j: int)
    requires
        is_nearest(entries, c, i),
    ensures
        is_nearest(entries, c, nearest_index(entries, c)),
        is_nearest(entries, c, j) ==> i == j,
        nearest_index(entries, c) == i,
{
    let k = nearest_index(entries, c);
    assert(is_nearest(entries, c, k));
    if is_nearest(entries, c, j) {
        if i < j {
            assert(c.distance(entries[j].color) < c.distance(entries[i].color));
            assert(c.distance(entries[i].color) <= c.distance(entries[j].color));
        } else if j < i {
            assert(c.distance(entries[i].color) < c.distance(entries[j].color));
            assert(c.distance(entries[j].color) <= c.distance(entries[i].color));
        }
    }
    if i < k {
        assert(c.distance(entries[k].color) < c.distance(entries[i].color));
        assert(c.distance(entries[i].color) <= c.distance(entries[k].color));
    } else if k < i {
        assert(c.distance(entries[i].color) < c.distance(entries[k].color));
        assert(c.distance(entries[k].color) <= c.distance(entries[i].color));
    }
}

/// Every non-empty palette has a nearest entry for every colour.
pub proof fn nearest_exists(entries: Seq<PaletteEntry>, c: Color)
    requires
        entries.len() > 0,
    ensures
        is_nearest(entries, c, nearest_index(entries, c)),
    decreases entries.len(),
{
    if entries.len() == 1 {
        assert(is_nearest(entries, c, 0));
    } else {
        let head = entries.drop_last();
        nearest_exists(head, c);
        let k = nearest_index(head, c);
        let last = entries.len() - 1;
        assert(forall|j: int| 0 <= j < head.len() ==> head[j] == entries[j]);
        if c.distance(entries[last].color) < c.distance(entries[k].color) {
            assert forall|j: int| 0 <= j < entries.len() implies c.distance(entries[last].color)
                <= c.distance(#[trigger] entries[j].color) by {
                if j < last {
                    assert(c.distance(head[k].color) <= c.distance(head[j].color));
                }
            }
            assert forall|j: int| 0 <= j < last implies c.distance(entries[last].color)
                < c.distance(#[trigger] entries[j].color) by {
                assert(c.distance(head[k].color) <= c.distance(head[j].color));
            }
            assert(is_nearest(entries, c, last));
        } else {
            assert forall|j: int| 0 <= j < entries.len() implies c.distance(entries[k].color)
                <= c.distance(#[trigger] entries[j].color) by {
                if j < last {
                    assert(c.distance(head[k].color) <= c.distance(head[j].color));
                }
            }
            assert forall|j: int| 0 <= j < k implies c.distance(entries[k].color) < c.distance(
                #[trigger] entries[j].color,
            ) by {
                assert(c.distance(head[k].color) < c.distance(head[j].color));
            }
            assert(is_nearest(entries, c, k));
        }
    }
}

/// Classifying a palette's own reference colour finds an entry of that very
/// colour, at or before the position it was taken from; where no earlier
/// entry shares the colour, it finds that position itself.
pub proof fn classify_reference_color(entries: Seq<PaletteEntry>, i: int)
    requires
        0 <= i < entries.len(),
    ensures
        0 <= nearest_index(entries, entries[i].color) <= i,
        entries[nearest_index(entries, entries[i].color)].color == entries[i].color,
        (forall|j: int| 0 <= j < i ==> (#[trigger] entries[j]).color != entries[i].color)
            ==> nearest_index(entries, entries[i].color) == i,
{
    let c = entries[i].color;
    nearest_exists(entries, c);
    let k = nearest_index(entries, c);
    crate::color::distance_zero_iff_equal(c, c);
    crate::color::distance_bounded(c, entries[k].color);
    assert(c.distance(entries[k].color) <= c.distance(entries[i].color));
    crate::color::distance_zero_iff_equal(c, entries[k].color);
    if i < k {
        assert(c.distance(entries[k].color) < c.distance(entries[i].color));
    }
}

} // verus!
