//! The color picker: a stroke color pad, a fill color pad, eight color setters and a
//! color chooser, and the way their states follow each other.
//!
//! Colors are carried as they are; nothing here reads them.

use vstd::prelude::*;

verus! {

/// The number of color setters.
pub const AMOUNT_SETTERS: usize = 8;

/// A color setter button: its color and whether it is toggled on.
#[derive(Clone, Copy, Debug)]
pub struct ColorSetterState<C> {
    pub color: C,
    pub active: bool,
}

/// Which side of its parent the color picker sits on.
#[derive(Clone, Copy, Debug, PartialEq, Eq, Structural)]
pub enum PositionType {
    Left,
    Right,
    Top,
    Bottom,
}

/// How the picker's boxes are laid out.
#[derive(Clone, Copy, Debug, PartialEq, Eq, Structural)]
pub enum Orientation {
    Horizontal,
    Vertical,
}

/// The layout that follows from the picker's position: the orientation of its boxes
/// and the side on which the chooser popover opens.
#[derive(Clone, Copy, Debug, PartialEq, Eq, Structural)]
pub struct PickerLayout {
    pub orientation: Orientation,
    pub popover_position: PositionType,
}

/// The side opposite to `position`.
pub open spec fn opposite(position: PositionType) -> PositionType {
    match position {
        PositionType::Left => PositionType::Right,
        PositionType::Right => PositionType::Left,
        PositionType::Top => PositionType::Bottom,
        PositionType::Bottom => PositionType::Top,
    }
}

/// The layout for a position: vertical on the left and right, horizontal at the top and
/// bottom; the popover opens on the opposite side.
pub fn layout_for_position(position: PositionType) -> (l: PickerLayout)
    ensures
        l.orientation == (if position == PositionType::Left || position == PositionType::Right {
            Orientation::Vertical
        } else {
            Orientation::Horizontal
        }),
        l.popover_position == opposite(position),
{
    match position {
        PositionType::Left => PickerLayout { orientation: Orientation::Vertical, popover_position: PositionType::Right },
        PositionType::Right => PickerLayout { orientation: Orientation::Vertical, popover_position: PositionType::Left },
        PositionType::Top => PickerLayout { orientation: Orientation::Horizontal, popover_position: PositionType::Bottom },
        PositionType::Bottom => PickerLayout { orientation: Orientation::Horizontal, popover_position: PositionType::Top },
    }
}

/// A setter with this color and toggle state.
pub open spec fn setter_state<C>(color: C, active: bool) -> ColorSetterState<C> {
    ColorSetterState { color, active }
}

/// The index of the first active setter, if any.
pub open spec fn first_active<C>(setters: Seq<ColorSetterState<C>>) -> Option<int> {
    if exists|i: int| 0 <= i < setters.len() && setters[i].active {
        Some(choose|i: int| 0 <= i < setters.len() && setters[i].active && forall|j: int| 0 <= j < i ==> !setters[j].active)
    } else {
        None
    }
}

/// No two setters are active at once.
pub open spec fn at_most_one_active<C>(setters: Seq<ColorSetterState<C>>) -> bool {
    forall|i: int, j: int| 0 <= i < setters.len() && 0 <= j < setters.len() && setters[i].active && setters[j].active ==> i == j
}

/// The state of the color picker.
pub struct ColorPickerState<C> {
    stroke_color: C,
    fill_color: C,
    stroke_pad_active: bool,
    fill_pad_active: bool,
    chooser_color: C,
    setters: Vec<ColorSetterState<C>>,
}

impl<C: Copy> ColorPickerState<C> {
    pub closed spec fn stroke(&self) -> C {
        self.stroke_color
    }

    pub closed spec fn fill(&self) -> C {
        self.fill_color
    }

    pub closed spec fn stroke_pad(&self) -> bool {
        self.stroke_pad_active
    }

    pub closed spec fn fill_pad(&self) -> bool {
        self.fill_pad_active
    }

    /// The color the chooser shows.
    pub closed spec fn chooser(&self) -> C {
        self.chooser_color
    }

    pub closed spec fn setter_states(&self) -> Seq<ColorSetterState<C>> {
        self.setters@
    }

    /// There are eight setters, and at most one of them is active.
    pub open spec fn wf(&self) -> bool {
        &&& self.setter_states().len() == AMOUNT_SETTERS
        &&& at_most_one_active(self.setter_states())
    }

    /// The color the active pad shows, after `c` was put in it.
    pub open spec fn pads_after(&self, c: C) -> (C, C) {
        if self.stroke_pad() {
            (c, self.fill())
        } else if self.fill_pad() {
            (self.stroke(), c)
        } else {
            (self.stroke(), self.fill())
        }
    }

    /// A picker with the given colors and pads, its setters colored with
    /// `setter_colors` and none of them active. The chooser shows the color of the
    /// active pad, the stroke color otherwise.
    pub fn new(stroke_color: C, fill_color: C, stroke_pad_active: bool, fill_pad_active: bool, setter_colors: [C; 8]) -> (p: Self)
        ensures
            p.wf(),
            p.stroke() == stroke_color,
            p.fill() == fill_color,
            p.stroke_pad() == stroke_pad_active,
            p.fill_pad() == fill_pad_active,
            p.chooser() == (if !stroke_pad_active && fill_pad_active { fill_color } else { stroke_color }),
            forall|i: int| 0 <= i < 8 ==> #[trigger] p.setter_states()[i] == setter_state(setter_colors[i], false),
    {
        let mut setters: Vec<ColorSetterState<C>> = Vec::new();
        let mut i: usize = 0;
        while i < 8
            invariant
                i <= 8,
                setters.len() == i,
                forall|j: int| 0 <= j < i ==> #[trigger] setters[j] == setter_state(setter_colors[j], false),
            decreases 8 - i,
        {
            setters.push(ColorSetterState { color: setter_colors[i], active: false });
            i = i + 1;
        }
        let chooser_color = if !stroke_pad_active && fill_pad_active { fill_color } else { stroke_color };
        ColorPickerState { stroke_color, fill_color, stroke_pad_active, fill_pad_active, chooser_color, setters }
    }

    pub fn stroke_color(&self) -> (c: C)
        ensures
            c == self.stroke(),
    {
        self.stroke_color
    }

    pub fn fill_color(&self) -> (c: C)
        ensures
            c == self.fill(),
    {
        self.fill_color
    }

    /// The color the chooser shows.
    pub fn chooser_color(&self) -> (c: C)
        ensures
            c == self.chooser(),
    {
        self.chooser_color
    }

    /// Whether the stroke color pad is active.
    pub fn stroke_pad_active(&self) -> (b: bool)
        ensures
            b == self.stroke_pad(),
    {
        self.stroke_pad_active
    }

    /// Whether the fill color pad is active.
    pub fn fill_pad_active(&self) -> (b: bool)
        ensures
            b == self.fill_pad(),
    {
        self.fill_pad_active
    }

    /// The setter at `i`.
    pub fn setter(&self, i: usize) -> (s: ColorSetterState<C>)
        requires
            self.wf(),
            i < 8,
        ensures
            s == self.setter_states()[i as int],
    {
        self.setters[i]
    }

    /// Sets the stroke color; the chooser follows when the stroke pad is active.
    pub fn set_stroke_color(&mut self, color: C)
        requires
            old(self).wf(),
        ensures
            final(self).wf(),
            final(self).stroke() == color,
            final(self).fill() == old(self).fill(),
            final(self).chooser() == (if old(self).stroke_pad() { color } else { old(self).chooser() }),
            final(self).stroke_pad() == old(self).stroke_pad(),
            final(self).fill_pad() == old(self).fill_pad(),
            final(self).setter_states() == old(self).setter_states(),
    {
        self.stroke_color = color;
        if self.stroke_pad_active {
            self.chooser_color = color;
        }
    }

    /// Sets the fill color; the chooser follows when the fill pad is active.
    pub fn set_fill_color(&mut self, color: C)
        requires
            old(self).wf(),
        ensures
            final(self).wf(),
            final(self).fill() == color,
            final(self).stroke() == old(self).stroke(),
            final(self).chooser() == (if old(self).fill_pad() { color } else { old(self).chooser() }),
            final(self).stroke_pad() == old(self).stroke_pad(),
            final(self).fill_pad() == old(self).fill_pad(),
            final(self).setter_states() == old(self).setter_states(),
    {
        self.fill_color = color;
        if self.fill_pad_active {
            self.chooser_color = color;
        }
    }

    /// Puts a color in the active pad: the stroke pad when it is active, else the fill
    /// pad when that is, else nowhere.
    fn set_color_active_pad(&mut self, color: C)
        requires
            old(self).wf(),
        ensures
            final(self).wf(),
            (final(self).stroke(), final(self).fill()) == old(self).pads_after(color),
            final(self).chooser() == (if old(self).stroke_pad() || old(self).fill_pad() { color } else { old(self).chooser() }),
            final(self).stroke_pad() == old(self).stroke_pad(),
            final(self).fill_pad() == old(self).fill_pad(),
            final(self).setter_states() == old(self).setter_states(),
    {
        if self.stroke_pad_active {
            self.set_stroke_color(color);
        } else if self.fill_pad_active {
            self.set_fill_color(color);
        }
    }

    /// Gives the first active setter the color. Does nothing when none is active.
    pub fn set_color_active_setter(&mut self, color: C)
        requires
            old(self).wf(),
        ensures
            final(self).wf(),
            final(self).stroke() == old(self).stroke(),
            final(self).fill() == old(self).fill(),
            final(self).chooser() == old(self).chooser(),
            final(self).stroke_pad() == old(self).stroke_pad(),
            final(self).fill_pad() == old(self).fill_pad(),
            final(self).setter_states() == (match first_active(old(self).setter_states()) {
                Some(i) => old(self).setter_states().update(i, setter_state(color, true)),
                None => old(self).setter_states(),
            }),
    {
        let ghost s = self.setters@;
        let mut i: usize = 0;
        while i < 8
            invariant
                i <= 8,
                self.setters@ == s,
                s.len() == 8,
                s == old(self).setters@,
                at_most_one_active(s),
                self.stroke_color == old(self).stroke_color,
                self.fill_color == old(self).fill_color,
                self.chooser_color == old(self).chooser_color,
                self.stroke_pad_active == old(self).stroke_pad_active,
                self.fill_pad_active == old(self).fill_pad_active,
                forall|j: int| 0 <= j < i ==> !s[j].active,
            decreases 8 - i,
        {
            if self.setters[i].active {
                proof {
                    assert(s[i as int].active);
                    let f = choose|f: int| 0 <= f < s.len() && s[f].active && forall|j: int| 0 <= j < f ==> !s[j].active;
                    if f < i {
                        assert(!s[f].active);
                    }
                    if f > i {
                        assert(!s[i as int].active);
                    }
                    assert(f == i);
                }
                self.setters.set(i, ColorSetterState { color, active: true });
                assert(at_most_one_active(self.setters@)) by {
                    assert forall|a: int, b: int| 0 <= a < 8 && 0 <= b < 8 && self.setters@[a].active && self.setters@[b].active implies a == b by {
                        if a != i { assert(s[a].active); }
                        if b != i { assert(s[b].active); }
                    }
                }
                return;
            }
            i = i + 1;
        }
    }

    /// Toggles no setter.
    pub fn deselect_setters(&mut self)
        requires
            old(self).wf(),
        ensures
            final(self).wf(),
            final(self).stroke() == old(self).stroke(),
            final(self).fill() == old(self).fill(),
            final(self).chooser() == old(self).chooser(),
            final(self).stroke_pad() == old(self).stroke_pad(),
            final(self).fill_pad() == old(self).fill_pad(),
            forall|i: int| 0 <= i < 8 ==> #[trigger] final(self).setter_states()[i] == setter_state(old(self).setter_states()[i].color, false),
    {
        let mut i: usize = 0;
        while i < 8
            invariant
                i <= 8,
                self.setters.len() == 8,
                self.stroke_color == old(self).stroke_color,
                self.fill_color == old(self).fill_color,
                self.chooser_color == old(self).chooser_color,
                self.stroke_pad_active == old(self).stroke_pad_active,
                self.fill_pad_active == old(self).fill_pad_active,
                forall|j: int| 0 <= j < i ==> #[trigger] self.setters[j] == setter_state(old(self).setters[j].color, false),
                forall|j: int| i <= j < 8 ==> #[trigger] self.setters[j] == old(self).setters[j],
            decreases 8 - i,
        {
            let c = self.setters[i].color;
            self.setters.set(i, ColorSetterState { color: c, active: false });
            i = i + 1;
        }
    }

    /// Setter `index` is toggled on: every other setter is toggled off, and its color
    /// goes to the active pad and to the chooser.
    pub fn activate_setter(&mut self, index: usize)
        requires
            old(self).wf(),
            index < 8,
        ensures
            final(self).wf(),
            forall|i: int| 0 <= i < 8 ==> #[trigger] final(self).setter_states()[i] == setter_state(old(self).setter_states()[i].color, i == index),
            (final(self).stroke(), final(self).fill()) == old(self).pads_after(old(self).setter_states()[index as int].color),
            final(self).chooser() == (if old(self).stroke_pad() || old(self).fill_pad() {
                old(self).setter_states()[index as int].color
            } else {
                old(self).chooser()
            }),
            final(self).stroke_pad() == old(self).stroke_pad(),
            final(self).fill_pad() == old(self).fill_pad(),
    {
        let color = self.setters[index].color;
        self.deselect_setters();
        self.setters.set(index, ColorSetterState { color, active: true });
        // the active pad takes the color, and the chooser shows it; the chooser then
        // gives the color back to the pad and to the (now only) active setter, which
        // already hold it
        self.set_color_active_pad(color);
    }

    /// A pad was toggled: every setter is toggled off, and the pads take their new states.
    pub fn toggle_pads(&mut self, stroke_pad_active: bool, fill_pad_active: bool)
        requires
            old(self).wf(),
        ensures
            final(self).wf(),
            final(self).stroke() == old(self).stroke(),
            final(self).fill() == old(self).fill(),
            final(self).chooser() == old(self).chooser(),
            final(self).stroke_pad() == stroke_pad_active,
            final(self).fill_pad() == fill_pad_active,
            forall|i: int| 0 <= i < 8 ==> #[trigger] final(self).setter_states()[i] == setter_state(old(self).setter_states()[i].color, false),
    {
        self.stroke_pad_active = stroke_pad_active;
        self.fill_pad_active = fill_pad_active;
        self.deselect_setters();
    }

    /// The user picked a color in the chooser: it goes to the active pad and to the
    /// first active setter.
    pub fn chooser_color_changed(&mut self, color: C)
        requires
            old(self).wf(),
        ensures
            final(self).wf(),
            final(self).chooser() == color,
            (final(self).stroke(), final(self).fill()) == old(self).pads_after(color),
            final(self).stroke_pad() == old(self).stroke_pad(),
            final(self).fill_pad() == old(self).fill_pad(),
            final(self).setter_states() == (match first_active(old(self).setter_states()) {
                Some(i) => old(self).setter_states().update(i, setter_state(color, true)),
                None => old(self).setter_states(),
            }),
    {
        self.chooser_color = color;
        self.set_color_active_pad(color);
        self.chooser_color = color;
        self.set_color_active_setter(color);
    }
}

/// Toggling a setter on leaves exactly that setter active.
pub proof fn lemma_activated_setter_alone<C: Copy>(before: ColorPickerState<C>, after: ColorPickerState<C>, index: usize)
    requires
        after.wf(),
        index < 8,
        forall|i: int| 0 <= i < 8 ==> #[trigger] after.setter_states()[i] == setter_state(before.setter_states()[i].color, i == index),
    ensures
        at_most_one_active(after.setter_states()),
        first_active(after.setter_states()) == Some(index as int),
{
    let s = after.setter_states();
    assert(s[index as int].active);
    let f = choose|f: int| 0 <= f < s.len() && s[f].active && forall|j: int| 0 <= j < f ==> !s[j].active;
    assert(s[f].active);
}

/// At most one setter is active at any time: every picker the operations make keeps
/// its invariant, and the invariant allows no two active setters.
pub proof fn lemma_at_most_one_setter_active<C: Copy>(p: ColorPickerState<C>, i: int, j: int)
    requires
        p.wf(),
        0 <= i < 8,
        0 <= j < 8,
        p.setter_states()[i].active,
        p.setter_states()[j].active,
    ensures
        i == j,
{
}

/// A color put in the pads goes to the stroke pad when it is active, else to the fill
/// pad when that is active, else nowhere; the other pad keeps its color.
pub proof fn lemma_color_goes_to_the_active_pad<C: Copy>(p: ColorPickerState<C>, c: C)
    ensures
        p.stroke_pad() ==> p.pads_after(c) == (c, p.fill()),
        !p.stroke_pad() && p.fill_pad() ==> p.pads_after(c) == (p.stroke(), c),
        !p.stroke_pad() && !p.fill_pad() ==> p.pads_after(c) == (p.stroke(), p.fill()),
{
}

} // verus!
