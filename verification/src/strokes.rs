//! The stroke store, an entity-component system keyed by slot map keys.
//!
//! Every stroke is an entity. Its key is the `u64` handle of a slot map key.
//! Per key the store holds the stroke's kind and its components: whether it
//! is trashed, whether it is selected, its chronological stamp and its
//! rendering state. The geometry of a stroke is kept by the caller under the
//! same key.

use slotmap::{DefaultKey, HopSlotMap, Key, KeyData};
use vstd::prelude::*;

verus! {

/// The kind of a stroke, as far as the store distinguishes them.
#[derive(Clone, Copy, Debug, PartialEq, Eq, Structural)]
pub enum StrokeKind {
    MarkerStroke,
    BrushStroke,
    ShapeStroke,
    VectorImage,
    BitmapImage,
}

/// The components the store holds for one stroke.
#[derive(Clone, Copy, Debug, PartialEq, Eq, Structural)]
pub struct StrokeEntry {
    pub kind: StrokeKind,
    /// trash component
    pub trashed: bool,
    /// selection component
    pub selected: bool,
    /// chrono component: the value of the chrono counter when the stroke was inserted
    pub chrono: u32,
    /// render component: whether the stroke is rendered at all
    pub render: bool,
    /// render component: whether the rendering must be regenerated
    pub regenerate: bool,
}

/// The slot map that holds the entries. Its contents are read and changed only through
/// the functions below, and described by `slot_entries`.
#[verifier::external_body]
pub struct StrokeSlots {
    map: HopSlotMap<DefaultKey, StrokeEntry>,
}

/// What the slot map holds: the `u64` handle of each live key, mapped to its entry.
pub uninterp spec fn slot_entries(m: StrokeSlots) -> Map<u64, StrokeEntry>;

/// The empty map of entries.
pub open spec fn no_strokes() -> Map<u64, StrokeEntry> {
    Map::empty()
}

/// A `u64` handle that a live key of a slot map can have: its version half is odd.
pub open spec fn is_slot_key(k: u64) -> bool {
    k & 0x1_0000_0000u64 == 0x1_0000_0000u64
}

/// `HopSlotMap::with_key`: an empty slot map.
#[verifier::external_body]
fn slots_new() -> (m: StrokeSlots)
    ensures
        slot_entries(m) == no_strokes(),
{
    StrokeSlots { map: HopSlotMap::with_key() }
}

/// `HopSlotMap::insert`: stores the entry under a key that no live entry has, and
/// returns that key as its `u64` handle (`KeyData::as_ffi`). It panics when the map
/// already holds 2^32 - 2 entries, which `requires` leaves out.
#[verifier::external_body]
fn slots_insert(m: &mut StrokeSlots, entry: StrokeEntry) -> (key: u64)
    requires
        slot_entries(*old(m)).dom().finite(),
        slot_entries(*old(m)).len() < 0xFFFF_FFFEnat,
    ensures
        is_slot_key(key),
        !slot_entries(*old(m)).contains_key(key),
        slot_entries(*final(m)) == slot_entries(*old(m)).insert(key, entry),
{
    m.map.insert(entry).data().as_ffi()
}

/// `HopSlotMap::remove` with the key `KeyData::from_ffi(key)`: for a handle whose
/// version half is odd, that key is live exactly when the handle is one of the map's.
#[verifier::external_body]
fn slots_remove(m: &mut StrokeSlots, key: u64) -> (removed: Option<StrokeEntry>)
    requires
        is_slot_key(key),
    ensures
        removed == (if slot_entries(*old(m)).contains_key(key) {
            Some(slot_entries(*old(m))[key])
        } else {
            None
        }),
        slot_entries(*final(m)) == slot_entries(*old(m)).remove(key),
{
    m.map.remove(KeyData::from_ffi(key).into())
}

/// `HopSlotMap::get` with the key `KeyData::from_ffi(key)`, copying the entry out.
#[verifier::external_body]
fn slots_get(m: &StrokeSlots, key: u64) -> (entry: Option<StrokeEntry>)
    requires
        is_slot_key(key),
    ensures
        entry == (if slot_entries(*m).contains_key(key) {
            Some(slot_entries(*m)[key])
        } else {
            None
        }),
{
    m.map.get(KeyData::from_ffi(key).into()).copied()
}

/// `HopSlotMap::get_mut` with the key `KeyData::from_ffi(key)`, overwriting the entry
/// when the key is live. Returns whether it was.
#[verifier::external_body]
fn slots_set(m: &mut StrokeSlots, key: u64, entry: StrokeEntry) -> (found: bool)
    requires
        is_slot_key(key),
    ensures
        found == slot_entries(*old(m)).contains_key(key),
        slot_entries(*final(m)) == (if found {
            slot_entries(*old(m)).insert(key, entry)
        } else {
            slot_entries(*old(m))
        }),
{
    match m.map.get_mut(KeyData::from_ffi(key).into()) {
        Some(e) => {
            *e = entry;
            true
        },
        None => false,
    }
}

/// `HopSlotMap::clear`: removes every entry.
#[verifier::external_body]
fn slots_clear(m: &mut StrokeSlots)
    ensures
        slot_entries(*final(m)) == no_strokes(),
{
    m.map.clear()
}

/// `HopSlotMap::keys`, each key as its `u64` handle. The order in which the map
/// walks its slots is left open: every live key comes exactly once.
#[verifier::external_body]
fn slots_keys(m: &StrokeSlots) -> (keys: Vec<u64>)
    ensures
        keys@.no_duplicates(),
        keys@.to_set() == slot_entries(*m).dom(),
{
    m.map.keys().map(|k| k.data().as_ffi()).collect()
}

/// `HopSlotMap::len`: the number of live entries.
#[verifier::external_body]
fn slots_len(m: &StrokeSlots) -> (n: usize)
    requires
        slot_entries(*m).dom().finite(),
    ensures
        n == slot_entries(*m).len(),
{
    m.map.len()
}

/// `HopSlotMap::clone`: a map with the same keys and (copied) entries.
#[verifier::external_body]
fn slots_clone(m: &StrokeSlots) -> (c: StrokeSlots)
    ensures
        slot_entries(c) == slot_entries(*m),
{
    StrokeSlots { map: m.map.clone() }
}

/// The entry a freshly inserted stroke of the given kind gets.
pub open spec fn new_entry(kind: StrokeKind, chrono: u32) -> StrokeEntry {
    StrokeEntry { kind, trashed: false, selected: false, chrono, render: true, regenerate: true }
}

/// The entry a stroke inserted from a task gets: imported images arrive selected.
pub open spec fn inserted_entry(kind: StrokeKind, chrono: u32) -> StrokeEntry {
    StrokeEntry { selected: is_image(kind), ..new_entry(kind, chrono) }
}

/// Whether a stroke is drawn in the layer `selection` names: rendered, not trashed,
/// and selected exactly when `selection` is.
pub open spec fn shown(e: StrokeEntry, selection: bool) -> bool {
    e.render && !e.trashed && e.selected == selection
}

/// Whether a listing with the filter takes the stroke: every stroke without a filter,
/// the strokes shown in the layer it names with one.
pub open spec fn listed(e: StrokeEntry, filter: Option<bool>) -> bool {
    match filter {
        None => true,
        Some(selection) => shown(e, selection),
    }
}

/// `keys` lists, each once and by ascending chrono stamp, exactly the strokes of
/// `entries` that the filter takes.
pub open spec fn chrono_ordered(entries: Map<u64, StrokeEntry>, keys: Seq<u64>, filter: Option<bool>) -> bool {
    &&& keys.no_duplicates()
    &&& forall|i: int| 0 <= i < keys.len() ==> #[trigger] entries.contains_key(keys[i]) && listed(entries[keys[i]], filter)
    &&& forall|k: u64| entries.contains_key(k) && listed(#[trigger] entries[k], filter) ==> keys.contains(k)
    &&& forall|i: int, j: int| 0 <= i < j < keys.len() ==> entries[keys[i]].chrono < entries[keys[j]].chrono
}

/// The entry whose rendering was replaced by freshly rendered images: nothing is left
/// to regenerate.
pub open spec fn rendered(e: StrokeEntry) -> StrokeEntry {
    StrokeEntry { regenerate: false, ..e }
}

/// The entry with its rendering marked for regeneration.
pub open spec fn with_regenerate(e: StrokeEntry) -> StrokeEntry {
    StrokeEntry { regenerate: true, ..e }
}

/// What a caller does with a new element for a stroke, by the stroke's kind.
#[derive(Clone, Copy, Debug, PartialEq, Eq, Structural)]
pub enum ElementAction {
    /// marker and brush strokes take the element as a new point of their path
    PushElement,
    /// shape strokes update their shape from the shaper pen and the element
    UpdateShape,
    /// images take no elements
    Ignore,
}

/// The action the store chooses for a new element of a stroke of this kind.
pub open spec fn element_action_for(kind: StrokeKind) -> ElementAction {
    match kind {
        StrokeKind::MarkerStroke | StrokeKind::BrushStroke => ElementAction::PushElement,
        StrokeKind::ShapeStroke => ElementAction::UpdateShape,
        StrokeKind::VectorImage | StrokeKind::BitmapImage => ElementAction::Ignore,
    }
}

/// Whether the kind is an imported image.
pub open spec fn is_image(kind: StrokeKind) -> bool {
    kind == StrokeKind::VectorImage || kind == StrokeKind::BitmapImage
}

/// A stroke inserted from a task of the store's channel.
#[derive(Clone, Copy, Debug, PartialEq, Eq, Structural)]
pub struct InsertedStroke {
    pub key: u64,
    /// imported images arrive selected, and the selector pen is switched to
    pub activate_selector: bool,
}

/// A task sent to the store's channel by the threads that render and import strokes.
/// The images of the rendering tasks are carried beside the task by the caller.
#[derive(Clone, Copy, Debug, PartialEq, Eq, Structural)]
pub enum StateTask {
    /// the stroke's rendering is replaced by new images, rendered by the caller
    UpdateStrokeWithImages { key: u64 },
    /// new images are appended to the stroke's rendering
    AppendImagesToStroke { key: u64 },
    /// a stroke of this kind was built and is inserted
    InsertStroke { kind: StrokeKind },
    /// the channel is closed
    Quit,
}

/// What handling a task asks of the caller.
#[derive(Clone, Copy, Debug, PartialEq, Eq, Structural)]
pub struct TaskOutcome {
    /// whether the channel keeps being listened to
    pub continue_listening: bool,
    pub queue_draw: bool,
    pub queue_resize: bool,
    /// the stroke that was inserted, for an insertion task
    pub inserted: Option<InsertedStroke>,
}

/// The outcome of a task other than an insertion.
pub open spec fn outcome_without_insertion(task: StateTask) -> TaskOutcome {
    match task {
        StateTask::Quit => TaskOutcome { continue_listening: false, queue_draw: false, queue_resize: false, inserted: None },
        _ => TaskOutcome { continue_listening: true, queue_draw: true, queue_resize: false, inserted: None },
    }
}

/// The pairs ascend strictly by their first component.
pub open spec fn strictly_ascending(s: Seq<(u32, u64)>) -> bool {
    forall|a: int, b: int| 0 <= a < b < s.len() ==> s[a].0 < s[b].0
}

/// Inserts a pair into a strictly ascending vector, before the first pair with a larger
/// stamp. No pair of the vector has the stamp `c`.
fn insert_sorted(sorted: &mut Vec<(u32, u64)>, c: u32, k: u64)
    requires
        strictly_ascending(old(sorted)@),
        forall|x: (u32, u64)| #[trigger] old(sorted)@.contains(x) ==> x.0 != c,
    ensures
        strictly_ascending(final(sorted)@),
        forall|x: (u32, u64)| #[trigger] final(sorted)@.contains(x) <==> (x == (c, k) || old(sorted)@.contains(x)),
{
    let ghost before = sorted@;
    let mut p: usize = 0;
    while p < sorted.len() && sorted[p].0 < c
        invariant
            sorted@ == before,
            p <= sorted.len(),
            forall|j: int| 0 <= j < p ==> sorted[j].0 < c,
        decreases sorted.len() - p,
    {
        p = p + 1;
    }
    proof {
        if p < sorted.len() {
            assert(before.contains(before[p as int]));
            assert(sorted[p as int].0 > c);
        }
    }
    sorted.insert(p, (c, k));
    proof {
        assert(sorted@ == before.insert(p as int, (c, k)));
        assert forall|j1: int, j2: int| 0 <= j1 < j2 < sorted.len() implies sorted[j1].0 < sorted[j2].0 by {
            if j1 < p && j2 < p {
            } else if j1 < p && j2 == p {
            } else if j1 < p {
                assert(sorted[j2] == before[j2 - 1]);
                if p < before.len() {
                    assert(before[p as int].0 > c);
                    if j2 - 1 > p {
                        assert(before[p as int].0 < before[j2 - 1].0);
                    }
                }
            } else if j1 == p {
                assert(sorted[j2] == before[j2 - 1]);
                assert(before[p as int].0 > c);
                if j2 - 1 > p {
                    assert(before[p as int].0 < before[j2 - 1].0);
                }
            } else {
                assert(sorted[j1] == before[j1 - 1]);
                assert(sorted[j2] == before[j2 - 1]);
            }
        }
        assert forall|x: (u32, u64)| #[trigger] sorted@.contains(x) <==> (x == (c, k) || before.contains(x)) by {
            if sorted@.contains(x) {
                let j = choose|j: int| 0 <= j < sorted.len() && sorted@[j] == x;
                if j < p {
                    assert(before[j] == x);
                } else if j > p {
                    assert(before[j - 1] == x);
                }
            }
            if x == (c, k) {
                assert(sorted@[p as int] == x);
            }
            if before.contains(x) {
                let j = choose|j: int| 0 <= j < before.len() && before[j] == x;
                if j < p {
                    assert(sorted@[j] == x);
                } else {
                    assert(sorted@[j + 1] == x);
                }
            }
        }
    }
}

/// Whether the filter takes the stroke.
fn passes_filter(e: StrokeEntry, filter: Option<bool>) -> (b: bool)
    ensures
        b == listed(e, filter),
{
    match filter {
        None => true,
        Some(selection) => e.render && !e.trashed && e.selected == selection,
    }
}

/// The entry with its trash flag (`trash_flag`) or its selection flag set to `value`.
pub open spec fn flagged(e: StrokeEntry, trash_flag: bool, value: bool) -> StrokeEntry {
    if trash_flag {
        StrokeEntry { trashed: value, ..e }
    } else {
        StrokeEntry { selected: value, ..e }
    }
}

/// The store of strokes and their components.
pub struct StrokesState {
    strokes: StrokeSlots,
    /// equal to the chrono component of the newest inserted stroke
    chrono_counter: u32,
}

impl StrokesState {
    /// The entries of the live strokes, by key.
    pub closed spec fn entries(&self) -> Map<u64, StrokeEntry> {
        slot_entries(self.strokes)
    }

    /// The chrono counter.
    pub closed spec fn counter(&self) -> u32 {
        self.chrono_counter
    }

    /// The store's invariant: finitely many strokes, each under a slot key, with
    /// distinct chrono stamps none of which exceeds the counter.
    pub open spec fn wf(&self) -> bool {
        &&& self.entries().dom().finite()
        &&& forall|k: u64| #[trigger] self.entries().contains_key(k) ==> is_slot_key(k)
        &&& forall|k: u64| #[trigger] self.entries().contains_key(k) ==> 1 <= self.entries()[k].chrono <= self.counter()
        &&& forall|k1: u64, k2: u64|
            #![trigger self.entries()[k1], self.entries()[k2]]
            self.entries().contains_key(k1) && self.entries().contains_key(k2) && k1 != k2
                ==> self.entries()[k1].chrono != self.entries()[k2].chrono
    }

    /// An empty store.
    pub fn new() -> (s: Self)
        ensures
            s.wf(),
            s.entries() == no_strokes(),
            s.counter() == 0,
    {
        StrokesState { strokes: slots_new(), chrono_counter: 0 }
    }

    /// The number of strokes in the store.
    pub fn len(&self) -> (n: usize)
        requires
            self.wf(),
        ensures
            n == self.entries().len(),
    {
        slots_len(&self.strokes)
    }

    /// The chrono counter: the stamp of the newest inserted stroke, zero in a new or
    /// cleared store.
    pub fn chrono_counter(&self) -> (c: u32)
        ensures
            c == self.counter(),
    {
        self.chrono_counter
    }

    /// Inserts a stroke of the given kind: the counter advances and the stroke gets
    /// it as its chrono stamp, default components, and the regenerate flag.
    pub fn insert_stroke(&mut self, kind: StrokeKind) -> (key: u64)
        requires
            old(self).wf(),
            old(self).counter() < u32::MAX,
            old(self).entries().len() < 0xFFFF_FFFEnat,
        ensures
            final(self).wf(),
            !old(self).entries().contains_key(key),
            final(self).counter() == old(self).counter() + 1,
            final(self).entries() == old(self).entries().insert(key, new_entry(kind, final(self).counter())),
    {
        let chrono = self.chrono_counter + 1;
        let key = slots_insert(&mut self.strokes, StrokeEntry {
            kind,
            trashed: false,
            selected: false,
            chrono,
            render: true,
            regenerate: true,
        });
        self.chrono_counter = chrono;
        key
    }

    /// Removes the stroke with its components, returning its kind when it was there.
    pub fn remove_stroke(&mut self, key: u64) -> (removed: Option<StrokeKind>)
        requires
            old(self).wf(),
        ensures
            final(self).wf(),
            final(self).counter() == old(self).counter(),
            final(self).entries() == old(self).entries().remove(key),
            removed == (if old(self).entries().contains_key(key) {
                Some(old(self).entries()[key].kind)
            } else {
                None
            }),
    {
        if key & 0x1_0000_0000u64 != 0x1_0000_0000u64 {
            assert(self.entries().remove(key) =~= self.entries());
            return None;
        }
        match slots_remove(&mut self.strokes, key) {
            Some(e) => Some(e.kind),
            None => None,
        }
    }

    /// Clears every stroke and every component and resets the counter.
    pub fn clear(&mut self)
        requires
            old(self).wf(),
        ensures
            final(self).wf(),
            final(self).entries() == no_strokes(),
            final(self).counter() == 0,
    {
        self.chrono_counter = 0;
        slots_clear(&mut self.strokes);
    }

    /// Whether the stroke is trashed, `None` when there is no such stroke.
    pub fn trashed(&self, key: u64) -> (t: Option<bool>)
        requires
            self.wf(),
        ensures
            t == (if self.entries().contains_key(key) { Some(self.entries()[key].trashed) } else { None }),
    {
        match self.entry(key) {
            Some(e) => Some(e.trashed),
            None => None,
        }
    }

    /// Whether the stroke is selected, `None` when there is no such stroke.
    pub fn selected(&self, key: u64) -> (t: Option<bool>)
        requires
            self.wf(),
        ensures
            t == (if self.entries().contains_key(key) { Some(self.entries()[key].selected) } else { None }),
    {
        match self.entry(key) {
            Some(e) => Some(e.selected),
            None => None,
        }
    }

    /// Whether the stroke is rendered, `None` when there is no such stroke.
    pub fn does_render(&self, key: u64) -> (t: Option<bool>)
        requires
            self.wf(),
        ensures
            t == (if self.entries().contains_key(key) { Some(self.entries()[key].render) } else { None }),
    {
        match self.entry(key) {
            Some(e) => Some(e.render),
            None => None,
        }
    }

    /// The kind of the stroke, `None` when there is no such stroke.
    pub fn kind(&self, key: u64) -> (t: Option<StrokeKind>)
        requires
            self.wf(),
        ensures
            t == (if self.entries().contains_key(key) { Some(self.entries()[key].kind) } else { None }),
    {
        match self.entry(key) {
            Some(e) => Some(e.kind),
            None => None,
        }
    }

    /// Whether the rendering of the stroke must be regenerated, `None` when there is no such stroke.
    pub fn regenerate_flag(&self, key: u64) -> (t: Option<bool>)
        requires
            self.wf(),
        ensures
            t == (if self.entries().contains_key(key) { Some(self.entries()[key].regenerate) } else { None }),
    {
        match self.entry(key) {
            Some(e) => Some(e.regenerate),
            None => None,
        }
    }

    /// The entry of a key, `None` when there is no such stroke.
    fn entry(&self, key: u64) -> (t: Option<StrokeEntry>)
        requires
            self.wf(),
        ensures
            t == (if self.entries().contains_key(key) { Some(self.entries()[key]) } else { None }),
    {
        if key & 0x1_0000_0000u64 != 0x1_0000_0000u64 {
            return None;
        }
        slots_get(&self.strokes, key)
    }

    /// Replaces the entry of a stroke that is in the store.
    fn replace_entry(&mut self, key: u64, e: StrokeEntry)
        requires
            old(self).wf(),
            old(self).entries().contains_key(key),
            e.chrono == old(self).entries()[key].chrono,
        ensures
            final(self).wf(),
            final(self).counter() == old(self).counter(),
            final(self).entries() == old(self).entries().insert(key, e),
    {
        let _ = slots_set(&mut self.strokes, key, e);
        assert(self.entries().dom() =~= old(self).entries().dom());
    }

    /// Trashes or restores the stroke. Does nothing when there is no such stroke.
    pub fn set_trashed(&mut self, key: u64, trash: bool)
        requires
            old(self).wf(),
        ensures
            final(self).wf(),
            final(self).counter() == old(self).counter(),
            final(self).entries() == (if old(self).entries().contains_key(key) {
                old(self).entries().insert(key, StrokeEntry { trashed: trash, ..old(self).entries()[key] })
            } else {
                old(self).entries()
            }),
    {
        if let Some(e) = self.entry(key) {
            self.replace_entry(key, StrokeEntry { trashed: trash, ..e });
        }
    }

    /// Selects or deselects the stroke. Does nothing when there is no such stroke.
    pub fn set_selected(&mut self, key: u64, selected: bool)
        requires
            old(self).wf(),
        ensures
            final(self).wf(),
            final(self).counter() == old(self).counter(),
            final(self).entries() == (if old(self).entries().contains_key(key) {
                old(self).entries().insert(key, StrokeEntry { selected, ..old(self).entries()[key] })
            } else {
                old(self).entries()
            }),
    {
        if let Some(e) = self.entry(key) {
            self.replace_entry(key, StrokeEntry { selected, ..e });
        }
    }

    /// Marks the rendering of the stroke for regeneration, after its geometry was
    /// updated. Returns whether there is such a stroke.
    pub fn update_geometry_for_stroke(&mut self, key: u64) -> (found: bool)
        requires
            old(self).wf(),
        ensures
            final(self).wf(),
            found == old(self).entries().contains_key(key),
            final(self).counter() == old(self).counter(),
            final(self).entries() == (if found {
                old(self).entries().insert(key, StrokeEntry { regenerate: true, ..old(self).entries()[key] })
            } else {
                old(self).entries()
            }),
    {
        if let Some(e) = self.entry(key) {
            self.replace_entry(key, StrokeEntry { regenerate: true, ..e });
            true
        } else {
            false
        }
    }


    /// The keys of the strokes the filter takes, by ascending chrono stamp.
    fn chrono_sorted_keys(&self, filter: Option<bool>) -> (keys: Vec<u64>)
        requires
            self.wf(),
        ensures
            chrono_ordered(self.entries(), keys@, filter),
    {
        let ghost entries = self.entries();
        let all = slots_keys(&self.strokes);
        let mut sorted: Vec<(u32, u64)> = Vec::new();
        let mut i: usize = 0;
        while i < all.len()
            invariant
                self.wf(),
                entries == self.entries(),
                i <= all.len(),
                all@.no_duplicates(),
                all@.to_set() == entries.dom(),
                forall|x: (u32, u64)| #[trigger] sorted@.contains(x) ==> {
                    &&& entries.contains_key(x.1)
                    &&& x.0 == entries[x.1].chrono
                    &&& listed(entries[x.1], filter)
                    &&& exists|m: int| 0 <= m < i && all[m] == x.1
                },
                strictly_ascending(sorted@),
                forall|m: int| 0 <= m < i && listed(entries[all[m]], filter)
                    ==> #[trigger] sorted@.contains((entries[all[m]].chrono, all[m])),
            decreases all.len() - i,
        {
            let k = all[i];
            assert(all@.to_set().contains(k)) by {
                assert(all@.contains(k));
            }
            let ghost prev = sorted@;
            match self.entry(k) {
                Some(e) => {
                    if passes_filter(e, filter) {
                        assert forall|x: (u32, u64)| #[trigger] sorted@.contains(x) implies x.0 != e.chrono by {
                            let m = choose|m: int| 0 <= m < i && all[m] == x.1;
                            assert(all[m] != all[i as int]);
                            assert(entries[x.1].chrono != entries[k].chrono);
                        }
                        insert_sorted(&mut sorted, e.chrono, k);
                    }
                },
                None => {},
            }
            proof {
                assert forall|x: (u32, u64)| #[trigger] sorted@.contains(x) implies exists|m: int| 0 <= m < i + 1 && all[m] == x.1 by {
                    if prev.contains(x) {
                        let m = choose|m: int| 0 <= m < i && all[m] == x.1;
                        assert(all[m] == x.1);
                    } else {
                        assert(all[i as int] == x.1);
                    }
                }
                assert forall|m: int| 0 <= m < i + 1 && listed(entries[all[m]], filter)
                    implies #[trigger] sorted@.contains((entries[all[m]].chrono, all[m])) by {
                    if m < i {
                        assert(prev.contains((entries[all[m]].chrono, all[m])));
                    }
                }
            }
            i = i + 1;
        }
        let mut keys: Vec<u64> = Vec::new();
        let mut j: usize = 0;
        while j < sorted.len()
            invariant
                j <= sorted.len(),
                keys.len() == j,
                forall|l: int| 0 <= l < j ==> keys[l] == #[trigger] sorted[l].1,
            decreases sorted.len() - j,
        {
            keys.push(sorted[j].1);
            j = j + 1;
        }
        proof {
            assert forall|l: int| 0 <= l < keys.len() implies #[trigger] entries.contains_key(keys@[l]) && listed(entries[keys@[l]], filter) by {
                assert(keys@[l] == sorted[l].1);
                assert(sorted@.contains(sorted@[l]));
            }
            assert forall|l1: int, l2: int| 0 <= l1 < l2 < keys.len() implies entries[keys@[l1]].chrono < entries[keys@[l2]].chrono by {
                assert(keys@[l1] == sorted[l1].1);
                assert(keys@[l2] == sorted[l2].1);
                assert(sorted@.contains(sorted@[l1]));
                assert(sorted@.contains(sorted@[l2]));
            }
            assert forall|k: u64| entries.contains_key(k) && listed(#[trigger] entries[k], filter) implies keys@.contains(k) by {
                assert(all@.to_set().contains(k));
                let m = choose|m: int| 0 <= m < all.len() && all[m] == k;
                assert(sorted@.contains((entries[all[m]].chrono, all[m])));
                let l = choose|l: int| 0 <= l < sorted.len() && sorted@[l] == (entries[all[m]].chrono, all[m]);
                assert(keys@[l] == k);
            }
            assert(keys@.no_duplicates()) by {
                assert forall|l1: int, l2: int| 0 <= l1 < keys.len() && 0 <= l2 < keys.len() && l1 != l2 implies keys@[l1] != keys@[l2] by {
                    assert(keys@[l1] == sorted[l1].1);
                    assert(keys@[l2] == sorted[l2].1);
                    assert(sorted@.contains(sorted@[l1]));
                    assert(sorted@.contains(sorted@[l2]));
                }
            }
        }
        keys
    }

    /// The keys of the strokes in the order they are rendered: by ascending chrono
    /// stamp, those that render, are not trashed and are not selected.
    pub fn stroke_keys_in_order_rendered(&self) -> (keys: Vec<u64>)
        requires
            self.wf(),
        ensures
            chrono_ordered(self.entries(), keys@, Some(false)),
    {
        self.chrono_sorted_keys(Some(false))
    }

    /// The keys of the selected strokes in the order they are rendered: by ascending
    /// chrono stamp, those that render, are not trashed and are selected.
    pub fn selection_keys_in_order_rendered(&self) -> (keys: Vec<u64>)
        requires
            self.wf(),
        ensures
            chrono_ordered(self.entries(), keys@, Some(true)),
    {
        self.chrono_sorted_keys(Some(true))
    }


    /// Replaces the strokes, their components and the counter with those of another
    /// store, which it takes.
    pub fn import_strokes_state(&mut self, strokes_state: Self)
        requires
            strokes_state.wf(),
        ensures
            final(self).wf(),
            final(self).entries() == strokes_state.entries(),
            final(self).counter() == strokes_state.counter(),
    {
        self.strokes = strokes_state.strokes;
        self.chrono_counter = strokes_state.chrono_counter;
    }

    /// Clears the store, then copies the strokes, their components and the counter of
    /// another store.
    pub fn import_state(&mut self, strokes_state: &Self)
        requires
            old(self).wf(),
            strokes_state.wf(),
        ensures
            final(self).wf(),
            final(self).entries() == strokes_state.entries(),
            final(self).counter() == strokes_state.counter(),
    {
        self.clear();
        self.chrono_counter = strokes_state.chrono_counter;
        self.strokes = slots_clone(&strokes_state.strokes);
    }

    /// Marks the rendering of every stroke for regeneration, after their geometry was updated.
    pub fn update_geometry_all_strokes(&mut self)
        requires
            old(self).wf(),
        ensures
            final(self).wf(),
            final(self).counter() == old(self).counter(),
            final(self).entries() == old(self).entries().map_values(|e: StrokeEntry| with_regenerate(e)),
    {
        let keys = slots_keys(&self.strokes);
        self.mark_regenerate(&keys);
        assert(self.entries() =~= old(self).entries().map_values(|e: StrokeEntry| with_regenerate(e))) by {
            assert forall|k: u64| old(self).entries().contains_key(k) implies keys@.contains(k) by {
                assert(keys@.to_set().contains(k));
            }
        }
    }

    /// Marks the rendering of every shown selected stroke for regeneration, after their
    /// geometry was updated.
    pub fn update_geometry_selection_strokes(&mut self)
        requires
            old(self).wf(),
        ensures
            final(self).wf(),
            final(self).counter() == old(self).counter(),
            final(self).entries().dom() == old(self).entries().dom(),
            forall|k: u64| #[trigger] old(self).entries().contains_key(k) ==> final(self).entries()[k] == (
                if shown(old(self).entries()[k], true) {
                    with_regenerate(old(self).entries()[k])
                } else {
                    old(self).entries()[k]
                }),
    {
        let keys = self.selection_keys_in_order_rendered();
        self.mark_regenerate(&keys);
    }

    /// Marks each listed stroke for regeneration.
    fn mark_regenerate(&mut self, keys: &Vec<u64>)
        requires
            old(self).wf(),
            forall|i: int| 0 <= i < keys.len() ==> #[trigger] old(self).entries().contains_key(keys[i]),
        ensures
            final(self).wf(),
            final(self).counter() == old(self).counter(),
            final(self).entries().dom() == old(self).entries().dom(),
            forall|k: u64| #[trigger] old(self).entries().contains_key(k) ==> final(self).entries()[k] == (
                if keys@.contains(k) {
                    with_regenerate(old(self).entries()[k])
                } else {
                    old(self).entries()[k]
                }),
    {
        let mut i: usize = 0;
        while i < keys.len()
            invariant
                self.wf(),
                i <= keys.len(),
                self.counter() == old(self).counter(),
                self.entries().dom() == old(self).entries().dom(),
                forall|j: int| 0 <= j < keys.len() ==> #[trigger] old(self).entries().contains_key(keys[j]),
                forall|k: u64| #[trigger] old(self).entries().contains_key(k) ==> self.entries()[k] == (
                    if keys@.subrange(0, i as int).contains(k) {
                        with_regenerate(old(self).entries()[k])
                    } else {
                        old(self).entries()[k]
                    }),
            decreases keys.len() - i,
        {
            let k = keys[i];
            let ghost prev = self.entries();
            let found = self.update_geometry_for_stroke(k);
            assert(found);
            proof {
                assert forall|k2: u64| #[trigger] old(self).entries().contains_key(k2) implies self.entries()[k2] == (
                    if keys@.subrange(0, i + 1).contains(k2) {
                        with_regenerate(old(self).entries()[k2])
                    } else {
                        old(self).entries()[k2]
                    }) by {
                    assert(keys@.subrange(0, i + 1) == keys@.subrange(0, i as int).push(k));
                    if k2 != k {
                        assert(keys@.subrange(0, i + 1).contains(k2) == keys@.subrange(0, i as int).contains(k2));
                    } else {
                        assert(keys@.subrange(0, i + 1)[i as int] == k);
                    }
                }
            }
            i = i + 1;
        }
        assert(keys@.subrange(0, keys.len() as int) == keys@);
    }

    /// The keys of the strokes that are not trashed, each once, in the order the slot
    /// map walks them.
    pub fn untrashed_keys(&self) -> (keys: Vec<u64>)
        requires
            self.wf(),
        ensures
            keys@.no_duplicates(),
            forall|k: u64| keys@.contains(k) <==> self.entries().contains_key(k) && !self.entries()[k].trashed,
    {
        let all = slots_keys(&self.strokes);
        let mut keys: Vec<u64> = Vec::new();
        let mut i: usize = 0;
        while i < all.len()
            invariant
                self.wf(),
                i <= all.len(),
                all@.no_duplicates(),
                all@.to_set() == self.entries().dom(),
                keys@.no_duplicates(),
                forall|k: u64| keys@.contains(k) <==> (all@.subrange(0, i as int).contains(k) && !self.entries()[k].trashed),
            decreases all.len() - i,
        {
            let k = all[i];
            assert(all@.to_set().contains(k)) by {
                assert(all@.contains(k));
            }
            assert(all@.subrange(0, i + 1) == all@.subrange(0, i as int).push(k));
            assert(!all@.subrange(0, i as int).contains(k)) by {
                if all@.subrange(0, i as int).contains(k) {
                    let m = choose|m: int| 0 <= m < i && all@.subrange(0, i as int)[m] == k;
                    assert(all@[m] == all@[i as int]);
                }
            }
            let ghost prev = keys@;
            assert(!prev.contains(k));
            match self.entry(k) {
                Some(e) => {
                    if !e.trashed {
                        keys.push(k);
                        proof {
                            assert(keys@ == prev.push(k));
                            assert forall|a: int, b: int| 0 <= a < b < keys@.len() implies keys@[a] != keys@[b] by {
                                if b == keys@.len() - 1 {
                                    assert(keys@[a] == prev[a]);
                                    assert(prev.contains(prev[a]));
                                } else {
                                    assert(keys@[a] == prev[a]);
                                    assert(keys@[b] == prev[b]);
                                }
                            }
                        }
                    }
                },
                None => {},
            }
            proof {
                assert forall|k2: u64| keys@.contains(k2) <==> (all@.subrange(0, i + 1).contains(k2) && !self.entries()[k2].trashed) by {
                    if k2 == k {
                        assert(all@.subrange(0, i + 1)[i as int] == k);
                        if keys@.contains(k2) && keys@ == prev {
                            assert(false);
                        }
                        if keys@ != prev {
                            assert(keys@[keys@.len() - 1] == k);
                        }
                    } else {
                        assert(all@.subrange(0, i + 1).contains(k2) == all@.subrange(0, i as int).contains(k2));
                        if keys@ != prev {
                            assert(keys@.contains(k2) == prev.contains(k2)) by {
                                if keys@.contains(k2) {
                                    let a = choose|a: int| 0 <= a < keys@.len() && keys@[a] == k2;
                                    assert(a < prev.len());
                                    assert(prev[a] == k2);
                                }
                                if prev.contains(k2) {
                                    let a = choose|a: int| 0 <= a < prev.len() && prev[a] == k2;
                                    assert(keys@[a] == k2);
                                }
                            }
                        }
                    }
                }
            }
            i = i + 1;
        }
        assert(all@.subrange(0, all.len() as int) == all@);
        proof {
            assert forall|k: u64| keys@.contains(k) <==> self.entries().contains_key(k) && !self.entries()[k].trashed by {
                if self.entries().contains_key(k) {
                    assert(all@.to_set().contains(k));
                }
            }
        }
        keys
    }


    /// Inserts a stroke that arrived through the store's task channel. Imported images
    /// are selected right away, and the caller switches to the selector pen for them.
    pub fn insert_stroke_from_task(&mut self, kind: StrokeKind) -> (inserted: InsertedStroke)
        requires
            old(self).wf(),
            old(self).counter() < u32::MAX,
            old(self).entries().len() < 0xFFFF_FFFEnat,
        ensures
            final(self).wf(),
            !old(self).entries().contains_key(inserted.key),
            inserted.activate_selector == is_image(kind),
            final(self).counter() == old(self).counter() + 1,
            final(self).entries() == old(self).entries().insert(inserted.key, inserted_entry(kind, final(self).counter())),
    {
        let key = self.insert_stroke(kind);
        let image = match kind {
            StrokeKind::VectorImage | StrokeKind::BitmapImage => true,
            _ => false,
        };
        if image {
            self.set_selected(key, true);
        }
        assert(self.entries() =~= old(self).entries().insert(key, inserted_entry(kind, self.counter())));
        InsertedStroke { key, activate_selector: image }
    }

    /// Handles a task of the store's channel: rendering tasks ask for a redraw (their
    /// images go to the caller's rendering, and a stroke whose rendering was replaced
    /// needs no regeneration any more), an insertion inserts the stroke as
    /// `insert_stroke_from_task` does and asks for a resize and a redraw, and the quit
    /// task stops the listening.
    pub fn handle_state_task(&mut self, task: StateTask) -> (outcome: TaskOutcome)
        requires
            old(self).wf(),
            task is InsertStroke ==> old(self).counter() < u32::MAX && old(self).entries().len() < 0xFFFF_FFFEnat,
        ensures
            final(self).wf(),
            outcome.continue_listening == !(task is Quit),
            match task {
                StateTask::InsertStroke { kind } => outcome.inserted matches Some(ins) && {
                    &&& outcome.continue_listening && outcome.queue_draw && outcome.queue_resize
                    &&& !old(self).entries().contains_key(ins.key)
                    &&& ins.activate_selector == is_image(kind)
                    &&& final(self).counter() == old(self).counter() + 1
                    &&& final(self).entries() == old(self).entries().insert(ins.key, inserted_entry(kind, final(self).counter()))
                },
                StateTask::UpdateStrokeWithImages { key } => {
                    &&& outcome == outcome_without_insertion(task)
                    &&& final(self).counter() == old(self).counter()
                    &&& final(self).entries() == (if old(self).entries().contains_key(key) {
                        old(self).entries().insert(key, rendered(old(self).entries()[key]))
                    } else {
                        old(self).entries()
                    })
                },
                _ => {
                    &&& outcome == outcome_without_insertion(task)
                    &&& final(self).entries() == old(self).entries()
                    &&& final(self).counter() == old(self).counter()
                },
            },
    {
        match task {
            StateTask::InsertStroke { kind } => {
                let ins = self.insert_stroke_from_task(kind);
                TaskOutcome { continue_listening: true, queue_draw: true, queue_resize: true, inserted: Some(ins) }
            },
            StateTask::UpdateStrokeWithImages { key } => {
                if let Some(e) = self.entry(key) {
                    self.replace_entry(key, StrokeEntry { regenerate: false, ..e });
                }
                TaskOutcome { continue_listening: true, queue_draw: true, queue_resize: false, inserted: None }
            },
            StateTask::Quit => TaskOutcome { continue_listening: false, queue_draw: false, queue_resize: false, inserted: None },
            _ => TaskOutcome { continue_listening: true, queue_draw: true, queue_resize: false, inserted: None },
        }
    }

    /// Chooses what happens to a new element for a stroke, by its kind, and marks its
    /// rendering for regeneration. The stroke must be in the store.
    pub fn add_to_stroke(&mut self, key: u64) -> (action: ElementAction)
        requires
            old(self).wf(),
            old(self).entries().contains_key(key),
        ensures
            final(self).wf(),
            action == element_action_for(old(self).entries()[key].kind),
            final(self).counter() == old(self).counter(),
            final(self).entries() == old(self).entries().insert(key, with_regenerate(old(self).entries()[key])),
    {
        let e = self.entry(key).unwrap();
        self.replace_entry(key, StrokeEntry { regenerate: true, ..e });
        match e.kind {
            StrokeKind::MarkerStroke | StrokeKind::BrushStroke => ElementAction::PushElement,
            StrokeKind::ShapeStroke => ElementAction::UpdateShape,
            StrokeKind::VectorImage | StrokeKind::BitmapImage => ElementAction::Ignore,
        }
    }

    /// The keys of all strokes, by ascending chrono stamp.
    pub fn keys_sorted_chrono(&self) -> (keys: Vec<u64>)
        requires
            self.wf(),
        ensures
            chrono_ordered(self.entries(), keys@, None),
    {
        self.chrono_sorted_keys(None)
    }

    /// Selects or deselects each listed stroke that is in the store.
    pub fn set_selected_keys(&mut self, keys: &Vec<u64>, selected: bool)
        requires
            old(self).wf(),
        ensures
            final(self).wf(),
            final(self).counter() == old(self).counter(),
            final(self).entries().dom() == old(self).entries().dom(),
            forall|k: u64| #[trigger] old(self).entries().contains_key(k) ==> final(self).entries()[k] == (
                if keys@.contains(k) {
                    StrokeEntry { selected, ..old(self).entries()[k] }
                } else {
                    old(self).entries()[k]
                }),
    {
        self.set_flag_keys(keys, false, selected);
    }

    /// Trashes or restores each listed stroke that is in the store.
    pub fn set_trashed_keys(&mut self, keys: &Vec<u64>, trash: bool)
        requires
            old(self).wf(),
        ensures
            final(self).wf(),
            final(self).counter() == old(self).counter(),
            final(self).entries().dom() == old(self).entries().dom(),
            forall|k: u64| #[trigger] old(self).entries().contains_key(k) ==> final(self).entries()[k] == (
                if keys@.contains(k) {
                    StrokeEntry { trashed: trash, ..old(self).entries()[k] }
                } else {
                    old(self).entries()[k]
                }),
    {
        self.set_flag_keys(keys, true, trash);
    }

    /// Sets the trash flag (`trash_flag`) or the selection flag of each listed stroke.
    fn set_flag_keys(&mut self, keys: &Vec<u64>, trash_flag: bool, value: bool)
        requires
            old(self).wf(),
        ensures
            final(self).wf(),
            final(self).counter() == old(self).counter(),
            final(self).entries().dom() == old(self).entries().dom(),
            forall|k: u64| #[trigger] old(self).entries().contains_key(k) ==> final(self).entries()[k] == (
                if keys@.contains(k) {
                    flagged(old(self).entries()[k], trash_flag, value)
                } else {
                    old(self).entries()[k]
                }),
    {
        let mut i: usize = 0;
        while i < keys.len()
            invariant
                self.wf(),
                i <= keys.len(),
                self.counter() == old(self).counter(),
                self.entries().dom() == old(self).entries().dom(),
                forall|k: u64| #[trigger] old(self).entries().contains_key(k) ==> self.entries()[k] == (
                    if keys@.subrange(0, i as int).contains(k) {
                        flagged(old(self).entries()[k], trash_flag, value)
                    } else {
                        old(self).entries()[k]
                    }),
            decreases keys.len() - i,
        {
            let k = keys[i];
            let ghost prev = self.entries();
            if trash_flag {
                self.set_trashed(k, value);
            } else {
                self.set_selected(k, value);
            }
            proof {
                assert(self.entries().dom() =~= prev.dom());
                assert forall|k2: u64| #[trigger] old(self).entries().contains_key(k2) implies self.entries()[k2] == (
                    if keys@.subrange(0, i + 1).contains(k2) {
                        flagged(old(self).entries()[k2], trash_flag, value)
                    } else {
                        old(self).entries()[k2]
                    }) by {
                    assert(keys@.subrange(0, i + 1) == keys@.subrange(0, i as int).push(k));
                    if k2 != k {
                        assert(keys@.subrange(0, i + 1).contains(k2) == keys@.subrange(0, i as int).contains(k2));
                    } else {
                        assert(keys@.subrange(0, i + 1)[i as int] == k);
                    }
                }
            }
            i = i + 1;
        }
        assert(keys@.subrange(0, keys.len() as int) == keys@);
    }

}

/// A stroke that was just inserted is drawn last, on top of every other stroke: it
/// closes the render order of the store after the insertion.
pub proof fn lemma_inserted_stroke_drawn_last(
    before: StrokesState,
    after: StrokesState,
    key: u64,
    kind: StrokeKind,
    order: Seq<u64>,
)
    requires
        before.wf(),
        after.wf(),
        !before.entries().contains_key(key),
        after.counter() == before.counter() + 1,
        after.entries() == before.entries().insert(key, new_entry(kind, after.counter())),
        chrono_ordered(after.entries(), order, Some(false)),
    ensures
        order.len() > 0,
        order.last() == key,
{
    let e = after.entries();
    assert(e.contains_key(key));
    assert(shown(e[key], false));
    assert(order.contains(key));
    let i = choose|i: int| 0 <= i < order.len() && order[i] == key;
    if i < order.len() - 1 {
        let last = order[order.len() - 1];
        assert(e.contains_key(last));
        assert(e[key].chrono < e[last].chrono);
        assert(e[last].chrono <= after.counter());
        assert(false);
    }
}

/// Removing a stroke right after inserting it gives back the strokes and components
/// the store had before.
pub proof fn lemma_remove_undoes_insert(before: StrokesState, inserted: StrokesState, removed: StrokesState, key: u64, entry: StrokeEntry)
    requires
        before.wf(),
        !before.entries().contains_key(key),
        inserted.entries() == before.entries().insert(key, entry),
        removed.entries() == inserted.entries().remove(key),
    ensures
        removed.entries() == before.entries(),
{
    assert(removed.entries() =~= before.entries());
}

/// Trashing a stroke and restoring it, or selecting it and deselecting it again, gives
/// back the strokes the store had: setting the trash or the selection flag of a stroke
/// is undone by setting it back to its old value.
pub proof fn lemma_flag_change_undone(
    before: StrokesState,
    changed: StrokesState,
    restored: StrokesState,
    key: u64,
    trash_flag: bool,
    value: bool,
)
    requires
        before.wf(),
        before.entries().contains_key(key),
        changed.entries() == before.entries().insert(key, flagged(before.entries()[key], trash_flag, value)),
        restored.entries() == changed.entries().insert(
            key,
            flagged(changed.entries()[key], trash_flag, if trash_flag { before.entries()[key].trashed } else { before.entries()[key].selected }),
        ),
    ensures
        restored.entries() == before.entries(),
{
    assert(restored.entries() =~= before.entries());
}

/// A flag set on a stroke reads back as set, and every other component and every other
/// stroke stays as it was.
pub proof fn lemma_flag_reads_back(before: StrokesState, after: StrokesState, key: u64, other: u64, trash_flag: bool, value: bool)
    requires
        before.wf(),
        before.entries().contains_key(key),
        after.entries() == before.entries().insert(key, flagged(before.entries()[key], trash_flag, value)),
    ensures
        after.entries().contains_key(key),
        trash_flag ==> after.entries()[key].trashed == value && after.entries()[key].selected == before.entries()[key].selected,
        !trash_flag ==> after.entries()[key].selected == value && after.entries()[key].trashed == before.entries()[key].trashed,
        after.entries()[key].kind == before.entries()[key].kind,
        after.entries()[key].chrono == before.entries()[key].chrono,
        other != key ==> after.entries().contains_key(other) == before.entries().contains_key(other),
        other != key && before.entries().contains_key(other) ==> after.entries()[other] == before.entries()[other],
{
}

/// Removing a stroke right after inserting it hands back the inserted kind and leaves
/// the strokes the store had before, with the counter still advanced; removing it a
/// second time hands back nothing and changes nothing.
pub proof fn lemma_remove_after_insert(
    before: StrokesState,
    inserted: StrokesState,
    removed: StrokesState,
    removed_again: StrokesState,
    key: u64,
    kind: StrokeKind,
    first: Option<StrokeKind>,
    second: Option<StrokeKind>,
)
    requires
        before.wf(),
        !before.entries().contains_key(key),
        inserted.counter() == before.counter() + 1,
        inserted.entries() == before.entries().insert(key, new_entry(kind, inserted.counter())),
        removed.counter() == inserted.counter(),
        removed.entries() == inserted.entries().remove(key),
        first == (if inserted.entries().contains_key(key) { Some(inserted.entries()[key].kind) } else { None }),
        removed_again.counter() == removed.counter(),
        removed_again.entries() == removed.entries().remove(key),
        second == (if removed.entries().contains_key(key) { Some(removed.entries()[key].kind) } else { None }),
    ensures
        first == Some(kind),
        second is None,
        removed.entries() == before.entries(),
        removed_again.entries() == before.entries(),
        removed_again.counter() == before.counter() + 1,
{
    assert(removed.entries() =~= before.entries());
    assert(removed_again.entries() =~= before.entries());
}

/// No stroke is drawn both in the layer of unselected strokes and in the selection.
pub proof fn lemma_layers_disjoint(s: StrokesState, drawn: Seq<u64>, selection: Seq<u64>, key: u64)
    requires
        s.wf(),
        chrono_ordered(s.entries(), drawn, Some(false)),
        chrono_ordered(s.entries(), selection, Some(true)),
    ensures
        !(drawn.contains(key) && selection.contains(key)),
{
    if drawn.contains(key) && selection.contains(key) {
        let i = choose|i: int| 0 <= i < drawn.len() && drawn[i] == key;
        let j = choose|j: int| 0 <= j < selection.len() && selection[j] == key;
        assert(s.entries().contains_key(drawn[i]));
        assert(s.entries().contains_key(selection[j]));
        assert(shown(s.entries()[drawn[i]], false));
        assert(shown(s.entries()[selection[j]], true));
    }
}

/// A trashed stroke is drawn in no layer.
pub proof fn lemma_trashed_not_drawn(s: StrokesState, order: Seq<u64>, selection: bool, key: u64)
    requires
        s.wf(),
        s.entries().contains_key(key),
        s.entries()[key].trashed,
        chrono_ordered(s.entries(), order, Some(selection)),
    ensures
        !order.contains(key),
{
    if order.contains(key) {
        let i = choose|i: int| 0 <= i < order.len() && order[i] == key;
        assert(s.entries().contains_key(order[i]));
        assert(shown(s.entries()[order[i]], selection));
    }
}

/// The order of a listing is determined by the store: two listings with the same
/// filter of the same strokes are equal.
pub proof fn lemma_render_order_unique(s: StrokesState, a: Seq<u64>, b: Seq<u64>, filter: Option<bool>)
    requires
        s.wf(),
        chrono_ordered(s.entries(), a, filter),
        chrono_ordered(s.entries(), b, filter),
    ensures
        a == b,
{
    let e = s.entries();
    assert(a.to_set() == b.to_set()) by {
        assert forall|k: u64| a.to_set().contains(k) <==> b.to_set().contains(k) by {
            if a.contains(k) {
                let i = choose|i: int| 0 <= i < a.len() && a[i] == k;
                assert(e.contains_key(a[i]));
                assert(listed(e[a[i]], filter));
            }
            if b.contains(k) {
                let i = choose|i: int| 0 <= i < b.len() && b[i] == k;
                assert(e.contains_key(b[i]));
                assert(listed(e[b[i]], filter));
            }
        }
    }
    lemma_sorted_by_chrono_unique(e, a, b);
}

/// Two sequences of keys of `e`, each strictly ascending by chrono stamp, that hold the
/// same keys are equal.
proof fn lemma_sorted_by_chrono_unique(e: Map<u64, StrokeEntry>, a: Seq<u64>, b: Seq<u64>)
    requires
        forall|i: int| 0 <= i < a.len() ==> #[trigger] e.contains_key(a[i]),
        forall|i: int| 0 <= i < b.len() ==> #[trigger] e.contains_key(b[i]),
        forall|i: int, j: int| 0 <= i < j < a.len() ==> e[a[i]].chrono < e[a[j]].chrono,
        forall|i: int, j: int| 0 <= i < j < b.len() ==> e[b[i]].chrono < e[b[j]].chrono,
        a.to_set() == b.to_set(),
    ensures
        a == b,
    decreases a.len() + b.len(),
{
    if a.len() == 0 {
        if b.len() > 0 {
            assert(b.to_set().contains(b[0]));
            assert(a.to_set().contains(b[0]));
        }
        assert(b =~= a);
    } else if b.len() == 0 {
        assert(a.to_set().contains(a[0]));
        assert(b.to_set().contains(a[0]));
    } else {
        let la = a.last();
        let lb = b.last();
        assert(a.to_set().contains(la));
        assert(b.to_set().contains(lb));
        assert(b.to_set().contains(la));
        assert(a.to_set().contains(lb));
        let ia = choose|i: int| 0 <= i < a.len() && a[i] == lb;
        let ib = choose|i: int| 0 <= i < b.len() && b[i] == la;
        if ia < a.len() - 1 {
            assert(e[a[ia]].chrono < e[a[a.len() - 1]].chrono);
            if ib < b.len() - 1 {
                assert(e[b[ib]].chrono < e[b[b.len() - 1]].chrono);
            }
            assert(false);
        }
        assert(la == lb);
        let a2 = a.drop_last();
        let b2 = b.drop_last();
        assert(a2.to_set() == b2.to_set()) by {
            assert forall|k: u64| a2.to_set().contains(k) <==> b2.to_set().contains(k) by {
                if a2.contains(k) {
                    let i = choose|i: int| 0 <= i < a2.len() && a2[i] == k;
                    assert(a[i] == k);
                    assert(a.to_set().contains(k));
                    assert(b.to_set().contains(k));
                    let j = choose|j: int| 0 <= j < b.len() && b[j] == k;
                    if j == b.len() - 1 {
                        assert(e[a[i]].chrono < e[a[a.len() - 1]].chrono);
                    }
                    assert(b2[j] == k);
                }
                if b2.contains(k) {
                    let i = choose|i: int| 0 <= i < b2.len() && b2[i] == k;
                    assert(b[i] == k);
                    assert(b.to_set().contains(k));
                    assert(a.to_set().contains(k));
                    let j = choose|j: int| 0 <= j < a.len() && a[j] == k;
                    if j == a.len() - 1 {
                        assert(e[b[i]].chrono < e[b[b.len() - 1]].chrono);
                    }
                    assert(a2[j] == k);
                }
            }
        }
        assert forall|i: int| 0 <= i < a2.len() implies #[trigger] e.contains_key(a2[i]) by {
            assert(a2[i] == a[i]);
        }
        assert forall|i: int| 0 <= i < b2.len() implies #[trigger] e.contains_key(b2[i]) by {
            assert(b2[i] == b[i]);
        }
        assert forall|i: int, j: int| 0 <= i < j < a2.len() implies e[a2[i]].chrono < e[a2[j]].chrono by {
            assert(a2[i] == a[i] && a2[j] == a[j]);
        }
        assert forall|i: int, j: int| 0 <= i < j < b2.len() implies e[b2[i]].chrono < e[b2[j]].chrono by {
            assert(b2[i] == b[i] && b2[j] == b[j]);
        }
        lemma_sorted_by_chrono_unique(e, a2, b2);
        assert(a =~= a2.push(la));
        assert(b =~= b2.push(lb));
    }
}

/// A stroke is drawn in the layer of unselected strokes exactly when it renders, is not
/// trashed and is not selected, and in the selection exactly when it renders, is not
/// trashed and is selected; the full chrono listing holds every stroke. Each listing
/// names every key once and runs by ascending chrono stamp.
pub proof fn lemma_listings_by_components(s: StrokesState, keys: Seq<u64>, filter: Option<bool>, k: u64, i: int, j: int)
    requires
        s.wf(),
        chrono_ordered(s.entries(), keys, filter),
    ensures
        s.entries().contains_key(k) ==> (keys.contains(k) <==> match filter {
            None => true,
            Some(false) => s.entries()[k].render && !s.entries()[k].trashed && !s.entries()[k].selected,
            Some(true) => s.entries()[k].render && !s.entries()[k].trashed && s.entries()[k].selected,
        }),
        !s.entries().contains_key(k) ==> !keys.contains(k),
        0 <= i < j < keys.len() ==> keys[i] != keys[j] && s.entries()[keys[i]].chrono < s.entries()[keys[j]].chrono,
{
    if keys.contains(k) {
        let m = choose|m: int| 0 <= m < keys.len() && keys[m] == k;
        assert(s.entries().contains_key(keys[m]));
    }
}

/// A freshly inserted stroke is drawn: it is neither trashed nor selected, it renders,
/// and its rendering is due; an imported image arrives selected and is drawn in the
/// selection.
pub proof fn lemma_new_strokes_are_drawn(kind: StrokeKind, chrono: u32)
    ensures
        !new_entry(kind, chrono).trashed && !new_entry(kind, chrono).selected,
        new_entry(kind, chrono).render && new_entry(kind, chrono).regenerate,
        new_entry(kind, chrono).kind == kind && new_entry(kind, chrono).chrono == chrono,
        inserted_entry(kind, chrono).selected == (kind == StrokeKind::VectorImage || kind == StrokeKind::BitmapImage),
        !inserted_entry(kind, chrono).trashed && inserted_entry(kind, chrono).render,
        inserted_entry(kind, chrono).kind == kind && inserted_entry(kind, chrono).chrono == chrono,
{
}

/// Marker and brush strokes take a new element as a point of their path, shape strokes
/// reshape with it, and images ignore it.
pub proof fn lemma_element_actions(kind: StrokeKind)
    ensures
        (kind == StrokeKind::MarkerStroke || kind == StrokeKind::BrushStroke) <==> element_action_for(kind) == ElementAction::PushElement,
        kind == StrokeKind::ShapeStroke <==> element_action_for(kind) == ElementAction::UpdateShape,
        (kind == StrokeKind::VectorImage || kind == StrokeKind::BitmapImage) <==> element_action_for(kind) == ElementAction::Ignore,
{
}

} // verus!
