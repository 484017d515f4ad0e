//! The workspace list of the workspace browser: its entries and the selected row.

use vstd::prelude::*;

verus! {

/// A workspace: a folder with an icon, a color and a name. The color is carried
/// as it is; nothing here reads it.
pub struct WorkspaceListEntry<C> {
    pub dir: String,
    pub icon: String,
    pub color: C,
    pub name: String,
}

impl<C: Copy> WorkspaceListEntry<C> {
    /// A copy of the entry.
    pub fn duplicate(&self) -> (e: Self)
        ensures
            e == *self,
    {
        WorkspaceListEntry { dir: self.dir.clone(), icon: self.icon.clone(), color: self.color, name: self.name.clone() }
    }
}

/// The list of workspaces, with at most one selected row.
pub struct WorkspaceList<C> {
    entries: Vec<WorkspaceListEntry<C>>,
    selected: Option<usize>,
}

/// The row that selecting `index` selects in a list of `n` rows: the index, or the
/// last row when it is past the end; no row in an empty list.
pub open spec fn clamped_selection(index: int, n: int) -> Option<usize> {
    if n == 0 {
        None
    } else if index < n - 1 {
        Some(index as usize)
    } else {
        Some((n - 1) as usize)
    }
}

impl<C: Copy> WorkspaceList<C> {
    /// The entries, in order.
    pub closed spec fn entries(&self) -> Seq<WorkspaceListEntry<C>> {
        self.entries@
    }

    /// The selected row.
    pub closed spec fn selection(&self) -> Option<usize> {
        self.selected
    }

    /// The selected row, when there is one, is a row of the list.
    pub open spec fn wf(&self) -> bool {
        &&& self.entries().len() <= u32::MAX
        &&& self.selection() matches Some(i) ==> i < self.entries().len()
    }

    /// An empty list with nothing selected.
    pub fn new() -> (l: Self)
        ensures
            l.wf(),
            l.entries() == Seq::<WorkspaceListEntry<C>>::empty(),
            l.selection() is None,
    {
        WorkspaceList { entries: Vec::new(), selected: None }
    }

    /// The number of workspaces.
    pub fn n_items(&self) -> (n: usize)
        ensures
            n == self.entries().len(),
    {
        self.entries.len()
    }

    /// A copy of the workspace at row `i`.
    pub fn entry_at(&self, i: usize) -> (e: WorkspaceListEntry<C>)
        requires
            i < self.entries().len(),
        ensures
            e == self.entries()[i as int],
    {
        self.entries[i].duplicate()
    }

    /// The index of the selected workspace.
    pub fn selected_workspace_index(&self) -> (i: Option<usize>)
        ensures
            i == self.selection(),
    {
        self.selected
    }

    /// A copy of the selected workspace.
    pub fn selected_workspacelistentry(&self) -> (e: Option<WorkspaceListEntry<C>>)
        requires
            self.wf(),
        ensures
            match self.selection() {
                Some(i) => e == Some(self.entries()[i as int]),
                None => e is None,
            },
    {
        match self.selected {
            Some(i) => Some(self.entries[i].duplicate()),
            None => None,
        }
    }

    /// Selects the row at `index`, or the last row when `index` is past the end.
    /// Selects nothing in an empty list.
    pub fn select_workspace_by_index(&mut self, index: usize)
        requires
            old(self).wf(),
        ensures
            final(self).wf(),
            final(self).entries() == old(self).entries(),
            final(self).selection() == clamped_selection(index as int, old(self).entries().len() as int),
    {
        let n = self.entries.len();
        if n == 0 {
            self.selected = None;
        } else if index < n - 1 {
            self.selected = Some(index);
        } else {
            self.selected = Some(n - 1);
        }
    }

    /// Appends a workspace and selects it.
    pub fn push_workspace(&mut self, entry: WorkspaceListEntry<C>)
        requires
            old(self).wf(),
            old(self).entries().len() < u32::MAX,
        ensures
            final(self).wf(),
            final(self).entries() == old(self).entries().push(entry),
            final(self).selection() == Some(old(self).entries().len() as usize),
    {
        self.entries.push(entry);
        let n = self.entries.len();
        self.select_workspace_by_index(n - 1);
    }

    /// Removes the selected workspace, or the last one when none is selected, then
    /// selects the row at the same index, or the new last row. The last remaining
    /// workspace is never removed: with one row or none the list stays as it is.
    pub fn remove_selected_workspace(&mut self)
        requires
            old(self).wf(),
        ensures
            final(self).wf(),
            old(self).entries().len() <= 1 ==> final(self).entries() == old(self).entries() && final(self).selection() == old(self).selection(),
            old(self).entries().len() > 1 ==> {
                let i = match old(self).selection() {
                    Some(i) => i as int,
                    None => old(self).entries().len() - 1,
                };
                &&& final(self).entries() == old(self).entries().remove(i)
                &&& final(self).selection() == clamped_selection(i, old(self).entries().len() - 1)
            },
    {
        let n = self.entries.len();
        if n > 1 {
            let i = match self.selected {
                Some(i) => i,
                None => n - 1,
            };
            self.entries.remove(i);
            self.selected = None;
            self.select_workspace_by_index(i);
        }
    }

    /// Replaces the selected workspace, keeping it selected. Does nothing when none
    /// is selected.
    pub fn replace_selected_workspacelistentry(&mut self, entry: WorkspaceListEntry<C>)
        requires
            old(self).wf(),
        ensures
            final(self).wf(),
            final(self).selection() == old(self).selection(),
            final(self).entries() == (match old(self).selection() {
                Some(i) => old(self).entries().update(i as int, entry),
                None => old(self).entries(),
            }),
    {
        if let Some(i) = self.selected {
            self.entries.set(i, entry);
            self.select_workspace_by_index(i);
        }
    }

    /// Sets the folder of the selected workspace.
    pub fn set_selected_workspace_dir(&mut self, dir: String)
        requires
            old(self).wf(),
        ensures
            final(self).wf(),
            final(self).selection() == old(self).selection(),
            final(self).entries() == (match old(self).selection() {
                Some(i) => old(self).entries().update(i as int, WorkspaceListEntry { dir, ..old(self).entries()[i as int] }),
                None => old(self).entries(),
            }),
    {
        if let Some(i) = self.selected {
            let e = self.entries[i].duplicate();
            self.entries.set(i, WorkspaceListEntry { dir, ..e });
            self.select_workspace_by_index(i);
        }
    }

    /// Sets the icon of the selected workspace.
    pub fn set_selected_workspace_icon(&mut self, icon: String)
        requires
            old(self).wf(),
        ensures
            final(self).wf(),
            final(self).selection() == old(self).selection(),
            final(self).entries() == (match old(self).selection() {
                Some(i) => old(self).entries().update(i as int, WorkspaceListEntry { icon, ..old(self).entries()[i as int] }),
                None => old(self).entries(),
            }),
    {
        if let Some(i) = self.selected {
            let e = self.entries[i].duplicate();
            self.entries.set(i, WorkspaceListEntry { icon, ..e });
            self.select_workspace_by_index(i);
        }
    }

    /// Sets the color of the selected workspace.
    pub fn set_selected_workspace_color(&mut self, color: C)
        requires
            old(self).wf(),
        ensures
            final(self).wf(),
            final(self).selection() == old(self).selection(),
            final(self).entries() == (match old(self).selection() {
                Some(i) => old(self).entries().update(i as int, WorkspaceListEntry { color, ..old(self).entries()[i as int] }),
                None => old(self).entries(),
            }),
    {
        if let Some(i) = self.selected {
            let e = self.entries[i].duplicate();
            self.entries.set(i, WorkspaceListEntry { color, ..e });
            self.select_workspace_by_index(i);
        }
    }

    /// Sets the name of the selected workspace.
    pub fn set_selected_workspace_name(&mut self, name: String)
        requires
            old(self).wf(),
        ensures
            final(self).wf(),
            final(self).selection() == old(self).selection(),
            final(self).entries() == (match old(self).selection() {
                Some(i) => old(self).entries().update(i as int, WorkspaceListEntry { name, ..old(self).entries()[i as int] }),
                None => old(self).entries(),
            }),
    {
        if let Some(i) = self.selected {
            let e = self.entries[i].duplicate();
            self.entries.set(i, WorkspaceListEntry { name, ..e });
            self.select_workspace_by_index(i);
        }
    }

    /// Adds a copy of the selected workspace, or the given default one when none is
    /// selected, and selects it.
    pub fn add_workspace(&mut self, default_entry: WorkspaceListEntry<C>)
        requires
            old(self).wf(),
            old(self).entries().len() < u32::MAX,
        ensures
            final(self).wf(),
            final(self).entries() == old(self).entries().push(match old(self).selection() {
                Some(i) => old(self).entries()[i as int],
                None => default_entry,
            }),
            final(self).selection() == Some(old(self).entries().len() as usize),
    {
        let entry = match self.selected_workspacelistentry() {
            Some(e) => e,
            None => default_entry,
        };
        self.push_workspace(entry);
    }

    /// The index saved to the settings: the selected row, or the first.
    pub fn index_to_save(&self) -> (i: usize)
        ensures
            i == match self.selection() {
                Some(i) => i,
                None => 0,
            },
    {
        match self.selected {
            Some(i) => i,
            None => 0,
        }
    }

    /// Replaces the list with the one loaded from the settings and selects the saved
    /// index (clamped to the list).
    pub fn load_from_settings(&mut self, entries: Vec<WorkspaceListEntry<C>>, selected_index: usize)
        requires
            entries.len() <= u32::MAX,
        ensures
            final(self).wf(),
            final(self).entries() == entries@,
            final(self).selection() == clamped_selection(selected_index as int, entries.len() as int),
    {
        self.entries = entries;
        self.selected = None;
        self.select_workspace_by_index(selected_index);
    }

    /// Whether the button that removes the selected workspace is sensitive: only when
    /// more than one workspace is left.
    pub fn remove_button_sensitive(&self) -> (b: bool)
        ensures
            b == (self.entries().len() > 1),
    {
        self.entries.len() > 1
    }

    /// Whether the button that edits the selected workspace is sensitive.
    pub fn edit_button_sensitive(&self) -> (b: bool)
        ensures
            b == (self.entries().len() > 0),
    {
        self.entries.len() > 0
    }
}

/// Pushing a workspace onto a list that has one and then removing the selected one
/// gives back the entries the list had before; the selection lands on the row that is
/// now last.
pub proof fn lemma_remove_undoes_push<C>(
    before: Seq<WorkspaceListEntry<C>>,
    entry: WorkspaceListEntry<C>,
    pushed: Seq<WorkspaceListEntry<C>>,
    pushed_selection: usize,
    removed: Seq<WorkspaceListEntry<C>>,
    removed_selection: Option<usize>,
)
    requires
        before.len() >= 1,
        pushed == before.push(entry),
        pushed_selection == before.len(),
        removed == pushed.remove(pushed_selection as int),
        removed_selection == clamped_selection(pushed_selection as int, pushed.len() - 1),
    ensures
        removed == before,
        removed_selection == clamped_selection(before.len() - 1, before.len() as int),
{
    assert(removed =~= before);
}

/// Selecting a row selects that row when it exists and the last row when the index is
/// past the end, and nothing in an empty list: the selection is always a row of the list.
pub proof fn lemma_selection_is_clamped(index: int, n: int)
    requires
        0 <= index,
        0 <= n <= usize::MAX,
    ensures
        n == 0 ==> clamped_selection(index, n) is None,
        n > 0 && index < n ==> clamped_selection(index, n) == Some(index as usize),
        n > 0 && index >= n ==> clamped_selection(index, n) == Some((n - 1) as usize),
        clamped_selection(index, n) matches Some(i) ==> i < n,
{
}

} // verus!
