//! Which preset each window is assigned, and whether it is kept there.
//!
//! The store has two levels: a bundle identifier leads to the table of that
//! application's windows, and a window identifier leads to the window's
//! assignment. A window without an entry counts as assigned to the whole
//! screen and not kept there.

use dashmap::DashMap;
use std::collections::HashMap;
use vstd::prelude::*;

use crate::layout::LayoutPreset;
use crate::wrappers::WindowMagicId;

verus! {

broadcast use vstd::std_specs::hash::group_hash_axioms;

/// The preset of a window, and whether the window is moved back to it
/// whenever it strays.
#[derive(Clone, Copy, Debug, PartialEq, Eq, Structural)]
pub struct WindowLayoutAssignment {
    pub preset: LayoutPreset,
    pub enabled: bool,
}

/// The assignments of one application's windows, by window identifier.
pub type WindowTable = Map<u32, WindowLayoutAssignment>;

/// The tables of all applications, by the text of their bundle identifier.
pub type Assignments = Map<Seq<char>, WindowTable>;

#[verifier::external_type_specification]
#[verifier::external_body]
#[verifier::reject_recursive_types(K)]
#[verifier::reject_recursive_types(V)]
#[verifier::reject_recursive_types(S)]
pub struct ExDashMap<K, V, S>(DashMap<K, V, S>);

/// What a concurrent map of window tables holds.
pub uninterp spec fn tables_of(
    map: DashMap<String, HashMap<u32, WindowLayoutAssignment>>,
) -> Assignments;

/// The store of layout assignments.
pub struct LayoutAssignments {
    tables: DashMap<String, HashMap<u32, WindowLayoutAssignment>>,
}

/// One change to the store.
pub enum StoreChange {
    /// A bundle is registered: its table starts empty.
    Register { bundle_id: Seq<char> },
    /// A window is seen: it gets the default assignment unless it has one.
    Observe { bundle_id: Seq<char>, window: u32 },
    /// A window is assigned a preset and kept there.
    Assign { bundle_id: Seq<char>, window: u32, preset: LayoutPreset },
    /// Keeping a window in its preset is switched on or off.
    Toggle { bundle_id: Seq<char>, window: u32 },
}

/// The assignment of a window that has none: the whole screen, not kept.
pub open spec fn default_assignment() -> WindowLayoutAssignment {
    WindowLayoutAssignment { preset: LayoutPreset::Full, enabled: false }
}

/// The store without any bundle.
pub open spec fn no_assignments() -> Assignments {
    Map::empty()
}

/// The table of a bundle, empty if the bundle has none.
pub open spec fn table_of(store: Assignments, bundle_id: Seq<char>) -> WindowTable {
    if store.contains_key(bundle_id) {
        store[bundle_id]
    } else {
        Map::empty()
    }
}

/// The entry of a window, if it has one.
pub open spec fn entry_of(store: Assignments, bundle_id: Seq<char>, window: u32) -> Option<
    WindowLayoutAssignment,
> {
    if table_of(store, bundle_id).contains_key(window) {
        Some(table_of(store, bundle_id)[window])
    } else {
        None
    }
}

/// The assignment that governs a window: its entry, or the default.
pub open spec fn effective(store: Assignments, bundle_id: Seq<char>, window: u32)
    -> WindowLayoutAssignment {
    match entry_of(store, bundle_id, window) {
        Some(assignment) => assignment,
        None => default_assignment(),
    }
}

/// The store with one window's entry set and everything else kept.
pub open spec fn with_assignment(
    store: Assignments,
    bundle_id: Seq<char>,
    window: u32,
    assignment: WindowLayoutAssignment,
) -> Assignments {
    store.insert(bundle_id, table_of(store, bundle_id).insert(window, assignment))
}

/// An assignment with keeping switched the other way.
pub open spec fn toggled(assignment: WindowLayoutAssignment) -> WindowLayoutAssignment {
    WindowLayoutAssignment { preset: assignment.preset, enabled: !assignment.enabled }
}

/// The store after one change.
pub open spec fn changed(store: Assignments, change: StoreChange) -> Assignments {
    match change {
        StoreChange::Register { bundle_id } => store.insert(bundle_id, Map::empty()),
        StoreChange::Observe { bundle_id, window } => with_assignment(
            store,
            bundle_id,
            window,
            effective(store, bundle_id, window),
        ),
        StoreChange::Assign { bundle_id, window, preset } => with_assignment(
            store,
            bundle_id,
            window,
            WindowLayoutAssignment { preset, enabled: true },
        ),
        StoreChange::Toggle { bundle_id, window } => with_assignment(
            store,
            bundle_id,
            window,
            toggled(effective(store, bundle_id, window)),
        ),
    }
}

/// The store after a run of changes, the first applied first.
pub open spec fn changed_by_all(store: Assignments, changes: Seq<StoreChange>) -> Assignments
    decreases changes.len(),
{
    if changes.len() == 0 {
        store
    } else {
        changed(changed_by_all(store, changes.drop_last()), changes.last())
    }
}

/// Whether a change assigns or toggles the given window.
pub open spec fn sets(change: StoreChange, bundle_id: Seq<char>, window: u32) -> bool {
    match change {
        StoreChange::Assign { bundle_id: b, window: w, .. } => b == bundle_id && w == window,
        StoreChange::Toggle { bundle_id: b, window: w } => b == bundle_id && w == window,
        _ => false,
    }
}

impl Default for WindowLayoutAssignment {
    fn default() -> (assignment: WindowLayoutAssignment)
        ensures
            assignment == default_assignment(),
    {
        WindowLayoutAssignment { preset: LayoutPreset::Full, enabled: false }
    }
}

/// `DashMap::new`: a map that holds nothing.
#[verifier::external_body]
fn tables_new() -> (created: DashMap<String, HashMap<u32, WindowLayoutAssignment>>)
    ensures
        tables_of(created) == no_assignments(),
{
    DashMap::new()
}

/// `DashMap::contains_key`: whether the map holds an entry whose key has the
/// given text.
#[verifier::external_body]
fn tables_contains_key(
    map: &DashMap<String, HashMap<u32, WindowLayoutAssignment>>,
    key: &str,
) -> (found: bool)
    ensures
        found == tables_of(*map).contains_key(key@),
{
    map.contains_key(key)
}

/// `DashMap::insert`: the map holds the value under the key afterwards, in
/// place of any value it held there, and every other entry is kept. The
/// call hands back the value that was replaced.
#[verifier::external_body]
fn tables_insert(
    map: &mut DashMap<String, HashMap<u32, WindowLayoutAssignment>>,
    key: String,
    table: HashMap<u32, WindowLayoutAssignment>,
) -> (replaced: Option<HashMap<u32, WindowLayoutAssignment>>)
    ensures
        tables_of(*final(map)) == tables_of(*old(map)).insert(key@, table@),
        match replaced {
            Some(previous) => tables_of(*old(map)).contains_key(key@) && previous@ == tables_of(
                *old(map),
            )[key@],
            None => !tables_of(*old(map)).contains_key(key@),
        },
{
    map.insert(key, table)
}

/// `DashMap::remove`: the entry under the key leaves the map and is handed
/// back, key and value; every other entry is kept. Without such an entry the
/// map stays as it is and the call hands back `None`.
#[verifier::external_body]
fn tables_remove(
    map: &mut DashMap<String, HashMap<u32, WindowLayoutAssignment>>,
    key: &str,
) -> (removed: Option<(String, HashMap<u32, WindowLayoutAssignment>)>)
    ensures
        tables_of(*final(map)) == tables_of(*old(map)).remove(key@),
        match removed {
            Some((name, table)) => tables_of(*old(map)).contains_key(key@) && name@ == key@
                && table@ == tables_of(*old(map))[key@],
            None => !tables_of(*old(map)).contains_key(key@),
        },
{
    map.remove(key)
}

/// `DashMap::view`: applies [`lookup`] to the table under the key and hands
/// back what it found; `None` without such a table.
#[verifier::external_body]
fn tables_view(
    map: &DashMap<String, HashMap<u32, WindowLayoutAssignment>>,
    key: &str,
    window: u32,
) -> (found: Option<Option<WindowLayoutAssignment>>)
    ensures
        found == (if tables_of(*map).contains_key(key@) {
            Some(entry_of(tables_of(*map), key@, window))
        } else {
            None
        }),
{
    map.view(key, |_, table| lookup(table, window))
}

/// The entry of a window in a table.
fn lookup(table: &HashMap<u32, WindowLayoutAssignment>, window: u32) -> (entry: Option<
    WindowLayoutAssignment,
>)
    ensures
        entry == (if table@.contains_key(window) {
            Some(table@[window])
        } else {
            None
        }),
{
    match table.get(&window) {
        Some(assignment) => Some(*assignment),
        None => None,
    }
}

impl LayoutAssignments {
    /// What the store holds.
    pub closed spec fn view(&self) -> Assignments {
        tables_of(self.tables)
    }

    /// A store without any bundle.
    pub fn new() -> (store: LayoutAssignments)
        ensures
            store@ == no_assignments(),
    {
        LayoutAssignments { tables: tables_new() }
    }

    /// Whether the bundle has a table.
    pub fn contains_bundle(&self, bundle_id: &str) -> (found: bool)
        ensures
            found == self@.contains_key(bundle_id@),
    {
        tables_contains_key(&self.tables, bundle_id)
    }

    /// Registers a bundle: its table is empty afterwards, whatever it held.
    pub fn register(&mut self, bundle_id: &str)
        ensures
            final(self)@ == changed(old(self)@, StoreChange::Register { bundle_id: bundle_id@ }),
    {
        let _ = tables_insert(&mut self.tables, String::from_str(bundle_id), HashMap::new());
    }

    /// Gives the bundle an empty table unless it has one.
    pub fn ensure_bundle(&mut self, bundle_id: &str)
        ensures
            final(self)@ == old(self)@.insert(bundle_id@, table_of(old(self)@, bundle_id@)),
    {
        if !tables_contains_key(&self.tables, bundle_id) {
            let _ = tables_insert(&mut self.tables, String::from_str(bundle_id), HashMap::new());
        } else {
            assert(self@ =~= old(self)@.insert(bundle_id@, table_of(old(self)@, bundle_id@)));
        }
    }

    /// The assignment that governs a window, without touching the store.
    pub fn assignment(&self, bundle_id: &str, window: WindowMagicId) -> (assignment:
        WindowLayoutAssignment)
        ensures
            assignment == effective(self@, bundle_id@, window@),
    {
        match tables_view(&self.tables, bundle_id, window.get()) {
            Some(Some(assignment)) => assignment,
            _ => WindowLayoutAssignment::default(),
        }
    }

    /// The assignment that governs a window. A window without an entry gets
    /// one with the default assignment.
    pub fn observe(&mut self, bundle_id: &str, window: WindowMagicId) -> (assignment:
        WindowLayoutAssignment)
        ensures
            assignment == effective(old(self)@, bundle_id@, window@),
            final(self)@ == changed(
                old(self)@,
                StoreChange::Observe { bundle_id: bundle_id@, window: window@ },
            ),
    {
        let assignment = self.assignment(bundle_id, window);
        self.put(bundle_id, window, assignment);
        assignment
    }

    /// Assigns a window a preset and has it kept there.
    pub fn assign(&mut self, bundle_id: &str, window: WindowMagicId, preset: LayoutPreset)
        ensures
            final(self)@ == changed(
                old(self)@,
                StoreChange::Assign { bundle_id: bundle_id@, window: window@, preset },
            ),
    {
        self.put(bundle_id, window, WindowLayoutAssignment { preset, enabled: true });
    }

    /// Switches keeping a window in its preset on or off. The preset stays.
    /// Hands back the window's assignment after the switch.
    pub fn toggle(&mut self, bundle_id: &str, window: WindowMagicId) -> (assignment:
        WindowLayoutAssignment)
        ensures
            assignment == toggled(effective(old(self)@, bundle_id@, window@)),
            final(self)@ == changed(
                old(self)@,
                StoreChange::Toggle { bundle_id: bundle_id@, window: window@ },
            ),
    {
        let current = self.assignment(bundle_id, window);
        let assignment = WindowLayoutAssignment {
            preset: current.preset,
            enabled: !current.enabled,
        };
        self.put(bundle_id, window, assignment);
        assignment
    }

    /// Sets the entry of one window and keeps every other.
    fn put(&mut self, bundle_id: &str, window: WindowMagicId, assignment: WindowLayoutAssignment)
        ensures
            final(self)@ == with_assignment(old(self)@, bundle_id@, window@, assignment),
    {
        let mut table = match tables_remove(&mut self.tables, bundle_id) {
            Some((_, table)) => table,
            None => HashMap::new(),
        };
        table.insert(window.get(), assignment);
        let _ = tables_insert(&mut self.tables, String::from_str(bundle_id), table);
        assert(self@ =~= with_assignment(old(self)@, bundle_id@, window@, assignment));
    }
}

/// A window that no change has assigned or toggled is governed by the
/// default assignment, whatever else has happened to the store since it was
/// made.
pub proof fn lemma_unassigned_is_default(changes: Seq<StoreChange>, bundle_id: Seq<char>, window: u32)
    requires
        forall|i: int| 0 <= i < changes.len() ==> !sets(#[trigger] changes[i], bundle_id, window),
    ensures
        effective(changed_by_all(no_assignments(), changes), bundle_id, window)
            == default_assignment(),
    decreases changes.len(),
{
    if changes.len() > 0 {
        let before = changes.drop_last();
        assert forall|i: int| 0 <= i < before.len() implies !sets(
            #[trigger] before[i],
            bundle_id,
            window,
        ) by {
            assert(before[i] == changes[i]);
        }
        lemma_unassigned_is_default(before, bundle_id, window);
        assert(!sets(changes.last(), bundle_id, window));
    }
}

/// Toggling a window twice gives it back the assignment that governed it,
/// preset and switch, and changes the assignment of no other window.
pub proof fn lemma_toggle_twice(store: Assignments, bundle_id: Seq<char>, window: u32, other_bundle: Seq<char>, other_window: u32)
    ensures
        ({
            let once = changed(store, StoreChange::Toggle { bundle_id, window });
            let twice = changed(once, StoreChange::Toggle { bundle_id, window });
            &&& effective(once, bundle_id, window).enabled != effective(
                store,
                bundle_id,
                window,
            ).enabled
            &&& effective(once, bundle_id, window).preset == effective(
                store,
                bundle_id,
                window,
            ).preset
            &&& effective(twice, bundle_id, window) == effective(store, bundle_id, window)
            &&& effective(twice, other_bundle, other_window) == effective(
                store,
                other_bundle,
                other_window,
            )
        }),
{
}

/// Assigning a preset governs the window from then on and changes the
/// assignment of no other window.
pub proof fn lemma_assign_sets_one(store: Assignments, bundle_id: Seq<char>, window: u32, preset: LayoutPreset, other_bundle: Seq<char>, other_window: u32)
    ensures
        ({
            let after = changed(store, StoreChange::Assign { bundle_id, window, preset });
            &&& effective(after, bundle_id, window) == (WindowLayoutAssignment {
                preset,
                enabled: true,
            })
            &&& (other_bundle != bundle_id || other_window != window) ==> effective(
                after,
                other_bundle,
                other_window,
            ) == effective(store, other_bundle, other_window)
        }),
{
}

/// Seeing a window changes the assignment that governs no window.
pub proof fn lemma_observe_keeps_all(store: Assignments, bundle_id: Seq<char>, window: u32, other_bundle: Seq<char>, other_window: u32)
    ensures
        effective(
            changed(store, StoreChange::Observe { bundle_id, window }),
            other_bundle,
            other_window,
        ) == effective(store, other_bundle, other_window),
{
}

} // verus!
