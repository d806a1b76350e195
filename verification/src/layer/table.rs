//! Layer storage table — [`LayerTable`] manages all layers by ID and name.

use vstd::prelude::*;
use vstd::string::*;
use super::error::LayerError;
use super::layer::{fresh_layer, Layer, LayerId, LayerView};

verus! {

/// The layers of a view sequence.  `s[i]` is the `i`-th layer by ascending id.
pub open spec fn views_of(layers: Seq<Layer>) -> Seq<LayerView> {
    layers.map_values(|l: Layer| l@)
}

/// Some layer in `s` carries `id`.
pub open spec fn has_id(s: Seq<LayerView>, id: LayerId) -> bool {
    exists|i: int| 0 <= i < s.len() && #[trigger] s[i].id == id
}

/// Some layer in `s` is called `name`.
pub open spec fn has_name(s: Seq<LayerView>, name: Seq<char>) -> bool {
    exists|i: int| 0 <= i < s.len() && #[trigger] s[i].name == name
}

/// Ids strictly increase along `s`.
pub open spec fn ids_ascending(s: Seq<LayerView>) -> bool {
    forall|i: int, j: int| 0 <= i < j < s.len() ==> (#[trigger] s[i].id).0 < (#[trigger] s[j].id).0
}

/// No two layers of `s` share a name.
pub open spec fn names_unique(s: Seq<LayerView>) -> bool {
    forall|i: int, j: int| 0 <= i < s.len() && 0 <= j < s.len() && i != j
        ==> (#[trigger] s[i].name) != (#[trigger] s[j].name)
}

/// The position of the layer with `id` in `s` (meaningful when `has_id(s, id)`).
pub open spec fn index_of_id(s: Seq<LayerView>, id: LayerId) -> int {
    choose|i: int| 0 <= i < s.len() && #[trigger] s[i].id == id
}

/// The position of the layer called `name` in `s` (meaningful when `has_name(s, name)`).
pub open spec fn index_of_name(s: Seq<LayerView>, name: Seq<char>) -> int {
    choose|i: int| 0 <= i < s.len() && #[trigger] s[i].name == name
}

/// A table of all layers in the drawing, ordered by ascending ID.
///
/// Provides CRUD operations, lookup by name, and an active-layer cursor.
/// The default layer (ID 0, name `"0"`) is always present and cannot be
/// deleted or renamed.
#[derive(Debug, Clone)]
pub struct LayerTable {
    layers: Vec<Layer>,
    next_id: u32,
    active_layer: LayerId,
}

impl LayerTable {
    /// The layers, by ascending id.
    pub closed spec fn view(&self) -> Seq<LayerView> {
        views_of(self.layers@)
    }

    /// The id the next inserted layer will receive.
    pub closed spec fn next_id(&self) -> u32 {
        self.next_id
    }

    /// The active layer.
    pub closed spec fn active_id(&self) -> LayerId {
        self.active_layer
    }

    /// The table's invariant: the default layer first, ids ascending and below
    /// `next_id`, names unique, and the active layer present.
    pub open spec fn wf(&self) -> bool {
        let s = self.view();
        &&& s.len() >= 1
        &&& s[0].id == LayerId(0)
        &&& s[0].name == "0"@
        &&& ids_ascending(s)
        &&& names_unique(s)
        &&& forall|i: int| 0 <= i < s.len() ==> (#[trigger] s[i].id).0 < self.next_id()
        &&& has_id(s, self.active_id())
    }

    /// Position of the layer with `id`, if any.
    fn find_id(&self, id: LayerId) -> (r: Option<usize>)
        ensures
            match r {
                Some(i) => i < self.view().len() && self.view()[i as int].id == id,
                None => !has_id(self.view(), id),
            },
    {
        let mut i: usize = 0;
        while i < self.layers.len()
            invariant
                i <= self.layers@.len(),
                forall|k: int| 0 <= k < i ==> (#[trigger] self.view()[k]).id != id,
            decreases self.layers@.len() - i,
        {
            if self.layers[i].id.0 == id.0 {
                return Some(i);
            }
            i = i + 1;
        }
        None
    }

    /// Position of the layer called `name`, if any.
    fn find_name(&self, name: &str) -> (r: Option<usize>)
        ensures
            match r {
                Some(i) => i < self.view().len() && self.view()[i as int].name == name@,
                None => !has_name(self.view(), name@),
            },
    {
        let mut i: usize = 0;
        while i < self.layers.len()
            invariant
                i <= self.layers@.len(),
                forall|k: int| 0 <= k < i ==> (#[trigger] self.view()[k]).name != name@,
            decreases self.layers@.len() - i,
        {
            if crate::util::str_eq(self.layers[i].name.as_str(), name) {
                return Some(i);
            }
            i = i + 1;
        }
        None
    }

    /// Create a new table containing only the default layer (ID 0, name `"0"`).
    pub fn new() -> (t: Self)
        ensures
            t.wf(),
            t.view() == seq![fresh_layer(LayerId(0), "0"@)],
            t.next_id() == 1,
            t.active_id() == LayerId(0),
    {
        let default = Layer::new(LayerId(0), "0");
        let mut layers: Vec<Layer> = Vec::new();
        layers.push(default);
        let t = LayerTable { layers, next_id: 1, active_layer: LayerId(0) };
        assert(t.view() =~= seq![fresh_layer(LayerId(0), "0"@)]);
        assert(t.view()[0].id == LayerId(0));
        assert(has_id(t.view(), LayerId(0)));
        t
    }

    /// Whether another id can still be assigned (ids are `u32` and never
    /// reused).
    pub fn has_free_id(&self) -> (b: bool)
        ensures
            b == (self.next_id() < u32::MAX),
    {
        self.next_id < u32::MAX
    }

    /// Insert a new layer with the given name.
    ///
    /// Fails with `DuplicateName` if the name is already taken.  The new
    /// layer receives the next sequential ID and the default style (solid
    /// linetype, white colour, 0.25 linewidth, visible, unlocked, thawed).
    pub fn insert(&mut self, name: &str) -> (r: Result<LayerId, LayerError>)
        requires
            old(self).wf(),
            old(self).next_id() < u32::MAX,
        ensures
            final(self).wf(),
            final(self).active_id() == old(self).active_id(),
            r is Err <==> has_name(old(self).view(), name@),
            match r {
                Ok(id) => {
                    &&& id == LayerId(old(self).next_id())
                    &&& final(self).view() == old(self).view().push(fresh_layer(id, name@))
                    &&& final(self).next_id() == old(self).next_id() + 1
                },
                Err(e) => {
                    &&& e matches LayerError::DuplicateName { name: n } && n@ == name@
                    &&& final(self).view() == old(self).view()
                    &&& final(self).next_id() == old(self).next_id()
                },
            },
    {
        if self.find_name(name).is_some() {
            return Err(LayerError::DuplicateName { name: name.to_owned() });
        }
        let id = LayerId(self.next_id);
        self.next_id = self.next_id + 1;
        let layer = Layer::new(id, name);
        let ghost old_view = self.view();
        self.layers.push(layer);
        assert(self.view() =~= old_view.push(fresh_layer(id, name@)));
        proof {
            let s = self.view();
            assert forall|i: int| 0 <= i < s.len() implies (#[trigger] s[i].id).0 < self.next_id() by {
                if i < old_view.len() {
                    assert(s[i] == old_view[i]);
                }
            }
            assert forall|i: int, j: int| 0 <= i < j < s.len() implies
                (#[trigger] s[i].id).0 < (#[trigger] s[j].id).0 by {
                if j < old_view.len() {
                    assert(s[i] == old_view[i] && s[j] == old_view[j]);
                } else {
                    assert(s[i] == old_view[i]);
                }
            }
            assert forall|i: int, j: int| 0 <= i < s.len() && 0 <= j < s.len() && i != j implies
                (#[trigger] s[i].name) != (#[trigger] s[j].name) by {
                if i < old_view.len() && j < old_view.len() {
                    assert(s[i] == old_view[i] && s[j] == old_view[j]);
                } else if i < old_view.len() {
                    assert(s[i] == old_view[i]);
                } else {
                    assert(s[j] == old_view[j]);
                }
            }
            let a = self.active_id();
            let k = choose|k: int| 0 <= k < old_view.len() && #[trigger] old_view[k].id == a;
            assert(s[k] == old_view[k]);
        }
        Ok(id)
    }

    /// Delete a layer by ID.
    ///
    /// The default layer (ID 0) cannot be deleted.  If
    /// `number_of_references` is greater than zero the deletion is rejected
    /// with `HasReferences`.  Deleting the active layer makes the default
    /// layer active.
    pub fn delete(&mut self, id: LayerId, number_of_references: usize) -> (r: Result<(), LayerError>)
        requires
            old(self).wf(),
        ensures
            final(self).wf(),
            final(self).next_id() == old(self).next_id(),
            id == LayerId(0) ==> r == Err::<(), LayerError>(LayerError::CannotDeleteDefault),
            id != LayerId(0) && !has_id(old(self).view(), id)
                ==> r == Err::<(), LayerError>(LayerError::NotFound { id: id.0 }),
            id != LayerId(0) && has_id(old(self).view(), id) && number_of_references > 0
                ==> r == Err::<(), LayerError>(LayerError::HasReferences { count: number_of_references }),
            r is Ok <==> (id != LayerId(0) && has_id(old(self).view(), id) && number_of_references == 0),
            r is Ok ==> {
                &&& final(self).view() == old(self).view().remove(index_of_id(old(self).view(), id))
                &&& final(self).active_id() == (if old(self).active_id() == id {
                    LayerId(0)
                } else {
                    old(self).active_id()
                })
            },
            r is Err ==> final(self).view() == old(self).view() && final(self).active_id() == old(self).active_id(),
    {
        if id.0 == 0 {
            return Err(LayerError::CannotDeleteDefault);
        }
        let idx = match self.find_id(id) {
            Some(i) => i,
            None => {
                return Err(LayerError::NotFound { id: id.0 });
            },
        };
        if number_of_references > 0 {
            return Err(LayerError::HasReferences { count: number_of_references });
        }
        let ghost old_view = self.view();
        proof {
            lemma_unique_id_index(old_view, id, idx as int);
        }
        let _removed = self.layers.remove(idx);
        assert(self.view() =~= old_view.remove(idx as int));
        if self.active_layer.0 == id.0 {
            self.active_layer = LayerId(0);
        }
        proof {
            let s = self.view();
            assert(idx > 0) by {
                if idx == 0 {
                    assert(old_view[0].id == LayerId(0));
                }
            }
            assert(s[0] == old_view[0]);
            assert forall|i: int| 0 <= i < s.len() implies (#[trigger] s[i].id).0 < self.next_id() by {
                if i < idx { assert(s[i] == old_view[i]); } else { assert(s[i] == old_view[i + 1]); }
            }
            assert forall|i: int, j: int| 0 <= i < j < s.len() implies
                (#[trigger] s[i].id).0 < (#[trigger] s[j].id).0 by {
                let oi = if i < idx { i } else { i + 1 };
                let oj = if j < idx { j } else { j + 1 };
                assert(s[i] == old_view[oi] && s[j] == old_view[oj]);
            }
            assert forall|i: int, j: int| 0 <= i < s.len() && 0 <= j < s.len() && i != j implies
                (#[trigger] s[i].name) != (#[trigger] s[j].name) by {
                let oi = if i < idx { i } else { i + 1 };
                let oj = if j < idx { j } else { j + 1 };
                assert(s[i] == old_view[oi] && s[j] == old_view[oj]);
            }
            let a = self.active_id();
            if a == LayerId(0) {
                assert(s[0].id == a);
            } else {
                let k = choose|k: int| 0 <= k < old_view.len() && #[trigger] old_view[k].id == a;
                assert(k != idx);
                if k < idx { assert(s[k] == old_view[k]); } else { assert(s[k - 1] == old_view[k]); }
            }
        }
        Ok(())
    }

    /// Rename an existing layer.
    ///
    /// The default layer (ID 0) cannot be renamed.  Fails with
    /// `DuplicateName` if the new name is already used by a different layer;
    /// renaming a layer to its own name succeeds and changes nothing.
    pub fn rename(&mut self, id: LayerId, new_name: &str) -> (r: Result<(), LayerError>)
        requires
            old(self).wf(),
        ensures
            final(self).wf(),
            final(self).next_id() == old(self).next_id(),
            final(self).active_id() == old(self).active_id(),
            id == LayerId(0) ==> r == Err::<(), LayerError>(LayerError::CannotRenameDefault),
            id != LayerId(0) && !has_id(old(self).view(), id)
                ==> r == Err::<(), LayerError>(LayerError::NotFound { id: id.0 }),
            r is Ok <==> {
                &&& id != LayerId(0)
                &&& has_id(old(self).view(), id)
                &&& (new_name@ == old(self).view()[index_of_id(old(self).view(), id)].name
                    || !has_name(old(self).view(), new_name@))
            },
            (id != LayerId(0) && has_id(old(self).view(), id) && r is Err) ==>
                (r matches Err(LayerError::DuplicateName { name: n }) && n@ == new_name@),
            r is Ok ==> {
                let i = index_of_id(old(self).view(), id);
                final(self).view() == old(self).view().update(
                    i,
                    LayerView { name: new_name@, ..old(self).view()[i] },
                )
            },
            r is Err ==> final(self).view() == old(self).view(),
    {
        if id.0 == 0 {
            return Err(LayerError::CannotRenameDefault);
        }
        let idx = match self.find_id(id) {
            Some(i) => i,
            None => {
                return Err(LayerError::NotFound { id: id.0 });
            },
        };
        let ghost old_view = self.view();
        proof {
            lemma_unique_id_index(old_view, id, idx as int);
        }
        let same = crate::util::str_eq(new_name, self.layers[idx].name.as_str());
        if !same && self.find_name(new_name).is_some() {
            return Err(LayerError::DuplicateName { name: new_name.to_owned() });
        }
        let mut layer = self.layers.remove(idx);
        layer.set_name(new_name.to_owned());
        self.layers.insert(idx, layer);
        assert(self.view() =~= old_view.update(idx as int, LayerView { name: new_name@, ..old_view[idx as int] }));
        proof {
            let s = self.view();
            assert(idx > 0) by {
                if idx == 0 {
                    assert(old_view[0].id == LayerId(0));
                }
            }
            assert(s[0] == old_view[0]);
            assert forall|i: int| 0 <= i < s.len() implies (#[trigger] s[i].id).0 < self.next_id() by {
                assert(s[i].id == old_view[i].id);
            }
            assert forall|i: int, j: int| 0 <= i < j < s.len() implies
                (#[trigger] s[i].id).0 < (#[trigger] s[j].id).0 by {
                assert(s[i].id == old_view[i].id && s[j].id == old_view[j].id);
            }
            assert forall|i: int, j: int| 0 <= i < s.len() && 0 <= j < s.len() && i != j implies
                (#[trigger] s[i].name) != (#[trigger] s[j].name) by {
                if i == idx {
                    assert(s[j] == old_view[j]);
                    if !same {
                        assert(!has_name(old_view, new_name@));
                    }
                } else if j == idx {
                    assert(s[i] == old_view[i]);
                    if !same {
                        assert(!has_name(old_view, new_name@));
                    }
                } else {
                    assert(s[i] == old_view[i] && s[j] == old_view[j]);
                }
            }
            let a = self.active_id();
            let k = choose|k: int| 0 <= k < old_view.len() && #[trigger] old_view[k].id == a;
            assert(s[k].id == old_view[k].id);
        }
        Ok(())
    }

    /// Borrow a layer by ID.
    pub fn get(&self, id: LayerId) -> (r: Option<&Layer>)
        requires
            self.wf(),
        ensures
            r is Some <==> has_id(self.view(), id),
            r matches Some(l) ==> l@ == self.view()[index_of_id(self.view(), id)],
    {
        match self.find_id(id) {
            Some(i) => {
                proof {
                    lemma_unique_id_index(self.view(), id, i as int);
                }
                Some(&self.layers[i])
            },
            None => None,
        }
    }

    /// Look up a layer by name.
    pub fn get_by_name(&self, name: &str) -> (r: Option<&Layer>)
        requires
            self.wf(),
        ensures
            r is Some <==> has_name(self.view(), name@),
            r matches Some(l) ==> l@ == self.view()[index_of_name(self.view(), name@)],
    {
        match self.find_name(name) {
            Some(i) => {
                proof {
                    lemma_unique_name_index(self.view(), name@, i as int);
                }
                Some(&self.layers[i])
            },
            None => None,
        }
    }

    /// Mutably borrow a layer by ID.
    ///
    /// The caller may change the layer's style; the table stays well formed
    /// as long as the layer keeps its id and name.
    pub fn get_mut(&mut self, id: LayerId) -> (r: Option<&mut Layer>)
        requires
            old(self).wf(),
        ensures
            r is Some <==> has_id(old(self).view(), id),
            final(self).next_id() == old(self).next_id(),
            final(self).active_id() == old(self).active_id(),
            match r {
                Some(l) => {
                    let i = index_of_id(old(self).view(), id);
                    &&& l@ == old(self).view()[i]
                    &&& final(self).view() == old(self).view().update(i, final(l)@)
                },
                None => final(self).view() == old(self).view(),
            },
    {
        match self.find_id(id) {
            Some(i) => {
                proof {
                    lemma_unique_id_index(self.view(), id, i as int);
                }
                Some(&mut self.layers[i])
            },
            None => None,
        }
    }

    /// Set the active (current) layer.
    ///
    /// Fails with `NotFound` if the ID does not exist.
    pub fn set_active(&mut self, id: LayerId) -> (r: Result<(), LayerError>)
        requires
            old(self).wf(),
        ensures
            final(self).wf(),
            final(self).view() == old(self).view(),
            final(self).next_id() == old(self).next_id(),
            r is Ok <==> has_id(old(self).view(), id),
            r is Ok ==> final(self).active_id() == id,
            r is Err ==> r == Err::<(), LayerError>(LayerError::NotFound { id: id.0 })
                && final(self).active_id() == old(self).active_id(),
    {
        if self.find_id(id).is_none() {
            return Err(LayerError::NotFound { id: id.0 });
        }
        self.active_layer = id;
        Ok(())
    }

    /// Return the ID of the currently active layer.
    pub fn active(&self) -> (id: LayerId)
        ensures
            id == self.active_id(),
    {
        self.active_layer
    }

    /// Iterate over all layers sorted by ascending ID.
    pub fn iter(&self) -> (it: std::slice::Iter<'_, Layer>)
        ensures
            views_of(vstd::std_specs::slice::into_iter_elts(it)) == self.view(),
    {
        self.layers.iter()
    }

    /// Number of layers in the table (always at least 1).
    pub fn len(&self) -> (n: usize)
        ensures
            n == self.view().len(),
    {
        self.layers.len()
    }

    /// Returns `true` if the table is empty (never the case for a well-formed table).
    pub fn is_empty(&self) -> (b: bool)
        ensures
            b == (self.view().len() == 0),
    {
        self.layers.len() == 0
    }

    /// Returns `true` if the given layer ID exists in the table.
    pub fn contains(&self, id: LayerId) -> (b: bool)
        ensures
            b == has_id(self.view(), id),
    {
        self.find_id(id).is_some()
    }

    /// Returns `true` if a layer with the given name exists.
    pub fn contains_name(&self, name: &str) -> (b: bool)
        ensures
            b == has_name(self.view(), name@),
    {
        self.find_name(name).is_some()
    }

    /// Collect all layer names, by ascending layer id.
    pub fn all_names(&self) -> (names: Vec<String>)
        ensures
            names@.len() == self.view().len(),
            forall|i: int| 0 <= i < names@.len() ==> (#[trigger] names@[i])@ == self.view()[i].name,
    {
        let mut names: Vec<String> = Vec::new();
        let mut i: usize = 0;
        while i < self.layers.len()
            invariant
                i <= self.layers@.len(),
                names@.len() == i,
                forall|k: int| 0 <= k < i ==> (#[trigger] names@[k])@ == self.view()[k].name,
            decreases self.layers@.len() - i,
        {
            names.push(self.layers[i].name.clone());
            i = i + 1;
        }
        names
    }

    /// Returns `true` if the given ID is the default layer (ID 0).
    pub fn is_default(&self, id: LayerId) -> (b: bool)
        ensures
            b == (id == LayerId(0)),
    {
        id.0 == 0
    }
}

impl Default for LayerTable {
    fn default() -> (t: Self)
        ensures
            t.wf(),
            t.view() == seq![fresh_layer(LayerId(0), "0"@)],
            t.next_id() == 1,
            t.active_id() == LayerId(0),
    {
        LayerTable::new()
    }
}

/// A layer that was just inserted can be found again, by its name and by its
/// id, and reads back exactly as it was created.
pub proof fn law_insert_then_lookup(before: Seq<LayerView>, id: LayerId, name: Seq<char>)
    requires
        ids_ascending(before.push(fresh_layer(id, name))),
        names_unique(before.push(fresh_layer(id, name))),
    ensures
        ({
            let after = before.push(fresh_layer(id, name));
            &&& has_name(after, name)
            &&& after[index_of_name(after, name)] == fresh_layer(id, name)
            &&& has_id(after, id)
            &&& after[index_of_id(after, id)] == fresh_layer(id, name)
        }),
{
    let after = before.push(fresh_layer(id, name));
    let n = before.len() as int;
    lemma_unique_name_index(after, name, n);
    lemma_unique_id_index(after, id, n);
}

/// Deleting a layer that was just inserted gives back the table's previous
/// listing of layers.
pub proof fn law_insert_then_delete_restores(before: Seq<LayerView>, id: LayerId, name: Seq<char>)
    requires
        ids_ascending(before.push(fresh_layer(id, name))),
    ensures
        ({
            let after = before.push(fresh_layer(id, name));
            after.remove(index_of_id(after, id)) == before
        }),
{
    let after = before.push(fresh_layer(id, name));
    lemma_unique_id_index(after, id, before.len() as int);
    assert(after.remove(before.len() as int) =~= before);
}

/// Ids are never reused: the id the next insert assigns belongs to no layer
/// of a well-formed table, even after deletions.
pub proof fn law_next_id_is_fresh(t: LayerTable)
    requires
        t.wf(),
    ensures
        !has_id(t.view(), LayerId(t.next_id())),
{
    if has_id(t.view(), LayerId(t.next_id())) {
        let i = choose|i: int| 0 <= i < t.view().len() && #[trigger] t.view()[i].id == LayerId(t.next_id());
        assert(t.view()[i].id.0 < t.next_id());
    }
}

/// Renaming a layer to the name it already has changes nothing.
pub proof fn law_rename_to_same_name_is_identity(s: Seq<LayerView>, i: int)
    requires
        0 <= i < s.len(),
    ensures
        s.update(i, LayerView { name: s[i].name, ..s[i] }) == s,
{
    assert(s.update(i, LayerView { name: s[i].name, ..s[i] }) =~= s);
}

/// The listing of a new table after successful inserts of `names`, in
/// order: the default layer, then the `i`-th name with id `i + 1`.
pub open spec fn listing_after(names: Seq<Seq<char>>) -> Seq<LayerView> {
    seq![fresh_layer(LayerId(0), "0"@)]
        + Seq::new(names.len(), |i: int| fresh_layer(LayerId((i + 1) as u32), names[i]))
}

/// Inserts into a new table number the layers 1, 2, 3, ... in order: the
/// listing of a new table is `listing_after` of no names, and an insert
/// that succeeds on the listing after `names`, with the next id
/// `names.len() + 1` that such a table holds, gives the listing after
/// `names` followed by the new name.
pub proof fn law_inserts_number_sequentially(names: Seq<Seq<char>>, name: Seq<char>)
    requires
        names.len() + 1 < u32::MAX,
    ensures
        listing_after(Seq::empty()) == seq![fresh_layer(LayerId(0), "0"@)],
        listing_after(names).push(fresh_layer(LayerId((names.len() + 1) as u32), name))
            == listing_after(names.push(name)),
        listing_after(names.push(name)).len() == listing_after(names).len() + 1,
{
    assert(listing_after(Seq::empty()) =~= seq![fresh_layer(LayerId(0), "0"@)]);
    assert(listing_after(names).push(fresh_layer(LayerId((names.len() + 1) as u32), name))
        =~= listing_after(names.push(name)));
}

/// Renaming a layer back to its former name is allowed and undoes the
/// rename: after `rename(id, new_name)` succeeded, the layer is found at the
/// same place, its former name is free (or is `new_name` itself), and
/// `rename(id, former name)` gives back the previous listing.
pub proof fn law_rename_back_restores(s: Seq<LayerView>, id: LayerId, new_name: Seq<char>)
    requires
        ids_ascending(s),
        names_unique(s),
        has_id(s, id),
        new_name == s[index_of_id(s, id)].name || !has_name(s, new_name),
    ensures
        ({
            let i = index_of_id(s, id);
            let former = s[i].name;
            let s1 = s.update(i, LayerView { name: new_name, ..s[i] });
            &&& has_id(s1, id)
            &&& index_of_id(s1, id) == i
            &&& (former == s1[i].name || !has_name(s1, former))
            &&& s1.update(i, LayerView { name: former, ..s1[i] }) == s
        }),
{
    let i = index_of_id(s, id);
    let former = s[i].name;
    let s1 = s.update(i, LayerView { name: new_name, ..s[i] });
    assert(ids_ascending(s1)) by {
        assert forall|a: int, b: int| 0 <= a < b < s1.len() implies
            (#[trigger] s1[a].id).0 < (#[trigger] s1[b].id).0 by {
            assert(s1[a].id == s[a].id && s1[b].id == s[b].id);
        }
    }
    lemma_unique_id_index(s1, id, i);
    if former != new_name && has_name(s1, former) {
        let k = choose|k: int| 0 <= k < s1.len() && #[trigger] s1[k].name == former;
        assert(k != i);
        assert(s1[k] == s[k]);
    }
    assert(s1.update(i, LayerView { name: former, ..s1[i] }) =~= s);
}

/// In a table with ascending ids, the layer carrying `id` is the one `index_of_id` picks.
pub proof fn lemma_unique_id_index(s: Seq<LayerView>, id: LayerId, i: int)
    requires
        ids_ascending(s),
        0 <= i < s.len(),
        s[i].id == id,
    ensures
        has_id(s, id),
        index_of_id(s, id) == i,
{
    assert(has_id(s, id));
    let k = index_of_id(s, id);
    if k < i {
        assert(s[k].id.0 < s[i].id.0);
    } else if k > i {
        assert(s[i].id.0 < s[k].id.0);
    }
}

/// In a table with unique names, the layer called `name` is the one `index_of_name` picks.
pub proof fn lemma_unique_name_index(s: Seq<LayerView>, name: Seq<char>, i: int)
    requires
        names_unique(s),
        0 <= i < s.len(),
        s[i].name == name,
    ensures
        has_name(s, name),
        index_of_name(s, name) == i,
{
    assert(has_name(s, name));
    let k = index_of_name(s, name);
    if k != i {
        assert(s[k].name != s[i].name);
    }
}

} // verus!
