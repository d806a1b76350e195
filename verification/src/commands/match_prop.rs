//! MATCHPROP command: copy the [`PropertySource`] and [`LayerRef`] of a
//! source entity to the previously selected target entities.
//!
//! 1. The user picks a source entity by clicking on its geometry (the
//!    caller runs the geometric hit test and hands over what it found).
//! 2. The user confirms; every target other than the source receives the
//!    source's property source and layer reference.

use vstd::prelude::*;
use vstd::string::*;
use crate::ecs::{
    EntityId, LayerRef, PropertySource, layer_ref_of, property_source_of, put_layer_ref,
    put_property_source, take_layer_ref, world_entities, world_entity_layers,
    world_property_sources,
};
use crate::util::{decimal, push_decimal};
use super::{PreviewEntity, CommandInput, Outcome};

verus! {

/// The change MATCHPROP made to one target, for undo and redo.
#[derive(Debug, Clone, Copy, PartialEq, Eq, Structural)]
pub struct PropertyChange {
    /// The target entity.
    pub entity: EntityId,
    /// Its property source before (`ByLayer` when it had none).
    pub old_source: PropertySource,
    /// Its property source after.
    pub new_source: PropertySource,
    /// Its layer reference before.
    pub old_layer: Option<LayerRef>,
    /// Its layer reference after (`None`: removed).
    pub new_layer: Option<LayerRef>,
}

/// The outcome of a confirmed MATCHPROP: the changes made, and the label of
/// the transaction that records them ("Match Properties").
#[derive(Debug)]
pub struct MatchPropCommit {
    /// One change per target, in target order.
    pub changes: Vec<PropertyChange>,
    /// The transaction label.
    pub label: String,
}

/// Whether an entity differs from `source`.
pub open spec fn differs_from(source: EntityId) -> spec_fn(EntityId) -> bool {
    |t: EntityId| t != source
}

/// The targets other than `source`, in order.
pub open spec fn others(targets: Seq<EntityId>, source: EntityId) -> Seq<EntityId> {
    targets.filter(differs_from(source))
}

/// The bits of the entities of `s`.
pub open spec fn bits_of(s: Seq<EntityId>) -> Set<u64> {
    Set::new(|k: u64| exists|i: int| 0 <= i < s.len() && s[i].0 == k)
}

/// MATCHPROP never changes its source: the source is not among the
/// entities it writes, so its property source and layer reference stay.
pub proof fn law_source_untouched(
    targets: Seq<EntityId>,
    source: EntityId,
    sources: Map<u64, PropertySource>,
    layers: Map<u64, u32>,
    alive: Set<u64>,
    ps: PropertySource,
    layer: Option<LayerRef>,
)
    ensures
        !bits_of(others(targets, source)).contains(source.0),
        set_all(sources, alive, bits_of(others(targets, source)), ps).contains_key(source.0)
            == sources.contains_key(source.0),
        sources.contains_key(source.0) ==> set_all(sources, alive, bits_of(others(targets, source)), ps)[source.0]
            == sources[source.0],
        layers_after(layers, alive, bits_of(others(targets, source)), layer).contains_key(source.0)
            == layers.contains_key(source.0),
        layers.contains_key(source.0) ==> layers_after(layers, alive, bits_of(others(targets, source)), layer)[source.0]
            == layers[source.0],
{
    let o = others(targets, source);
    broadcast use vstd::seq_lib::group_filter_ensures;
    if bits_of(o).contains(source.0) {
        let j = choose|j: int| 0 <= j < o.len() && o[j].0 == source.0;
        assert(differs_from(source)(o[j]));
    }
}

/// The property source an entity has in `m`, `ByLayer` when it has none.
pub open spec fn source_or_default(m: Map<u64, PropertySource>, e: EntityId) -> PropertySource {
    if m.contains_key(e.0) { m[e.0] } else { PropertySource::ByLayer }
}

/// The layer reference an entity has in `m`.
pub open spec fn layer_in(m: Map<u64, u32>, e: EntityId) -> Option<LayerRef> {
    if m.contains_key(e.0) { Some(LayerRef(m[e.0])) } else { None }
}

/// `m` after every alive entity of `hits` was given the value `v`.
pub open spec fn set_all<V>(m: Map<u64, V>, alive: Set<u64>, hits: Set<u64>, v: V) -> Map<u64, V> {
    Map::new(
        |k: u64| m.contains_key(k) || (alive.contains(k) && hits.contains(k)),
        |k: u64| if alive.contains(k) && hits.contains(k) { v } else { m[k] },
    )
}

/// The layer references after the entities of `hits` took the layer
/// reference `layer` (or lost theirs, when `layer` is `None`).
pub open spec fn layers_after(m: Map<u64, u32>, alive: Set<u64>, hits: Set<u64>, layer: Option<LayerRef>)
    -> Map<u64, u32> {
    match layer {
        Some(l) => set_all(m, alive, hits, l.0),
        None => m.remove_keys(hits),
    }
}

/// The changes recorded for the targets `done`, in order: each reads the
/// target's property source and layer reference as the earlier changes
/// left them.
pub open spec fn changes_spec(
    changes: Seq<PropertyChange>,
    done: Seq<EntityId>,
    sources: Map<u64, PropertySource>,
    layers: Map<u64, u32>,
    alive: Set<u64>,
    new_source: PropertySource,
    new_layer: Option<LayerRef>,
) -> bool {
    &&& changes.len() == done.len()
    &&& forall|k: int| 0 <= k < done.len() ==> #[trigger] changes[k] == (PropertyChange {
        entity: done[k],
        old_source: source_or_default(set_all(sources, alive, bits_of(done.take(k)), new_source), done[k]),
        new_source,
        old_layer: layer_in(layers_after(layers, alive, bits_of(done.take(k)), new_layer), done[k]),
        new_layer,
    })
}

/// `bits_of` grows by one element at a time.
proof fn lemma_bits_of_push(s: Seq<EntityId>, e: EntityId)
    ensures
        bits_of(s.push(e)) == bits_of(s).insert(e.0),
{
    let t = s.push(e);
    assert forall|k: u64| bits_of(t).contains(k) implies bits_of(s).insert(e.0).contains(k) by {
        let j = choose|j: int| 0 <= j < t.len() && t[j].0 == k;
        if j < s.len() {
            assert(s[j] == t[j]);
        }
    }
    assert forall|k: u64| bits_of(s).insert(e.0).contains(k) implies bits_of(t).contains(k) by {
        if k == e.0 {
            assert(t[s.len() as int] == e);
        } else {
            let j = choose|j: int| 0 <= j < s.len() && s[j].0 == k;
            assert(t[j] == s[j]);
        }
    }
    assert(bits_of(t) =~= bits_of(s).insert(e.0));
}

/// Copy the property source and layer reference of `source` (the source's
/// property source defaulting to `ByLayer`) onto every target other than
/// `source`, returning the changes in target order.
pub fn apply_match(world: &mut hecs::World, source: EntityId, targets: &Vec<EntityId>)
    -> (changes: Vec<PropertyChange>)
    ensures
        ({
            let sources = world_property_sources(*old(world));
            let layers = world_entity_layers(*old(world));
            let alive = world_entities(*old(world));
            let new_source = source_or_default(sources, source);
            let new_layer = layer_in(layers, source);
            let hits = bits_of(others(targets@, source));
            &&& changes_spec(changes@, others(targets@, source), sources, layers, alive, new_source, new_layer)
            &&& world_property_sources(*final(world)) == set_all(sources, alive, hits, new_source)
            &&& world_entity_layers(*final(world)) == layers_after(layers, alive, hits, new_layer)
            &&& world_entities(*final(world)) == alive
        }),
{
    let ghost sources0 = world_property_sources(*world);
    let ghost layers0 = world_entity_layers(*world);
    let ghost alive = world_entities(*world);
    let src_source = match property_source_of(world, source) {
        Some(ps) => ps,
        None => PropertySource::ByLayer,
    };
    let src_layer = layer_ref_of(world, source);
    let mut changes: Vec<PropertyChange> = Vec::new();
    let mut i: usize = 0;
    let n = targets.len();
    assert(targets@.take(0) =~= Seq::<EntityId>::empty());
    assert(set_all(sources0, alive, Set::<u64>::empty(), src_source) =~= sources0);
    assert(layers_after(layers0, alive, Set::<u64>::empty(), src_layer) =~= layers0);
    assert(bits_of(Seq::<EntityId>::empty()) =~= Set::<u64>::empty());
    while i < n
        invariant
            n == targets@.len(),
            i <= n,
            src_source == source_or_default(sources0, source),
            src_layer == layer_in(layers0, source),
            world_entities(*world) == alive,
            ({
                let done = others(targets@.take(i as int), source);
                let hits = bits_of(done);
                &&& changes_spec(changes@, done, sources0, layers0, alive, src_source, src_layer)
                &&& world_property_sources(*world) == set_all(sources0, alive, hits, src_source)
                &&& world_entity_layers(*world) == layers_after(layers0, alive, hits, src_layer)
            }),
        decreases n - i,
    {
        let target = targets[i];
        let ghost prev = targets@.take(i as int);
        let ghost done = others(prev, source);
        assert(targets@.take(i + 1) =~= prev.push(target));
        proof {
            prev.lemma_filter_push(target, differs_from(source));
        }
        if target.0 == source.0 {
            assert(others(targets@.take(i + 1), source) =~= done);
        } else {
            let old_source = match property_source_of(world, target) {
                Some(ps) => ps,
                None => PropertySource::ByLayer,
            };
            let _ = put_property_source(world, target, src_source);
            let old_layer = layer_ref_of(world, target);
            match src_layer {
                Some(lr) => {
                    let _ = put_layer_ref(world, target, lr);
                },
                None => {
                    let _ = take_layer_ref(world, target);
                },
            }
            let change = PropertyChange {
                entity: target,
                old_source,
                new_source: src_source,
                old_layer,
                new_layer: src_layer,
            };
            changes.push(change);
            proof {
                let done2 = others(targets@.take(i + 1), source);
                assert(done2 =~= done.push(target));
                lemma_bits_of_push(done, target);
                assert(world_property_sources(*world)
                    =~= set_all(sources0, alive, bits_of(done2), src_source));
                assert(world_entity_layers(*world)
                    =~= layers_after(layers0, alive, bits_of(done2), src_layer));
                assert(done2.take(done.len() as int) =~= done);
                assert forall|k: int| 0 <= k < done2.len() implies #[trigger] changes@[k] == (PropertyChange {
                    entity: done2[k],
                    old_source: source_or_default(set_all(sources0, alive, bits_of(done2.take(k)), src_source), done2[k]),
                    new_source: src_source,
                    old_layer: layer_in(layers_after(layers0, alive, bits_of(done2.take(k)), src_layer), done2[k]),
                    new_layer: src_layer,
                }) by {
                    if k < done.len() {
                        assert(done2[k] == done[k]);
                        assert(done2.take(k) =~= done.take(k));
                    }
                }
            }
        }
        i = i + 1;
    }
    assert(targets@.take(n as int) =~= targets@);
    changes
}

/// With distinct targets every change reads the target's properties from
/// before the command ran, since no earlier change touched that target.
pub proof fn law_distinct_targets_read_original(
    changes: Seq<PropertyChange>,
    targets: Seq<EntityId>,
    source: EntityId,
    sources: Map<u64, PropertySource>,
    layers: Map<u64, u32>,
    alive: Set<u64>,
    new_source: PropertySource,
    new_layer: Option<LayerRef>,
)
    requires
        targets.no_duplicates(),
        changes_spec(changes, others(targets, source), sources, layers, alive, new_source, new_layer),
    ensures
        forall|k: int| 0 <= k < changes.len() ==> (#[trigger] changes[k]).old_source
            == source_or_default(sources, changes[k].entity)
            && changes[k].old_layer == layer_in(layers, changes[k].entity),
{
    let done = others(targets, source);
    broadcast use vstd::seq_lib::group_filter_ensures;
    assert(done.no_duplicates()) by {
        assert forall|a: int, b: int| 0 <= a < done.len() && 0 <= b < done.len() && a != b
            implies done[a] != done[b] by {
            lemma_filter_no_duplicates(targets, differs_from(source));
        }
    }
    assert forall|k: int| 0 <= k < changes.len() implies (#[trigger] changes[k]).old_source
        == source_or_default(sources, changes[k].entity)
        && changes[k].old_layer == layer_in(layers, changes[k].entity) by {
        assert(changes[k].entity == done[k]);
        assert(!bits_of(done.take(k)).contains(done[k].0)) by {
            if bits_of(done.take(k)).contains(done[k].0) {
                let j = choose|j: int| 0 <= j < done.take(k).len() && done.take(k)[j].0 == done[k].0;
                assert(done[j] == done[k]);
            }
        }
    }
}

/// Filtering keeps distinct elements distinct.
proof fn lemma_filter_no_duplicates<A>(s: Seq<A>, pred: spec_fn(A) -> bool)
    requires
        s.no_duplicates(),
    ensures
        s.filter(pred).no_duplicates(),
    decreases s.len(),
{
    reveal(Seq::filter);
    if s.len() > 0 {
        let init = s.drop_last();
        assert(init.no_duplicates());
        lemma_filter_no_duplicates(init, pred);
        if pred(s.last()) {
            assert(!init.contains(s.last()));
            broadcast use vstd::seq_lib::group_filter_ensures;
            if init.filter(pred).contains(s.last()) {
                init.lemma_filter_contains_rev(pred, s.last());
            }
            assert(s.filter(pred) == init.filter(pred).push(s.last()));
        } else {
            assert(s.filter(pred) == init.filter(pred));
        }
    }
}

/// MATCHPROP: copy visual properties from a source entity to the targets.
#[derive(Debug)]
pub struct MatchPropCommand {
    /// Target entities (selected before the command was invoked).
    pub targets: Vec<EntityId>,
    /// Source entity (set in step 1 by point-and-click).
    pub source: Option<EntityId>,
    /// Current step: 0 picks the source, 1 confirms.
    pub step: u8,
    /// Message for the current step after a failed pick.
    pub last_error: Option<String>,
}

/// The prompt of a MATCHPROP command in the given state.
pub open spec fn match_prompt(c: MatchPropCommand) -> Seq<char> {
    match c.last_error {
        Some(m) => m@,
        None => if c.step == 0 {
            "Select source entity (click on geometry):"@
        } else {
            "Press Enter to match properties to "@ + decimal(match_count(c.targets@, c.source))
                + " entity(ies), or Esc to cancel."@
        },
    }
}

/// The number of targets a confirmation would change: all of them, less
/// the source when it is one of them.
pub open spec fn match_count(targets: Seq<EntityId>, source: Option<EntityId>) -> nat {
    if source matches Some(s) && targets.contains(s) {
        (targets.len() - 1) as nat
    } else {
        targets.len()
    }
}

impl MatchPropCommand {
    /// The states the command moves through: step 0 (no source picked
    /// yet) or step 1 (the source picked, or confirmation pending).
    pub open spec fn wf(&self) -> bool {
        &&& self.step <= 1
        &&& self.step == 0 ==> self.source is None
    }

    /// Create the command with the current selection as its targets.
    pub fn new(targets: Vec<EntityId>) -> (c: Self)
        ensures
            c.wf(),
            c.targets@ == targets@,
            c.source is None,
            c.step == 0,
            c.last_error is None,
    {
        MatchPropCommand { targets, source: None, step: 0, last_error: None }
    }

    /// Command name used on the command line.
    pub fn name(&self) -> (n: &'static str)
        ensures
            n@ == "MATCHPROP"@,
    {
        "MATCHPROP"
    }

    /// Prompt for the current step (the pending error message, if any).
    pub fn prompt(&self) -> (p: String)
        requires
            self.step <= 1,
        ensures
            p@ == match_prompt(*self),
    {
        if let Some(msg) = &self.last_error {
            return msg.clone();
        }
        if self.step == 0 {
            String::from_str("Select source entity (click on geometry):")
        } else {
            let mut found = false;
            let mut i: usize = 0;
            while i < self.targets.len()
                invariant
                    i <= self.targets@.len(),
                    found == (self.source matches Some(s) && exists|j: int| 0 <= j < i && self.targets@[j] == s),
                decreases self.targets@.len() - i,
            {
                if let Some(s) = self.source {
                    if self.targets[i].0 == s.0 {
                        found = true;
                    }
                }
                i = i + 1;
            }
            let count = if found { self.targets.len() - 1 } else { self.targets.len() };
            let mut p = String::from_str("Press Enter to match properties to ");
            push_decimal(&mut p, count as u64);
            p.append(" entity(ies), or Esc to cancel.");
            p
        }
    }

    /// Steps still needed: two before the source is picked, one after.
    pub fn steps_remaining(&self) -> (n: usize)
        ensures
            n == (if self.step == 0 { 2usize } else if self.step == 1 { 1usize } else { 0usize }),
    {
        match self.step {
            0 => 2,
            1 => 1,
            _ => 0,
        }
    }

    /// Process an input.
    ///
    /// In step 0 a point picks the source: `hit` is the entity the caller's
    /// hit test found at that point, if any.  In step 1 `Confirm` applies
    /// the source's properties to the targets.  `Cancel` cancels in either
    /// step; other inputs keep the command waiting.  Past step 1 the
    /// command finishes with no change.
    pub fn on_input<P, S>(&mut self, input: CommandInput<P, S>, world: &mut hecs::World, hit: Option<EntityId>)
        -> (r: Outcome<MatchPropCommit>)
        ensures
            old(self).wf() ==> final(self).wf(),
            final(self).targets@ == old(self).targets@,
            final(self).last_error is Some ==> old(self).step == 0 && input is Point && hit is None,
            old(self).step == 0 ==> match input {
                CommandInput::Point(_) => match hit {
                    Some(e) => {
                        &&& r is Continue
                        &&& final(self).source == Some(e)
                        &&& final(self).step == 1
                    },
                    None => {
                        &&& old(self).wf() ==> final(self).source is None
                        &&& r matches Outcome::Error(m) && m@ == "No entity found at that point."@
                        &&& final(self).last_error matches Some(m)
                            && m@ == "No entity found at that point. Try again or press Esc to cancel."@
                        &&& final(self).source == old(self).source
                        &&& final(self).step == 0
                    },
                },
                CommandInput::Cancel => r is Cancelled && final(self).step == 0
                    && final(self).source == old(self).source,
                _ => r is Continue && final(self).step == 0 && final(self).source == old(self).source,
            },
            old(self).step == 1 ==> {
                &&& final(self).step == 1
                &&& final(self).source == old(self).source
                &&& match input {
                    CommandInput::Confirm => match old(self).source {
                        None => r matches Outcome::Error(m) && m@ == "No source entity selected."@,
                        Some(source) => r matches Outcome::Done(commit) && {
                            let sources = world_property_sources(*old(world));
                            let layers = world_entity_layers(*old(world));
                            let alive = world_entities(*old(world));
                            let new_source = source_or_default(sources, source);
                            let new_layer = layer_in(layers, source);
                            let hits = bits_of(others(old(self).targets@, source));
                            &&& commit.label@ == "Match Properties"@
                            &&& changes_spec(commit.changes@, others(old(self).targets@, source), sources,
                                layers, alive, new_source, new_layer)
                            &&& world_property_sources(*final(world)) == set_all(sources, alive, hits, new_source)
                            &&& world_entity_layers(*final(world)) == layers_after(layers, alive, hits, new_layer)
                            &&& world_entities(*final(world)) == alive
                        },
                    },
                    CommandInput::Cancel => r is Cancelled,
                    _ => r is Continue,
                }
            },
            old(self).step > 1 ==> {
                &&& r matches Outcome::Done(commit) && commit.changes@.len() == 0
                    && commit.label@ == "Match Properties"@
                &&& final(self).step == old(self).step
                &&& final(self).source == old(self).source
            },
            !(old(self).step == 1 && input is Confirm && old(self).source is Some) ==> *final(world) == *old(world),
    {
        self.last_error = None;
        if self.step == 0 {
            match input {
                CommandInput::Point(_) => match hit {
                    Some(e) => {
                        self.source = Some(e);
                        self.step = 1;
                        Outcome::Continue
                    },
                    None => {
                        self.last_error = Some(String::from_str(
                            "No entity found at that point. Try again or press Esc to cancel.",
                        ));
                        Outcome::Error(String::from_str("No entity found at that point."))
                    },
                },
                CommandInput::Cancel => {
                    self.on_cancel();
                    Outcome::Cancelled
                },
                _ => Outcome::Continue,
            }
        } else if self.step == 1 {
            match input {
                CommandInput::Confirm => {
                    let source = match self.source {
                        Some(e) => e,
                        None => {
                            return Outcome::Error(String::from_str("No source entity selected."));
                        },
                    };
                    let changes = apply_match(world, source, &self.targets);
                    Outcome::Done(MatchPropCommit { changes, label: String::from_str("Match Properties") })
                },
                CommandInput::Cancel => {
                    self.on_cancel();
                    Outcome::Cancelled
                },
                _ => Outcome::Continue,
            }
        } else {
            Outcome::Done(MatchPropCommit { changes: Vec::new(), label: String::from_str("Match Properties") })
        }
    }

    /// Preview geometry drawn while the command runs: none.
    pub fn preview<Q>(&self) -> (v: Vec<PreviewEntity<Q>>)
        ensures
            v@.len() == 0,
    {
        Vec::new()
    }

    /// Nothing to clean up: no entity was spawned.
    pub fn on_cancel(&mut self)
        ensures
            *final(self) == *old(self),
    {
    }
}

} // verus!
