//! Binds tokens to actions on an interpretation state and replays a symbol
//! sequence against it.
use vstd::prelude::*;

use std::collections::HashMap;

use crate::arena::ArenaId;
use crate::system::LSystem;
use crate::turtle::TurtleContainer;

verus! {

broadcast use vstd::std_specs::hash::group_hash_axioms;

/// An action on an interpretation state of type `Q`.
pub trait Mutator<Q: View> {
    /// The state after the action, over views.
    spec fn spec_apply(&self, state: Q::V) -> Q::V;

    /// Performs the action in place.
    fn apply(&self, state: &mut Q)
        ensures
            final(state)@ == self.spec_apply(old(state)@),
    ;
}

/// What a [`TurtleRenderer`] holds: the interpretation state, the action bound to
/// each canonical id, and the canonical id each aliased id stands for.
pub struct RendererModel<Q: View, M> {
    pub state: Q::V,
    pub actions: Map<usize, M>,
    pub aliases: Map<usize, usize>,
}

/// `aliases` with every id of `ids` now standing for `target`.
pub open spec fn aliased_to(aliases: Map<usize, usize>, ids: Seq<ArenaId>, target: usize) -> Map<
    usize,
    usize,
>
    decreases ids.len(),
{
    if ids.len() == 0 {
        aliases
    } else {
        aliased_to(aliases, ids.drop_last(), target).insert(ids.last().0, target)
    }
}

/// Every id that `aliased_to` maps either keeps its old target or maps to `target`.
proof fn lemma_aliased_to(aliases: Map<usize, usize>, ids: Seq<ArenaId>, target: usize, k: usize)
    requires
        aliased_to(aliases, ids, target).contains_key(k),
    ensures
        aliased_to(aliases, ids, target)[k] == target || (aliases.contains_key(k)
            && aliased_to(aliases, ids, target)[k] == aliases[k]),
    decreases ids.len(),
{
    if ids.len() > 0 && ids.last().0 != k {
        lemma_aliased_to(aliases, ids.drop_last(), target, k);
    }
}

impl<Q: View, M: Mutator<Q>> RendererModel<Q, M> {
    /// Every alias leads to an id with a bound action.
    pub open spec fn wf(self) -> bool {
        forall|k: usize| #[trigger]
            self.aliases.contains_key(k) ==> self.actions.contains_key(self.aliases[k])
    }

    /// The action that `id` triggers: the one bound to the id it is aliased to, if any.
    pub open spec fn resolve(self, id: ArenaId) -> Option<M> {
        if self.aliases.contains_key(id.0) && self.actions.contains_key(self.aliases[id.0]) {
            Some(self.actions[self.aliases[id.0]])
        } else {
            None
        }
    }

    /// `state` after the action that `id` triggers, or unchanged when it triggers none.
    pub open spec fn apply_id(self, id: ArenaId, state: Q::V) -> Q::V {
        match self.resolve(id) {
            Some(m) => m.spec_apply(state),
            None => state,
        }
    }

    /// `state` after the actions of `ids`, applied in order from the first.
    pub open spec fn run(self, ids: Seq<ArenaId>, state: Q::V) -> Q::V
        decreases ids.len(),
    {
        if ids.len() == 0 {
            state
        } else {
            self.apply_id(ids.last(), self.run(ids.drop_last(), state))
        }
    }

    /// The model after binding `action` to `id`, which becomes its own alias.
    pub open spec fn with_action(self, id: ArenaId, action: M) -> RendererModel<Q, M> {
        RendererModel {
            actions: self.actions.insert(id.0, action),
            aliases: self.aliases.insert(id.0, id.0),
            ..self
        }
    }

    /// The model after binding `action` to the first id of `ids` and aliasing every
    /// id of `ids` to it; unchanged when `ids` is empty.
    pub open spec fn with_group(self, ids: Seq<ArenaId>, action: M) -> RendererModel<Q, M> {
        if ids.len() == 0 {
            self
        } else {
            RendererModel { aliases: aliased_to(self.aliases, ids, ids[0].0), ..self }.with_action(
                ids[0],
                action,
            )
        }
    }
}

/// Replays symbol sequences against an interpretation state: each token id is
/// resolved through the alias table, and the action bound to the result, if
/// any, changes the state. Ids without an action are skipped.
pub struct TurtleRenderer<Q, M> {
    state: Q,
    state_actions: HashMap<usize, M>,
    aliases: HashMap<usize, usize>,
}

impl<Q: View, M> View for TurtleRenderer<Q, M> {
    type V = RendererModel<Q, M>;

    closed spec fn view(&self) -> RendererModel<Q, M> {
        RendererModel { state: self.state@, actions: self.state_actions@, aliases: self.aliases@ }
    }
}

impl<Q: View, M: Mutator<Q>> TurtleRenderer<Q, M> {
    /// A renderer over `state` with no action bound.
    pub fn new(state: Q) -> (r: Self)
        ensures
            r@ == (RendererModel::<Q, M> { state: state@, actions: Map::empty(), aliases: Map::empty() }),
            r@.wf(),
    {
        TurtleRenderer { state, state_actions: HashMap::new(), aliases: HashMap::new() }
    }

    /// The interpretation state.
    pub fn state(&self) -> (r: &Q)
        ensures
            r@ == self@.state,
    {
        &self.state
    }

    /// Binds `modifier` to `arena_id`, replacing any earlier binding, and makes the
    /// id its own alias.
    pub fn register(&mut self, arena_id: ArenaId, modifier: M)
        ensures
            final(self)@ == old(self)@.with_action(arena_id, modifier),
            old(self)@.wf() ==> final(self)@.wf(),
    {
        proof {
            if old(self)@.wf() {
                lemma_registration_keeps_aliases_resolved(old(self)@, seq![arena_id], modifier);
            }
        }
        self.aliases.insert(arena_id.0, arena_id.0);
        self.state_actions.insert(arena_id.0, modifier);
    }

    /// Binds `modifier` to the first id of `arena_ids` and aliases every id of the
    /// slice to that first one; does nothing for an empty slice.
    pub fn register_multiple(&mut self, arena_ids: &[ArenaId], modifier: M)
        ensures
            final(self)@ == old(self)@.with_group(arena_ids@, modifier),
            old(self)@.wf() ==> final(self)@.wf(),
    {
        proof {
            if old(self)@.wf() {
                lemma_registration_keeps_aliases_resolved(old(self)@, arena_ids@, modifier);
            }
        }
        if arena_ids.len() == 0 {
            return;
        }
        let first = arena_ids[0];
        let mut i: usize = 0;
        while i < arena_ids.len()
            invariant
                i <= arena_ids@.len(),
                first == arena_ids@[0],
                self.state@ == old(self).state@,
                self.state_actions@ == old(self).state_actions@,
                self.aliases@ == aliased_to(old(self).aliases@, arena_ids@.take(i as int), first.0),
            decreases arena_ids@.len() - i,
        {
            self.aliases.insert(arena_ids[i].0, first.0);
            i = i + 1;
            assert(arena_ids@.take(i as int).drop_last() =~= arena_ids@.take(i - 1));
        }
        assert(arena_ids@.take(i as int) =~= arena_ids@);
        self.register(first, modifier);
    }

    /// Applies, in order, the action that each id of `system_state` triggers.
    pub fn compute(&mut self, system_state: &[ArenaId])
        ensures
            final(self)@ == (RendererModel {
                state: old(self)@.run(system_state@, old(self)@.state),
                ..old(self)@
            }),
    {
        let mut i: usize = 0;
        while i < system_state.len()
            invariant
                i <= system_state@.len(),
                self.state_actions@ == old(self)@.actions,
                self.aliases@ == old(self)@.aliases,
                self.state@ == old(self)@.run(system_state@.take(i as int), old(self)@.state),
            decreases system_state@.len() - i,
        {
            let id = system_state[i];
            assert(system_state@.take(i + 1).drop_last() =~= system_state@.take(i as int));
            match self.aliases.get(&id.0) {
                Some(alias) => {
                    let target = *alias;
                    match self.state_actions.get(&target) {
                        Some(action) => action.apply(&mut self.state),
                        None => {},
                    }
                },
                None => {},
            }
            i = i + 1;
        }
        assert(system_state@.take(i as int) =~= system_state@);
    }
}

/// Turns a system's current state into some output, consuming the renderer.
pub trait Renderer<S> {
    /// What rendering produces.
    type Output;

    /// Renders the current state of `system`.
    fn render(self, system: &LSystem, options: &S) -> Self::Output;
}

/// Options of the renderer that hands back the drawn segments only.
#[derive(Debug, Default, Clone, Copy)]
pub struct DataRendererOptions {}

impl<Q: TurtleContainer, M: Mutator<Q>> Renderer<DataRendererOptions> for TurtleRenderer<Q, M> {
    type Output = Vec<(i64, i64, i64, i64)>;

    /// Replays the system's state and returns the segments the turtle drew.
    fn render(self, system: &LSystem, options: &DataRendererOptions) -> (r: Vec<
        (i64, i64, i64, i64),
    >)
        ensures
            r@ == Q::turtle_of(self@.run(system.state(), self@.state)).lines,
    {
        let mut this = self;
        this.compute(system.get_state());
        let lines = this.state.inner().lines();
        let mut out: Vec<(i64, i64, i64, i64)> = Vec::new();
        let mut i: usize = 0;
        while i < lines.len()
            invariant
                i <= lines@.len(),
                out@ == lines@.take(i as int),
            decreases lines@.len() - i,
        {
            out.push(lines[i]);
            i = i + 1;
            assert(out@ =~= lines@.take(i as int));
        }
        assert(lines@.take(i as int) =~= lines@);
        out
    }
}

/// Binding an action, alone or for a group of ids, keeps every alias resolved.
pub proof fn lemma_registration_keeps_aliases_resolved<Q: View, M: Mutator<Q>>(
    renderer: RendererModel<Q, M>,
    ids: Seq<ArenaId>,
    action: M,
)
    requires
        renderer.wf(),
    ensures
        ids.len() > 0 ==> renderer.with_action(ids[0], action).wf(),
        renderer.with_group(ids, action).wf(),
{
    if ids.len() > 0 {
        let g = renderer.with_group(ids, action);
        let first = ids[0].0;
        assert forall|k: usize| #[trigger] g.aliases.contains_key(k) implies g.actions.contains_key(
            g.aliases[k],
        ) by {
            if k != first {
                lemma_aliased_to(renderer.aliases, ids, first, k);
            }
        }
        let w = renderer.with_action(ids[0], action);
        assert forall|k: usize| #[trigger] w.aliases.contains_key(k) implies w.actions.contains_key(
            w.aliases[k],
        ) by {
            if k != first {
                assert(renderer.aliases.contains_key(k));
            }
        }
    }
}

/// Alias fan-in: once `[a, b, c]` share `f` through
/// [`TurtleRenderer::register_multiple`], replaying `[a, b, c]` applies `f` three
/// times, each on the result of the one before.
pub proof fn lemma_alias_fan_in<Q: View, M: Mutator<Q>>(
    renderer: RendererModel<Q, M>,
    a: ArenaId,
    b: ArenaId,
    c: ArenaId,
    f: M,
    state: Q::V,
)
    ensures
        renderer.with_group(seq![a, b, c], f).run(seq![a, b, c], state) == f.spec_apply(
            f.spec_apply(f.spec_apply(state)),
        ),
{
    let ids = seq![a, b, c];
    let t = a.0;
    let g = renderer.with_group(ids, f);
    let empty = Seq::<ArenaId>::empty();
    assert(ids.drop_last() =~= seq![a, b]);
    assert(seq![a, b].drop_last() =~= seq![a]);
    assert(seq![a].drop_last() =~= empty);
    let m0 = aliased_to(renderer.aliases, seq![a], t);
    assert(m0 == aliased_to(renderer.aliases, empty, t).insert(a.0, t));
    let m1 = aliased_to(renderer.aliases, seq![a, b], t);
    assert(m1 == m0.insert(b.0, t));
    let m2 = aliased_to(renderer.aliases, ids, t);
    assert(m2 == m1.insert(c.0, t));
    assert(g.aliases == m2.insert(a.0, a.0));
    assert(g.actions == renderer.actions.insert(a.0, f));
    assert(g.resolve(a) == Some(f));
    assert(g.resolve(b) == Some(f));
    assert(g.resolve(c) == Some(f));
    assert(g.run(empty, state) == state);
    assert(g.run(seq![a], state) == f.spec_apply(state));
    assert(g.run(seq![a, b], state) == f.spec_apply(f.spec_apply(state)));
}

} // verus!
