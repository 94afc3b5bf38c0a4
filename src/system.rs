//! The rewriting engine: a compiled grammar and its current symbol sequence.
use vstd::prelude::*;

use crate::arena::{Arena, ArenaId};
use crate::token::Token;

verus! {

broadcast use vstd::seq_lib::group_seq_properties;

/// One parallel rewriting pass: every id of `state` is replaced by its successor
/// sequence from the rule table, in order.
pub open spec fn rewrite(rules: Seq<Seq<ArenaId>>, state: Seq<ArenaId>) -> Seq<ArenaId> {
    state.map_values(|id: ArenaId| rules[id.0 as int]).flatten()
}

/// `n` rewriting passes applied to `start`.
pub open spec fn iterate(rules: Seq<Seq<ArenaId>>, start: Seq<ArenaId>, n: nat) -> Seq<ArenaId>
    decreases n,
{
    if n == 0 {
        start
    } else {
        rewrite(rules, iterate(rules, start, (n - 1) as nat))
    }
}

/// The display names of the tokens that `ids` names, concatenated without separator.
pub open spec fn render_names(tokens: Seq<Token>, ids: Seq<ArenaId>) -> Seq<char> {
    ids.map_values(|id: ArenaId| tokens[id.0 as int]@).flatten()
}

/// Every id of `ids` is below `n`.
pub open spec fn ids_below(ids: Seq<ArenaId>, n: nat) -> bool {
    forall|i: int| 0 <= i < ids.len() ==> (#[trigger] ids[i]).0 < n
}

/// A rule table for `n` tokens: one successor sequence per token, each naming tokens only.
pub open spec fn valid_table(rules: Seq<Seq<ArenaId>>, n: nat) -> bool {
    rules.len() == n && forall|i: int| 0 <= i < n ==> ids_below(#[trigger] rules[i], n)
}

/// Rewriting keeps every id of a sequence inside the token range.
proof fn lemma_rewrite_ids_below(rules: Seq<Seq<ArenaId>>, state: Seq<ArenaId>, n: nat)
    requires
        valid_table(rules, n),
        ids_below(state, n),
    ensures
        ids_below(rewrite(rules, state), n),
    decreases state.len(),
{
    if state.len() > 0 {
        let f = |id: ArenaId| rules[id.0 as int];
        let front = state.drop_last();
        lemma_rewrite_ids_below(rules, front, n);
        assert(state.map_values(f) =~= front.map_values(f).push(rules[state.last().0 as int]));
        front.map_values(f).lemma_flatten_push(rules[state.last().0 as int]);
        let l = rewrite(rules, front);
        let r = rules[state.last().0 as int];
        assert forall|i: int| 0 <= i < (l + r).len() implies (#[trigger] (l + r)[i]).0 < n by {
            if i >= l.len() {
                assert((l + r)[i] == r[i - l.len()]);
            }
        }
    }
}

/// Rewriting the first `i + 1` ids is rewriting the first `i` and appending the
/// successor of the next one.
proof fn lemma_rewrite_take(rules: Seq<Seq<ArenaId>>, state: Seq<ArenaId>, i: int)
    requires
        0 <= i < state.len(),
    ensures
        rewrite(rules, state.take(i + 1)) == rewrite(rules, state.take(i)) + rules[state[i].0 as int],
{
    let f = |id: ArenaId| rules[id.0 as int];
    assert(state.take(i + 1).map_values(f) =~= state.take(i).map_values(f).push(
        rules[state[i].0 as int],
    ));
    state.take(i).map_values(f).lemma_flatten_push(rules[state[i].0 as int]);
}

/// Rendering the first `i + 1` ids is rendering the first `i` and appending the
/// next one's name.
proof fn lemma_render_take(tokens: Seq<Token>, ids: Seq<ArenaId>, i: int)
    requires
        0 <= i < ids.len(),
    ensures
        render_names(tokens, ids.take(i + 1)) == render_names(tokens, ids.take(i)) + tokens[ids[i].0 as int]@,
{
    let f = |id: ArenaId| tokens[id.0 as int]@;
    assert(ids.take(i + 1).map_values(f) =~= ids.take(i).map_values(f).push(
        tokens[ids[i].0 as int]@,
    ));
    ids.take(i).map_values(f).lemma_flatten_push(tokens[ids[i].0 as int]@);
}

/// `a` passes followed by `b` passes are `a + b` passes.
pub proof fn lemma_iterate_additive(rules: Seq<Seq<ArenaId>>, start: Seq<ArenaId>, a: nat, b: nat)
    ensures
        iterate(rules, iterate(rules, start, a), b) == iterate(rules, start, a + b),
    decreases b,
{
    if b > 0 {
        lemma_iterate_additive(rules, start, a, (b - 1) as nat);
        assert((a + b - 1) as nat == a + (b - 1) as nat);
    }
}

/// A pass leaves a sequence unchanged when every id in it rewrites to itself alone.
pub proof fn lemma_rewrite_fixed(rules: Seq<Seq<ArenaId>>, state: Seq<ArenaId>)
    requires
        forall|i: int| 0 <= i < state.len() ==> rules[(#[trigger] state[i]).0 as int] == seq![state[i]],
    ensures
        rewrite(rules, state) == state,
    decreases state.len(),
{
    if state.len() > 0 {
        let f = |id: ArenaId| rules[id.0 as int];
        let front = state.drop_last();
        assert forall|i: int| 0 <= i < front.len() implies rules[(#[trigger] front[i]).0 as int]
            == seq![front[i]] by {
            assert(front[i] == state[i]);
        }
        lemma_rewrite_fixed(rules, front);
        assert(state.map_values(f) =~= front.map_values(f).push(rules[state.last().0 as int]));
        front.map_values(f).lemma_flatten_push(rules[state.last().0 as int]);
        assert(rules[state.last().0 as int] == seq![state[state.len() - 1]]);
        assert(front.push(state.last()) =~= state);
    }
}

/// A sequence whose ids all rewrite to themselves stays the same for any number of passes.
pub proof fn lemma_iterate_fixed(rules: Seq<Seq<ArenaId>>, state: Seq<ArenaId>, k: nat)
    requires
        forall|i: int| 0 <= i < state.len() ==> rules[(#[trigger] state[i]).0 as int] == seq![state[i]],
    ensures
        iterate(rules, state, k) == state,
    decreases k,
{
    if k > 0 {
        lemma_iterate_fixed(rules, state, (k - 1) as nat);
        lemma_rewrite_fixed(rules, state);
    }
}

/// Determinism: two systems with the same grammar render the same text after a
/// reset followed by `n` passes, whatever state each was in before.
pub proof fn lemma_reset_step_by_deterministic(s: LSystem, t: LSystem, n: nat)
    requires
        s.wf(),
        t.wf(),
        s.same_grammar(&t),
    ensures
        render_names(s.tokens(), iterate(s.rule_table(), s.start_ids(), n)) == render_names(
            t.tokens(),
            iterate(t.rule_table(), t.start_ids(), n),
        ),
{
}

/// Additivity: `step_by(a)` then `step_by(b)` reach the state of `step_by(a + b)`,
/// both from the current state and from a fresh reset.
pub proof fn lemma_step_by_additive(s: LSystem, a: nat, b: nat)
    requires
        s.wf(),
    ensures
        iterate(s.rule_table(), s.state_after(a), b) == s.state_after(a + b),
        iterate(s.rule_table(), iterate(s.rule_table(), s.start_ids(), a), b) == iterate(
            s.rule_table(),
            s.start_ids(),
            a + b,
        ),
{
    lemma_iterate_additive(s.rule_table(), s.state(), a, b);
    lemma_iterate_additive(s.rule_table(), s.start_ids(), a, b);
}

/// A compiled Lindenmayer system: its tokens, start and rule table never change;
/// its state is rewritten by [`LSystem::step`].
#[derive(Clone, Debug)]
pub struct LSystem {
    arena: Arena<Token>,
    start: Vec<ArenaId>,
    rules: Vec<Vec<ArenaId>>,
    state: Vec<ArenaId>,
    steps: usize,
}

impl LSystem {
    /// The tokens, indexed by id.
    pub closed spec fn tokens(&self) -> Seq<Token> {
        self.arena@
    }

    /// The initial sequence.
    pub closed spec fn start_ids(&self) -> Seq<ArenaId> {
        self.start@
    }

    /// The rule table: entry `i` is the successor sequence of token `i`.
    pub closed spec fn rule_table(&self) -> Seq<Seq<ArenaId>> {
        self.rules@.map_values(|v: Vec<ArenaId>| v@)
    }

    /// The current sequence.
    pub closed spec fn state(&self) -> Seq<ArenaId> {
        self.state@
    }

    /// The number of passes since construction or the last reset.
    pub closed spec fn step_count(&self) -> nat {
        self.steps as nat
    }

    /// The rendering of the current sequence.
    pub open spec fn rendered(&self) -> Seq<char> {
        render_names(self.tokens(), self.state())
    }

    /// The sequence `n` passes from now.
    pub open spec fn state_after(&self, n: nat) -> Seq<ArenaId> {
        iterate(self.rule_table(), self.state(), n)
    }

    /// Every id in the start sequence, the rule table and the state names a token, there is
    /// one rule per token, and the state is the start sequence after `step_count` passes.
    pub open spec fn wf(&self) -> bool {
        &&& valid_table(self.rule_table(), self.tokens().len())
        &&& ids_below(self.start_ids(), self.tokens().len())
        &&& ids_below(self.state(), self.tokens().len())
        &&& self.state() == iterate(self.rule_table(), self.start_ids(), self.step_count())
    }

    /// The grammar of `self` and `other` agree: tokens, start and rule table.
    pub open spec fn same_grammar(&self, other: &LSystem) -> bool {
        &&& self.tokens() == other.tokens()
        &&& self.start_ids() == other.start_ids()
        &&& self.rule_table() == other.rule_table()
    }

    /// Assembles a system in its initial state from a checked grammar.
    pub(crate) fn new(arena: Arena<Token>, start: Vec<ArenaId>, rules: Vec<Vec<ArenaId>>) -> (r:
        LSystem)
        requires
            valid_table(rules@.map_values(|v: Vec<ArenaId>| v@), arena@.len()),
            ids_below(start@, arena@.len()),
        ensures
            r.wf(),
            r.tokens() == arena@,
            r.start_ids() == start@,
            r.rule_table() == rules@.map_values(|v: Vec<ArenaId>| v@),
            r.state() == start@,
            r.step_count() == 0,
    {
        let state = copy_ids(&start);
        LSystem { arena, start, rules, state, steps: 0 }
    }

    /// Restores the state to the start sequence and zeroes the step counter.
    pub fn reset(&mut self)
        requires
            old(self).wf(),
        ensures
            final(self).wf(),
            final(self).same_grammar(old(self)),
            final(self).state() == old(self).start_ids(),
            final(self).step_count() == 0,
    {
        self.state = copy_ids(&self.start);
        self.steps = 0;
    }

    /// Applies one rewriting pass to every id of the state and counts it.
    pub fn step(&mut self)
        requires
            old(self).wf(),
            old(self).step_count() < usize::MAX,
        ensures
            final(self).wf(),
            final(self).same_grammar(old(self)),
            final(self).state() == rewrite(old(self).rule_table(), old(self).state()),
            final(self).step_count() == old(self).step_count() + 1,
    {
        let ghost rules = self.rule_table();
        let ghost n = self.tokens().len();
        let mut next: Vec<ArenaId> = Vec::new();
        let mut i: usize = 0;
        while i < self.state.len()
            invariant
                self.wf(),
                rules == self.rule_table(),
                n == self.tokens().len(),
                i <= self.state@.len(),
                next@ == rewrite(rules, self.state@.take(i as int)),
            decreases self.state@.len() - i,
        {
            let id = self.state[i];
            assert(id.0 < n);
            let successor = &self.rules[id.0];
            assert(successor@ == rules[id.0 as int]);
            let ghost before = next@;
            let mut j: usize = 0;
            while j < successor.len()
                invariant
                    j <= successor@.len(),
                    next@ == before + successor@.take(j as int),
                decreases successor@.len() - j,
            {
                next.push(successor[j]);
                j = j + 1;
                assert(next@ =~= before + successor@.take(j as int));
            }
            assert(successor@.take(j as int) =~= successor@);
            proof {
                lemma_rewrite_take(rules, self.state@, i as int);
            }
            i = i + 1;
        }
        assert(self.state@.take(i as int) =~= self.state@);
        proof {
            lemma_rewrite_ids_below(rules, self.state@, n);
        }
        self.state = next;
        self.steps = self.steps + 1;
    }

    /// Applies [`LSystem::step`] `n` times.
    pub fn step_by(&mut self, n: usize)
        requires
            old(self).wf(),
            old(self).step_count() + n <= usize::MAX,
        ensures
            final(self).wf(),
            final(self).same_grammar(old(self)),
            final(self).state() == old(self).state_after(n as nat),
            final(self).step_count() == old(self).step_count() + n,
    {
        let ghost from = self.state();
        let mut k: usize = 0;
        while k < n
            invariant
                self.wf(),
                self.same_grammar(old(self)),
                k <= n,
                self.state() == iterate(self.rule_table(), from, k as nat),
                self.step_count() == old(self).step_count() + k,
                old(self).step_count() + n <= usize::MAX,
            decreases n - k,
        {
            self.step();
            k = k + 1;
        }
    }

    /// The number of passes since construction or the last reset.
    pub fn steps(&self) -> (r: usize)
        ensures
            r == self.step_count(),
    {
        self.steps
    }

    /// The display names of the current sequence, concatenated without separator.
    pub fn render(&self) -> (r: String)
        requires
            self.wf(),
        ensures
            r@ == self.rendered(),
    {
        self.arena.render(self.state.as_slice())
    }

    /// The current sequence.
    pub fn get_state(&self) -> (r: &[ArenaId])
        ensures
            r@ == self.state(),
    {
        self.state.as_slice()
    }
}

/// A copy of `ids`.
pub(crate) fn copy_ids(ids: &Vec<ArenaId>) -> (r: Vec<ArenaId>)
    ensures
        r@ == ids@,
{
    let mut r: Vec<ArenaId> = Vec::new();
    let mut i: usize = 0;
    while i < ids.len()
        invariant
            i <= ids@.len(),
            r@ == ids@.take(i as int),
        decreases ids@.len() - i,
    {
        r.push(ids[i]);
        i = i + 1;
        assert(r@ =~= ids@.take(i as int));
    }
    assert(ids@.take(i as int) =~= ids@);
    r
}

impl Arena<Token> {
    /// The display names of the tokens that `tokens` names, concatenated without separator.
    pub fn render(&self, tokens: &[ArenaId]) -> (r: String)
        requires
            self.valid_ids(tokens@),
        ensures
            r@ == render_names(self@, tokens@),
    {
        let mut st = String::new();
        let mut i: usize = 0;
        while i < tokens.len()
            invariant
                self.valid_ids(tokens@),
                i <= tokens@.len(),
                st@ == render_names(self@, tokens@.take(i as int)),
            decreases tokens@.len() - i,
        {
            let id = tokens[i];
            assert(self.valid_id(tokens@[i as int]));
            proof {
                lemma_render_take(self@, tokens@, i as int);
            }
            match self.get(id) {
                Some(token) => st.append(token.name()),
                None => {},
            }
            i = i + 1;
        }
        assert(tokens@.take(i as int) =~= tokens@);
        st
    }
}

} // verus!
