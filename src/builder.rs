//! Collects tokens, rules and a start sequence, checks every id, and compiles
//! them into an [`LSystem`].
use vstd::prelude::*;

use crate::arena::{Arena, ArenaId};
use crate::errors::LSystemError;
use crate::system::{copy_ids, ids_below, iterate, lemma_iterate_fixed, render_names, valid_table, LSystem};
use crate::token::{valid_token_name, Token};

verus! {

broadcast use vstd::seq_lib::group_seq_properties;

/// The successor of the last rule in `rules` whose predecessor is token `i`, if any.
pub open spec fn last_rule_for(rules: Seq<(ArenaId, Seq<ArenaId>)>, i: nat) -> Option<Seq<ArenaId>>
    decreases rules.len(),
{
    if rules.len() == 0 {
        None
    } else if rules.last().0.0 == i {
        Some(rules.last().1)
    } else {
        last_rule_for(rules.drop_last(), i)
    }
}

/// The rule table compiled from `rules` for `n` tokens: each token gets the
/// successor of its last registered rule, or itself alone when it has none.
pub open spec fn compile_rules(rules: Seq<(ArenaId, Seq<ArenaId>)>, n: nat) -> Seq<Seq<ArenaId>> {
    Seq::new(
        n,
        |i: int|
            match last_rule_for(rules, i as nat) {
                Some(s) => s,
                None => seq![ArenaId(i as usize)],
            },
    )
}

/// The id of the last token of `tokens` named `name`, if any.
pub open spec fn last_named(tokens: Seq<Token>, name: Seq<char>) -> Option<ArenaId>
    decreases tokens.len(),
{
    if tokens.len() == 0 {
        None
    } else if tokens.last()@ == name {
        Some(ArenaId((tokens.len() - 1) as usize))
    } else {
        last_named(tokens.drop_last(), name)
    }
}

/// The index of the first id of `ids` that is not below `n` (`ids.len()` when there is none).
pub open spec fn first_invalid(ids: Seq<ArenaId>, n: nat) -> nat
    decreases ids.len(),
{
    if ids.len() == 0 {
        0
    } else if ids[0].0 >= n {
        0
    } else {
        1 + first_invalid(ids.drop_first(), n)
    }
}

proof fn lemma_first_invalid(ids: Seq<ArenaId>, n: nat, k: int)
    requires
        0 <= k <= ids.len(),
        forall|j: int| 0 <= j < k ==> (#[trigger] ids[j]).0 < n,
        k == ids.len() || ids[k].0 >= n,
    ensures
        first_invalid(ids, n) == k,
    decreases ids.len(),
{
    if ids.len() > 0 && k > 0 {
        assert forall|j: int| 0 <= j < k - 1 implies (#[trigger] ids.drop_first()[j]).0 < n by {
            assert(ids.drop_first()[j] == ids[j + 1]);
        }
        lemma_first_invalid(ids.drop_first(), n, k - 1);
    }
}

/// A rule written `pred => succ`, with the display names of its tokens.
pub open spec fn rule_text(tokens: Seq<Token>, rule: (ArenaId, Seq<ArenaId>)) -> Seq<char> {
    render_names(tokens, seq![rule.0]) + " => "@ + render_names(tokens, rule.1)
}

/// The rules written with [`rule_text`], separated by commas.
pub open spec fn rules_text(tokens: Seq<Token>, rules: Seq<(ArenaId, Seq<ArenaId>)>) -> Seq<char>
    decreases rules.len(),
{
    if rules.len() == 0 {
        Seq::empty()
    } else if rules.len() == 1 {
        rule_text(tokens, rules[0])
    } else {
        rules_text(tokens, rules.drop_last()) + ","@ + rule_text(tokens, rules.last())
    }
}

/// The rules of `rules` written `pred => succ` and separated by commas.
fn build_rules_string(rules: &Vec<TransformationRule>, arena: &Arena<Token>) -> (r: String)
    requires
        forall|i: int|
            0 <= i < rules@.len() ==> {
                let r = #[trigger] rules@[i]@;
                arena.valid_id(r.0) && arena.valid_ids(r.1)
            },
    ensures
        r@ == rules_text(arena@, rules@.map_values(|r: TransformationRule| r@)),
{
    let ghost all = rules@.map_values(|r: TransformationRule| r@);
    let mut st = String::new();
    let mut i: usize = 0;
    while i < rules.len()
        invariant
            all == rules@.map_values(|r: TransformationRule| r@),
            i <= rules@.len(),
            st@ == rules_text(arena@, all.take(i as int)),
            forall|j: int|
                0 <= j < rules@.len() ==> {
                    let r = #[trigger] rules@[j]@;
                    arena.valid_id(r.0) && arena.valid_ids(r.1)
                },
        decreases rules@.len() - i,
    {
        let rule = &rules[i];
        assert(all.take(i + 1).drop_last() =~= all.take(i as int));
        assert(all.take(i + 1).last() == rule@);
        if i > 0 {
            st.append(",");
        }
        let pred = [rule.predecessor];
        assert(pred@ =~= seq![rule@.0]);
        let left = arena.render(&pred);
        st.append(left.as_str());
        st.append(" => ");
        let right = arena.render(rule.successor.as_slice());
        st.append(right.as_str());
        assert(i == 0 ==> all.take(1) =~= seq![rule@]);
        i = i + 1;
    }
    assert(all.take(i as int) =~= all);
    st
}

/// One production: `predecessor -> successor`.
#[derive(Debug, Clone)]
pub struct TransformationRule {
    predecessor: ArenaId,
    successor: Vec<ArenaId>,
}

impl View for TransformationRule {
    type V = (ArenaId, Seq<ArenaId>);

    closed spec fn view(&self) -> (ArenaId, Seq<ArenaId>) {
        (self.predecessor, self.successor@)
    }
}

impl TransformationRule {
    /// The rule `predecessor -> successor`.
    pub fn new(predecessor: ArenaId, successor: Vec<ArenaId>) -> (r: Self)
        ensures
            r@ == (predecessor, successor@),
    {
        TransformationRule { predecessor, successor }
    }
}

/// Builds an [`LSystem`]: register tokens, give rules and a start sequence, then
/// call [`LSystemBuilder::finish`].
#[derive(Debug, Clone)]
pub struct LSystemBuilder {
    arena: Arena<Token>,
    start: Option<Vec<ArenaId>>,
    rules: Vec<TransformationRule>,
}

impl LSystemBuilder {
    /// The registered tokens, indexed by id.
    pub closed spec fn tokens(&self) -> Seq<Token> {
        self.arena@
    }

    /// The start sequence, once set.
    pub closed spec fn start_ids(&self) -> Option<Seq<ArenaId>> {
        match self.start {
            Some(v) => Some(v@),
            None => None,
        }
    }

    /// The registered rules, in registration order.
    pub closed spec fn rule_list(&self) -> Seq<(ArenaId, Seq<ArenaId>)> {
        self.rules@.map_values(|r: TransformationRule| r@)
    }

    /// `ids` names tokens of this builder only.
    pub open spec fn valid_ids(&self, ids: Seq<ArenaId>) -> bool {
        ids_below(ids, self.tokens().len())
    }

    /// Every id held by the builder names one of its tokens.
    pub open spec fn wf(&self) -> bool {
        &&& forall|i: int|
            0 <= i < self.rule_list().len() ==> {
                let r = #[trigger] self.rule_list()[i];
                r.0.0 < self.tokens().len() && self.valid_ids(r.1)
            }
        &&& self.start_ids() is Some ==> self.valid_ids(self.start_ids()->0)
    }

    /// A builder with no token, no rule and no start sequence.
    pub fn new() -> (r: Self)
        ensures
            r.wf(),
            r.tokens() == Seq::<Token>::empty(),
            r.start_ids() is None,
            r.rule_list() == Seq::<(ArenaId, Seq<ArenaId>)>::empty(),
    {
        let r = LSystemBuilder { arena: Arena::new(), start: None, rules: Vec::new() };
        assert(r.rule_list() =~= Seq::<(ArenaId, Seq<ArenaId>)>::empty());
        r
    }

    /// Registers a token named `name` and returns its id, the number of tokens
    /// registered before it. Fails with [`LSystemError::InvalidToken`], changing
    /// nothing, when the name is empty or holds whitespace.
    pub fn token(&mut self, name: &str) -> (r: Result<ArenaId, LSystemError>)
        requires
            old(self).wf(),
        ensures
            final(self).wf(),
            valid_token_name(name@) <==> r is Ok,
            final(self).start_ids() == old(self).start_ids(),
            final(self).rule_list() == old(self).rule_list(),
            r is Ok ==> r->Ok_0.0 == old(self).tokens().len() && final(self).tokens().len()
                == old(self).tokens().len() + 1 && final(self).tokens().drop_last()
                == old(self).tokens() && final(self).tokens().last()@ == name@,
            r is Err ==> *final(self) == *old(self) && (r->Err_0 matches LSystemError::InvalidToken(s) && s@ == name@),
    {
        match Token::new(name) {
            Ok(t) => {
                let id = self.arena.push(t);
                assert(self.arena@.drop_last() =~= old(self).arena@);
                assert(self.rule_list() == old(self).rule_list());
                assert forall|i: int| 0 <= i < self.rule_list().len() implies {
                    let r = #[trigger] self.rule_list()[i];
                    r.0.0 < self.tokens().len() && self.valid_ids(r.1)
                } by {
                    let r = old(self).rule_list()[i];
                    assert(old(self).valid_ids(r.1));
                }
                if self.start.is_some() {
                    assert(old(self).valid_ids(old(self).start_ids()->0));
                }
                Ok(id)
            },
            Err(e) => Err(e),
        }
    }

    /// `Ok` when every id names a token of this builder; otherwise the first id that does not.
    fn validate_ids(&self, ids: &[ArenaId]) -> (r: Result<(), LSystemError>)
        ensures
            r is Ok <==> self.valid_ids(ids@),
            r is Err ==> r->Err_0 == LSystemError::InvalidArenaId(
                ids@[first_invalid(ids@, self.tokens().len()) as int],
            ) && first_invalid(ids@, self.tokens().len()) < ids@.len(),
    {
        let mut i: usize = 0;
        while i < ids.len()
            invariant
                i <= ids@.len(),
                forall|j: int| 0 <= j < i ==> (#[trigger] ids@[j]).0 < self.tokens().len(),
            decreases ids@.len() - i,
        {
            if !self.arena.is_valid(ids[i]) {
                proof {
                    lemma_first_invalid(ids@, self.tokens().len(), i as int);
                }
                return Err(LSystemError::InvalidArenaId(ids[i]));
            }
            i = i + 1;
        }
        Ok(())
    }

    /// The id of the last registered token named `name`, if any.
    pub fn last_token_named(&self, name: &str) -> (r: Option<ArenaId>)
        ensures
            r == last_named(self.tokens(), name@),
            r matches Some(id) ==> id.0 < self.tokens().len(),
    {
        let mut i: usize = self.arena.len();
        assert(self.tokens().take(i as int) =~= self.tokens());
        while i > 0
            invariant
                i <= self.tokens().len(),
                last_named(self.tokens(), name@) == last_named(self.tokens().take(i as int), name@),
            decreases i,
        {
            let id = ArenaId(i - 1);
            let ghost pre = self.tokens().take(i as int);
            assert(pre.drop_last() =~= self.tokens().take(i - 1));
            match self.arena.get(id) {
                Some(t) => {
                    if t.is_named(name) {
                        return Some(id);
                    }
                },
                None => {},
            }
            i = i - 1;
        }
        None
    }

    /// The registered rules written `pred => succ` with the tokens' names, separated
    /// by commas, in registration order.
    pub fn rules_string(&self) -> (r: String)
        requires
            self.wf(),
        ensures
            r@ == rules_text(self.tokens(), self.rule_list()),
    {
        assert forall|i: int| 0 <= i < self.rules@.len() implies {
            let r = #[trigger] self.rules@[i]@;
            self.arena.valid_id(r.0) && self.arena.valid_ids(r.1)
        } by {
            assert(self.rule_list()[i] == self.rules@[i]@);
        }
        build_rules_string(&self.rules, &self.arena)
    }

    /// Registers the rule `predecessor -> successor`. Fails with
    /// [`LSystemError::InvalidArenaId`], changing nothing, when an id names no token
    /// of this builder: the predecessor if it is invalid, else the first invalid successor.
    pub fn transformation_rule(&mut self, predecessor: ArenaId, successor: Vec<ArenaId>) -> (r:
        Result<(), LSystemError>)
        requires
            old(self).wf(),
        ensures
            final(self).wf(),
            final(self).tokens() == old(self).tokens(),
            final(self).start_ids() == old(self).start_ids(),
            r is Ok <==> predecessor.0 < old(self).tokens().len() && old(self).valid_ids(successor@),
            r is Ok ==> final(self).rule_list() == old(self).rule_list().push(
                (predecessor, successor@),
            ),
            r is Err ==> final(self).rule_list() == old(self).rule_list(),
            r is Err && predecessor.0 >= old(self).tokens().len() ==> r->Err_0
                == LSystemError::InvalidArenaId(predecessor),
            r is Err && predecessor.0 < old(self).tokens().len() ==> r->Err_0
                == LSystemError::InvalidArenaId(
                successor@[first_invalid(successor@, old(self).tokens().len()) as int],
            ),
    {
        if !self.arena.is_valid(predecessor) {
            return Err(LSystemError::InvalidArenaId(predecessor));
        }
        match self.validate_ids(successor.as_slice()) {
            Ok(()) => {},
            Err(e) => {
                return Err(e);
            },
        }
        let rule = TransformationRule::new(predecessor, successor);
        self.rules.push(rule);
        assert(self.rule_list() =~= old(self).rule_list().push((predecessor, successor@)));
        Ok(())
    }

    /// Sets the start sequence, replacing any earlier one. Fails with
    /// [`LSystemError::InvalidArenaId`] naming the first id that names no token of
    /// this builder, changing nothing.
    pub fn start(&mut self, ids: Vec<ArenaId>) -> (r: Result<(), LSystemError>)
        requires
            old(self).wf(),
        ensures
            final(self).wf(),
            final(self).tokens() == old(self).tokens(),
            final(self).rule_list() == old(self).rule_list(),
            r is Ok <==> old(self).valid_ids(ids@),
            r is Ok ==> final(self).start_ids() == Some(ids@),
            r is Err ==> final(self).start_ids() == old(self).start_ids() && r->Err_0
                == LSystemError::InvalidArenaId(ids@[first_invalid(ids@, old(self).tokens().len()) as int]),
    {
        match self.validate_ids(ids.as_slice()) {
            Ok(()) => {},
            Err(e) => {
                return Err(e);
            },
        }
        self.start = Some(ids);
        assert(self.rule_list() == old(self).rule_list());
        assert(self.start_ids() == Some(ids@));
        Ok(())
    }

    /// Consumes the builder and compiles its grammar. Fails with
    /// [`LSystemError::MissingStart`] when no start sequence was set. Otherwise each
    /// token's rule is the last one registered for it, and a token without one
    /// rewrites to itself.
    pub fn finish(self) -> (r: Result<LSystem, LSystemError>)
        requires
            self.wf(),
        ensures
            self.start_ids() is None <==> r is Err,
            r is Err ==> r->Err_0 == LSystemError::MissingStart,
            r is Ok ==> {
                let s = r->Ok_0;
                &&& s.wf()
                &&& s.tokens() == self.tokens()
                &&& s.start_ids() == self.start_ids()->0
                &&& s.rule_table() == compile_rules(self.rule_list(), self.tokens().len())
                &&& s.state() == s.start_ids()
                &&& s.step_count() == 0
            },
    {
        let start = match self.start {
            Some(v) => v,
            None => {
                return Err(LSystemError::MissingStart);
            },
        };
        let n = self.arena.len();
        let ghost rules = self.rule_list();
        let mut table: Vec<Vec<ArenaId>> = Vec::new();
        let mut i: usize = 0;
        while i < n
            invariant
                n == self.tokens().len(),
                i <= n,
                table@.len() == i,
                forall|j: int| 0 <= j < i ==> (#[trigger] table@[j])@ == seq![ArenaId(j as usize)],
            decreases n - i,
        {
            table.push(vec![ArenaId(i)]);
            i = i + 1;
        }
        let mut k: usize = 0;
        while k < self.rules.len()
            invariant
                self.wf(),
                rules == self.rule_list(),
                n == self.tokens().len(),
                k <= rules.len(),
                table@.len() == n,
                forall|j: int|
                    0 <= j < n ==> (#[trigger] table@[j])@ == compile_rules(rules.take(k as int), n as nat)[j],
            decreases rules.len() - k,
        {
            let p = self.rules[k].predecessor;
            let succ = copy_ids(&self.rules[k].successor);
            assert(rules[k as int] == (p, succ@));
            assert(rules.take(k as int + 1).drop_last() =~= rules.take(k as int));
            table.set(p.0, succ);
            k = k + 1;
        }
        assert(rules.take(k as int) =~= rules);
        let ghost table_view = table@.map_values(|v: Vec<ArenaId>| v@);
        assert(table_view =~= compile_rules(rules, n as nat));
        assert(valid_table(table_view, n as nat)) by {
            assert forall|j: int| 0 <= j < n implies ids_below(#[trigger] table_view[j], n as nat) by {
                lemma_compiled_valid(rules, n as nat, j);
            }
        }
        Ok(LSystem::new(self.arena, start, table))
    }
}

/// Each entry of a compiled table names registered tokens only.
proof fn lemma_compiled_valid(rules: Seq<(ArenaId, Seq<ArenaId>)>, n: nat, j: int)
    requires
        0 <= j < n,
        forall|i: int|
            0 <= i < rules.len() ==> {
                let r = #[trigger] rules[i];
                r.0.0 < n && ids_below(r.1, n)
            },
    ensures
        ids_below(compile_rules(rules, n)[j], n),
    decreases rules.len(),
{
    if rules.len() > 0 && rules.last().0.0 != j {
        assert forall|i: int| 0 <= i < rules.drop_last().len() implies {
            let r = #[trigger] rules.drop_last()[i];
            r.0.0 < n && ids_below(r.1, n)
        } by {
            assert(rules.drop_last()[i] == rules[i]);
        }
        lemma_compiled_valid(rules.drop_last(), n, j);
    } else if rules.len() > 0 {
        assert(rules.last() == rules[rules.len() - 1]);
    }
}

/// Identity rule: tokens without an explicit rule compile to themselves, so a start
/// sequence made only of such tokens is unchanged by any number of passes and
/// always renders the same text.
pub proof fn lemma_identity_rule(
    rules: Seq<(ArenaId, Seq<ArenaId>)>,
    tokens: Seq<Token>,
    start: Seq<ArenaId>,
    k: nat,
)
    requires
        ids_below(start, tokens.len()),
        forall|i: int| 0 <= i < start.len() ==> last_rule_for(rules, (#[trigger] start[i]).0 as nat) is None,
    ensures
        iterate(compile_rules(rules, tokens.len()), start, k) == start,
        render_names(tokens, iterate(compile_rules(rules, tokens.len()), start, k)) == render_names(
            tokens,
            start,
        ),
{
    let table = compile_rules(rules, tokens.len());
    assert forall|i: int| 0 <= i < start.len() implies table[(#[trigger] start[i]).0 as int] == seq![start[i]] by {
        assert(start[i].0 < tokens.len());
        assert(ArenaId(start[i].0 as usize) == start[i]);
    }
    lemma_iterate_fixed(table, start, k);
}

impl Default for LSystemBuilder {
    fn default() -> (r: Self)
        ensures
            r.wf(),
            r.tokens() == Seq::<Token>::empty(),
            r.start_ids() is None,
            r.rule_list() == Seq::<(ArenaId, Seq<ArenaId>)>::empty(),
    {
        LSystemBuilder::new()
    }
}

} // verus!
