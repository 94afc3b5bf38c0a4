//! Turtle interpretation of a grammar: each token carries an action (move, turn,
//! save, restore), and a renderer replays the system's state against a
//! [`SimpleTurtle`].
use vstd::prelude::*;

use rand::{Rng, SeedableRng};

use crate::angle::normal_degrees;
use crate::arena::ArenaId;
use crate::builder::{compile_rules, last_named, LSystemBuilder};
use crate::errors::LSystemError;
use crate::renderer::{Mutator, RendererModel, TurtleRenderer};
use crate::system::LSystem;
use crate::token::{valid_token_name, Token};
use crate::words::{split_whitespace, words};
use crate::turtle::{BaseTurtle, MovingTurtle, SimpleModel, SimpleTurtle, Stack, TurtleContainer, TurtleModel};

verus! {

/// The value that rand's `StdRng`, seeded with `seed`, draws first from
/// `lower..=upper`.
pub uninterp spec fn seeded_draw(seed: u64, lower: i32, upper: i32) -> i32;

/// Relies on rand's `SeedableRng::seed_from_u64`, which builds the same generator
/// from the same seed, and `Rng::gen_range`, which returns a value of the closed
/// range and panics only when the range is empty.
#[verifier::external_body]
fn draw_seeded(seed: u64, lower: i32, upper: i32) -> (r: i32)
    requires
        lower <= upper,
    ensures
        r == seeded_draw(seed, lower, upper),
        lower <= r <= upper,
{
    rand::rngs::StdRng::seed_from_u64(seed).gen_range(lower..=upper)
}

/// The seed after `seed`, wrapping to zero.
pub open spec fn next_seed(seed: u64) -> u64 {
    if seed == u64::MAX {
        0
    } else {
        (seed + 1) as u64
    }
}

fn advance_seed(seed: u64) -> (r: u64)
    ensures
        r == next_seed(seed),
{
    if seed == u64::MAX {
        0
    } else {
        seed + 1
    }
}

/// An integer-valued distribution, sampled through an explicit seed so that the
/// same seed gives the same sample.
pub trait Distribution {
    /// The sample drawn with `seed`.
    spec fn spec_sample(&self, seed: u64) -> i32;

    /// Draws the sample for `seed`.
    fn sample(&self, seed: u64) -> (r: i32)
        ensures
            r == self.spec_sample(seed),
    ;
}

/// The uniform distribution on the closed interval `[lower, upper]`.
#[derive(Debug, Clone, Copy)]
pub struct Uniform {
    lower: i32,
    upper: i32,
}

impl Uniform {
    #[verifier::type_invariant]
    closed spec fn inv(self) -> bool {
        self.lower <= self.upper
    }

    /// The lower end.
    pub closed spec fn low(self) -> i32 {
        self.lower
    }

    /// The upper end.
    pub closed spec fn high(self) -> i32 {
        self.upper
    }

    /// The uniform distribution on `[lower, upper]`.
    pub fn new(lower: i32, upper: i32) -> (r: Self)
        requires
            lower <= upper,
        ensures
            r.low() == lower,
            r.high() == upper,
    {
        Uniform { lower, upper }
    }
}

impl Distribution for Uniform {
    open spec fn spec_sample(&self, seed: u64) -> i32 {
        seeded_draw(seed, self.low(), self.high())
    }

    /// A value of `[lower, upper]` that depends on `seed` alone.
    fn sample(&self, seed: u64) -> (r: i32)
        ensures
            self.low() <= r <= self.high(),
    {
        proof {
            use_type_invariant(self);
        }
        draw_seeded(seed, self.lower, self.upper)
    }
}

/// The distribution that always gives this value.
impl Distribution for i32 {
    open spec fn spec_sample(&self, seed: u64) -> i32 {
        *self
    }

    fn sample(&self, seed: u64) -> (r: i32) {
        *self
    }
}

/// What a token does to the turtle state when it is replayed.
#[derive(Debug, Clone, Copy)]
pub enum TurtleAction {
    /// Nothing.
    Nothing,
    /// Turns by the given number of degrees (positive is counterclockwise).
    Rotate(i32),
    /// Moves forward by the given number of units.
    Forward(i32),
    /// Turns by a sampled number of degrees.
    StochasticRotate(Uniform),
    /// Moves forward by a sampled number of units.
    StochasticForward(Uniform),
    /// Saves the turtle's position and heading, and the current angle.
    Push,
    /// Restores the last saved position, heading and angle; nothing when none is saved.
    Pop,
}

/// What a [`TurtleLSystemState`] holds.
pub struct StateModel {
    /// The turn accumulated so far, in degrees, `0..360`.
    pub angle: i32,
    /// The saved angles, last saved last.
    pub angle_stack: Seq<i32>,
    /// The turtle.
    pub turtle: SimpleModel,
    /// A fixed turn added to every heading, in degrees.
    pub rotate: i32,
    /// The seed of the next sample.
    pub seed: u64,
}

impl StateModel {
    /// The state after a forward move of `distance` units, facing `rotate + angle`.
    pub open spec fn forward_by(self, distance: int) -> StateModel {
        StateModel {
            turtle: self.turtle.with_heading(self.rotate + self.angle).forwarded(distance),
            ..self
        }
    }

    /// The state turned by `angle` degrees.
    pub open spec fn turned(self, angle: int) -> StateModel {
        StateModel { angle: normal_degrees(self.angle + angle) as i32, ..self }
    }
}

/// The state a [`TurtleRenderer`](crate::renderer::TurtleRenderer) built by
/// [`TurtleLSystemBuilder`] changes: an angle with its own stack, a turtle, a
/// global turn, and the seed of the next sample.
#[derive(Debug)]
pub struct TurtleLSystemState {
    angle: i32,
    angle_stack: Vec<i32>,
    turtle: SimpleTurtle,
    rotate: i32,
    seed: u64,
}

impl View for TurtleLSystemState {
    type V = StateModel;

    closed spec fn view(&self) -> StateModel {
        StateModel {
            angle: self.angle,
            angle_stack: self.angle_stack@,
            turtle: self.turtle@,
            rotate: self.rotate,
            seed: self.seed,
        }
    }
}

impl TurtleLSystemState {
    /// A state with no turn, no saved angle, a fresh turtle, no global turn and seed 0.
    pub fn new() -> (r: Self)
        ensures
            r@ == StateModel::initial(0, 0),
    {
        TurtleLSystemState::with_settings(0, 0)
    }

    /// A fresh state whose headings are turned by `rotate` degrees and whose
    /// samples start from `seed`.
    pub fn with_settings(rotate: i32, seed: u64) -> (r: Self)
        ensures
            r@ == StateModel::initial(rotate, seed),
    {
        TurtleLSystemState { angle: 0, angle_stack: Vec::new(), turtle: SimpleTurtle::new(), rotate, seed }
    }

    /// The turtle.
    pub fn turtle(&self) -> (r: &SimpleTurtle)
        ensures
            r@ == self@.turtle,
    {
        &self.turtle
    }
}

impl StateModel {
    /// A fresh state with global turn `rotate` and first seed `seed`.
    pub open spec fn initial(rotate: i32, seed: u64) -> StateModel {
        StateModel {
            angle: 0,
            angle_stack: Seq::empty(),
            turtle: SimpleModel { base: TurtleModel::origin(), heading: 90, stack: Seq::empty() },
            rotate,
            seed,
        }
    }
}

impl Default for TurtleLSystemState {
    fn default() -> (r: Self)
        ensures
            r@ == StateModel::initial(0, 0),
    {
        TurtleLSystemState::new()
    }
}

impl TurtleContainer for TurtleLSystemState {
    open spec fn turtle_of(v: StateModel) -> TurtleModel {
        v.turtle.base
    }

    fn inner(&self) -> (r: &BaseTurtle) {
        MovingTurtle::inner(&self.turtle)
    }
}

impl TurtleLSystemState {
    fn face_and_forward(&mut self, distance: i32)
        ensures
            final(self)@ == old(self)@.forward_by(distance as int),
    {
        let heading = crate::angle::normalize_degrees(self.rotate as i64 + self.angle as i64);
        self.turtle.set_heading(heading);
        self.turtle.forward(distance);
        assert(normal_degrees(heading as int) == heading);
    }
}

impl Mutator<TurtleLSystemState> for TurtleAction {
    open spec fn spec_apply(&self, s: StateModel) -> StateModel {
        match *self {
            TurtleAction::Nothing => s,
            TurtleAction::Rotate(a) => s.turned(a as int),
            TurtleAction::Forward(d) => s.forward_by(d as int),
            TurtleAction::StochasticRotate(u) => StateModel {
                seed: next_seed(s.seed),
                ..s.turned(u.spec_sample(s.seed) as int)
            },
            TurtleAction::StochasticForward(u) => StateModel {
                seed: next_seed(s.seed),
                ..s.forward_by(u.spec_sample(s.seed) as int)
            },
            TurtleAction::Push => StateModel {
                turtle: s.turtle.pushed(),
                angle_stack: s.angle_stack.push(s.angle),
                ..s
            },
            TurtleAction::Pop => if s.angle_stack.len() == 0 {
                StateModel { turtle: s.turtle.popped(), ..s }
            } else {
                StateModel {
                    turtle: s.turtle.popped(),
                    angle: s.angle_stack.last(),
                    angle_stack: s.angle_stack.drop_last(),
                    ..s
                }
            },
        }
    }

    fn apply(&self, state: &mut TurtleLSystemState) {
        match *self {
            TurtleAction::Nothing => {},
            TurtleAction::Rotate(a) => {
                state.angle = crate::angle::normalize_degrees(state.angle as i64 + a as i64);
            },
            TurtleAction::Forward(d) => {
                state.face_and_forward(d);
            },
            TurtleAction::StochasticRotate(u) => {
                let a = u.sample(state.seed);
                state.seed = advance_seed(state.seed);
                state.angle = crate::angle::normalize_degrees(state.angle as i64 + a as i64);
            },
            TurtleAction::StochasticForward(u) => {
                let d = u.sample(state.seed);
                state.seed = advance_seed(state.seed);
                state.face_and_forward(d);
            },
            TurtleAction::Push => {
                state.turtle.push();
                state.angle_stack.push(state.angle);
            },
            TurtleAction::Pop => {
                state.turtle.pop();
                match state.angle_stack.pop() {
                    Some(a) => {
                        state.angle = a;
                    },
                    None => {},
                }
            },
        }
    }
}

/// The groups of the leftmost match of `pattern` in `text` as regex's `Regex`
/// reports them (group 0 is the whole match), or `None` when there is no match
/// or the pattern does not compile.
pub uninterp spec fn regex_captures_of(pattern: Seq<char>, text: Seq<char>) -> Option<
    Seq<Option<Seq<char>>>,
>;

/// The text of each group, where it took part in the match.
pub open spec fn group_texts(groups: Seq<Option<String>>) -> Seq<Option<Seq<char>>> {
    groups.map_values(
        |g: Option<String>|
            match g {
                Some(t) => Some(t@),
                None => None,
            },
    )
}

/// Relies on regex's `Regex::new`, which compiles `pattern` or fails, and
/// `Regex::captures`, which returns the groups of the leftmost match; both depend
/// on their arguments alone.
#[verifier::external_body]
fn regex_captures(pattern: &str, text: &str) -> (r: Option<Vec<Option<String>>>)
    ensures
        r matches Some(g) ==> regex_captures_of(pattern@, text@) == Some(group_texts(g@)),
        r is None ==> regex_captures_of(pattern@, text@) is None,
{
    match regex::Regex::new(pattern) {
        Ok(re) => re.captures(text).map(|c| c.iter().map(|m| m.map(|m| m.as_str().to_string())).collect()),
        Err(_) => None,
    }
}

/// A rule text: a one-character name, `=>`, then the successor names separated
/// by whitespace, with whitespace allowed around each part.
pub const RULE_PATTERN: &'static str = "\\s*(\\w)\\s*=>\\s*((?:\\s*\\S+\\s*)*)\\s*";

/// The predecessor and successor texts of a rule, when the rule pattern matched
/// with both groups.
pub open spec fn rule_parts(rule: Seq<char>) -> Option<(Seq<char>, Seq<char>)> {
    match regex_captures_of(RULE_PATTERN@, rule) {
        Some(g) => if g.len() >= 3 && g[1] is Some && g[2] is Some {
            Some((g[1]->0, g[2]->0))
        } else {
            None
        },
        None => None,
    }
}

/// The ids of the last tokens named by each of `names`, or the first name that
/// names no token.
pub open spec fn lookup_all(tokens: Seq<Token>, names: Seq<Seq<char>>) -> Result<
    Seq<ArenaId>,
    Seq<char>,
>
    decreases names.len(),
{
    if names.len() == 0 {
        Ok(Seq::empty())
    } else {
        match lookup_all(tokens, names.drop_last()) {
            Err(w) => Err(w),
            Ok(ids) => match last_named(tokens, names.last()) {
                None => Err(names.last()),
                Some(id) => Ok(ids.push(id)),
            },
        }
    }
}

/// The rule that the texts `lhs` and `rhs` name, or the first unknown name:
/// `lhs` is one name, `rhs` names separated by whitespace.
pub open spec fn parsed_rule(tokens: Seq<Token>, lhs: Seq<char>, rhs: Seq<char>) -> Result<
    (ArenaId, Seq<ArenaId>),
    Seq<char>,
> {
    match last_named(tokens, lhs) {
        None => Err(lhs),
        Some(l) => match lookup_all(tokens, words(rhs)) {
            Err(w) => Err(w),
            Ok(ids) => Ok((l, ids)),
        },
    }
}

/// `id` is bound to an action in a compiled turtle grammar.
pub open spec fn acts(actions: Seq<TurtleAction>, id: usize) -> bool {
    id < actions.len() && !(actions[id as int] is Nothing)
}

/// The renderer that a turtle grammar compiles to: each token with an action
/// other than `Nothing` is bound to it and is its own alias.
pub open spec fn compiled_renderer(actions: Seq<TurtleAction>, rotate: i32, seed: u64) -> RendererModel<
    TurtleLSystemState,
    TurtleAction,
> {
    RendererModel {
        state: StateModel::initial(rotate, seed),
        actions: Map::new(|k: usize| acts(actions, k), |k: usize| actions[k as int]),
        aliases: Map::new(|k: usize| acts(actions, k), |k: usize| k),
    }
}

/// Builds a turtle-interpreted grammar: tokens carry actions, the start sequence
/// and rules are written as text.
#[derive(Debug, Clone)]
pub struct TurtleLSystemBuilder {
    builder: LSystemBuilder,
    actions: Vec<TurtleAction>,
    global_rotate: i32,
    seed: u64,
}

impl TurtleLSystemBuilder {
    /// The grammar built so far.
    pub closed spec fn grammar(&self) -> LSystemBuilder {
        self.builder
    }

    /// The action of each token, indexed by id.
    pub closed spec fn actions(&self) -> Seq<TurtleAction> {
        self.actions@
    }

    /// The global turn, in degrees.
    pub closed spec fn rotation(&self) -> i32 {
        self.global_rotate
    }

    /// The seed of the first sample.
    pub closed spec fn first_seed(&self) -> u64 {
        self.seed
    }

    /// The grammar is well formed and every token has one action.
    pub open spec fn wf(&self) -> bool {
        self.grammar().wf() && self.actions().len() == self.grammar().tokens().len()
    }

    /// `self` and `other` differ at most in their grammar's rules and start sequence.
    pub open spec fn same_tokens(&self, other: &TurtleLSystemBuilder) -> bool {
        &&& self.grammar().tokens() == other.grammar().tokens()
        &&& self.actions() == other.actions()
        &&& self.rotation() == other.rotation()
        &&& self.first_seed() == other.first_seed()
    }

    /// An empty builder with no global turn and seed 0.
    pub fn new() -> (r: Self)
        ensures
            r.wf(),
            r.grammar().tokens() == Seq::<Token>::empty(),
            r.grammar().start_ids() is None,
            r.grammar().rule_list() == Seq::<(ArenaId, Seq<ArenaId>)>::empty(),
            r.actions() == Seq::<TurtleAction>::empty(),
            r.rotation() == 0,
            r.first_seed() == 0,
    {
        TurtleLSystemBuilder { builder: LSystemBuilder::new(), actions: Vec::new(), global_rotate: 0, seed: 0 }
    }

    /// Sets the global turn added to every heading, in degrees.
    pub fn rotate(&mut self, angle: i32) -> (r: &mut Self)
        ensures
            r.grammar() == old(self).grammar(),
            r.actions() == old(self).actions(),
            r.first_seed() == old(self).first_seed(),
            r.rotation() == angle,
            *final(self) == *final(r),
    {
        self.global_rotate = angle;
        self
    }

    /// Sets the seed of the first sample drawn by stochastic actions.
    pub fn seed(&mut self, seed: u64) -> (r: &mut Self)
        ensures
            r.grammar() == old(self).grammar(),
            r.actions() == old(self).actions(),
            r.rotation() == old(self).rotation(),
            r.first_seed() == seed,
            *final(self) == *final(r),
    {
        self.seed = seed;
        self
    }

    /// Registers a token named `token` with `action`. Fails with
    /// [`LSystemError::InvalidToken`], changing nothing, when the name is empty or
    /// holds whitespace.
    pub fn token(&mut self, token: &str, action: TurtleAction) -> (r: Result<&mut Self, LSystemError>)
        requires
            old(self).wf(),
        ensures
            valid_token_name(token@) <==> r is Ok,
            r matches Ok(b) ==> {
                &&& b.wf()
                &&& b.grammar().tokens().len() == old(self).grammar().tokens().len() + 1
                &&& b.grammar().tokens().drop_last() == old(self).grammar().tokens()
                &&& b.grammar().tokens().last()@ == token@
                &&& b.grammar().start_ids() == old(self).grammar().start_ids()
                &&& b.grammar().rule_list() == old(self).grammar().rule_list()
                &&& b.actions() == old(self).actions().push(action)
                &&& b.rotation() == old(self).rotation()
                &&& b.first_seed() == old(self).first_seed()
            },
            r is Ok ==> *final(self) == *final(r->Ok_0),
            r is Err ==> *final(self) == *old(self) && (r->Err_0 matches LSystemError::InvalidToken(s) && s@ == token@),
    {
        match self.builder.token(token) {
            Ok(_) => {
                self.actions.push(action);
                Ok(self)
            },
            Err(e) => Err(e),
        }
    }

    /// The id of the last token named `token`; fails with
    /// [`LSystemError::UnknownToken`] when no token has that name.
    fn get_token(&self, token: &str) -> (r: Result<ArenaId, LSystemError>)
        ensures
            r matches Ok(id) ==> last_named(self.grammar().tokens(), token@) == Some(id)
                && id.0 < self.grammar().tokens().len(),
            r is Err ==> last_named(self.grammar().tokens(), token@) is None && (r->Err_0 matches LSystemError::UnknownToken(s) && s@ == token@),
    {
        match self.builder.last_token_named(token) {
            Some(id) => Ok(id),
            None => Err(LSystemError::UnknownToken(String::from_str(token))),
        }
    }

    /// The ids of the last tokens named by each of `names`, or the first unknown name.
    fn get_tokens(&self, names: &Vec<String>) -> (r: Result<Vec<ArenaId>, LSystemError>)
        ensures
            lookup_all(self.grammar().tokens(), names@.map_values(|w: String| w@)) is Ok <==> r is Ok,
            r matches Ok(ids) ==> lookup_all(self.grammar().tokens(), names@.map_values(|w: String| w@))
                == Ok::<Seq<ArenaId>, Seq<char>>(ids@) && self.grammar().valid_ids(ids@),
            r is Err ==> (lookup_all(self.grammar().tokens(), names@.map_values(|w: String| w@)) matches Err(w)
                && (r->Err_0 matches LSystemError::UnknownToken(s) && s@ == w)),
    {
        let ghost tokens = self.grammar().tokens();
        let ghost all = names@.map_values(|w: String| w@);
        let mut ids: Vec<ArenaId> = Vec::new();
        let mut i: usize = 0;
        while i < names.len()
            invariant
                tokens == self.grammar().tokens(),
                all == names@.map_values(|w: String| w@),
                i <= names@.len(),
                lookup_all(tokens, all.take(i as int)) == Ok::<Seq<ArenaId>, Seq<char>>(ids@),
                self.grammar().valid_ids(ids@),
            decreases names@.len() - i,
        {
            assert(all.take(i + 1).drop_last() =~= all.take(i as int));
            assert(all.take(i + 1).last() == names@[i as int]@);
            match self.get_token(names[i].as_str()) {
                Ok(id) => {
                    ids.push(id);
                },
                Err(e) => {
                    proof {
                        lemma_lookup_all_err(tokens, all, i as int);
                    }
                    return Err(e);
                },
            }
            i = i + 1;
        }
        assert(all.take(i as int) =~= all);
        Ok(ids)
    }

    /// Sets the start sequence to the tokens named by the whitespace-separated
    /// words of `ident` (the last token of each name). Fails with
    /// [`LSystemError::UnknownToken`] naming the first unknown word, changing nothing.
    pub fn start(&mut self, ident: &str) -> (r: Result<&mut Self, LSystemError>)
        requires
            old(self).wf(),
            words(ident@).len() > 0,
        ensures
            lookup_all(old(self).grammar().tokens(), words(ident@)) is Ok <==> r is Ok,
            r matches Ok(b) ==> {
                &&& b.wf()
                &&& b.same_tokens(old(self))
                &&& b.grammar().rule_list() == old(self).grammar().rule_list()
                &&& Some(lookup_all(old(self).grammar().tokens(), words(ident@))->Ok_0) == b.grammar().start_ids()
            },
            r is Ok ==> *final(self) == *final(r->Ok_0),
            r is Err ==> *final(self) == *old(self),
            r is Err ==> (lookup_all(old(self).grammar().tokens(), words(ident@)) matches Err(w)
                && (r->Err_0 matches LSystemError::UnknownToken(s) && s@ == w)),
    {
        let parts = split_whitespace(ident);
        let ids = match self.get_tokens(&parts) {
            Ok(ids) => ids,
            Err(e) => {
                return Err(e);
            },
        };
        match self.builder.start(ids) {
            Ok(()) => {},
            Err(e) => {
                return Err(e);
            },
        }
        Ok(self)
    }

    /// Adds the rule whose predecessor is the last token named `lhs` and whose
    /// successor is the tokens named by the whitespace-separated words of `rhs`.
    /// Fails with [`LSystemError::UnknownToken`] naming the first unknown name
    /// (`lhs` first), changing nothing.
    pub fn rule_from_parts(&mut self, lhs: &str, rhs: &str) -> (r: Result<&mut Self, LSystemError>)
        requires
            old(self).wf(),
        ensures
            parsed_rule(old(self).grammar().tokens(), lhs@, rhs@) is Ok <==> r is Ok,
            r matches Ok(b) ==> {
                &&& b.wf()
                &&& b.same_tokens(old(self))
                &&& b.grammar().start_ids() == old(self).grammar().start_ids()
                &&& b.grammar().rule_list() == old(self).grammar().rule_list().push(
                    parsed_rule(old(self).grammar().tokens(), lhs@, rhs@)->Ok_0,
                )
            },
            r is Ok ==> *final(self) == *final(r->Ok_0),
            r is Err ==> *final(self) == *old(self),
            r is Err ==> (parsed_rule(old(self).grammar().tokens(), lhs@, rhs@) matches Err(w)
                && (r->Err_0 matches LSystemError::UnknownToken(s) && s@ == w)),
    {
        let l = match self.get_token(lhs) {
            Ok(id) => id,
            Err(e) => {
                return Err(e);
            },
        };
        let parts = split_whitespace(rhs);
        let ids = match self.get_tokens(&parts) {
            Ok(ids) => ids,
            Err(e) => {
                return Err(e);
            },
        };
        match self.builder.transformation_rule(l, ids) {
            Ok(()) => {},
            Err(e) => {
                return Err(e);
            },
        }
        Ok(self)
    }

    /// Adds a rule written `X => A B C`: a one-character predecessor name, `=>`,
    /// and the successor names separated by whitespace. Fails with
    /// [`LSystemError::InvalidRule`] when the text does not have that form, and
    /// otherwise as [`TurtleLSystemBuilder::rule_from_parts`]; changes nothing on failure.
    pub fn rule(&mut self, rule: &str) -> (r: Result<&mut Self, LSystemError>)
        requires
            old(self).wf(),
        ensures
            rule_parts(rule@) is None ==> *final(self) == *old(self) && (r matches Err(e) && (e matches LSystemError::InvalidRule(s) && s@ == rule@)),
            rule_parts(rule@) matches Some((lhs, rhs)) ==> {
                &&& parsed_rule(old(self).grammar().tokens(), lhs, rhs) is Ok <==> r is Ok
                &&& r matches Ok(b) ==> {
                    &&& b.wf()
                    &&& b.same_tokens(old(self))
                    &&& b.grammar().start_ids() == old(self).grammar().start_ids()
                    &&& b.grammar().rule_list() == old(self).grammar().rule_list().push(
                        parsed_rule(old(self).grammar().tokens(), lhs, rhs)->Ok_0,
                    )
                }
                &&& r is Err ==> *final(self) == *old(self)
                &&& r is Err ==> (parsed_rule(old(self).grammar().tokens(), lhs, rhs) matches Err(w)
                    && (r->Err_0 matches LSystemError::UnknownToken(s) && s@ == w))
            },
            r is Ok ==> *final(self) == *final(r->Ok_0),
    {
        match regex_captures(RULE_PATTERN, rule) {
            Some(groups) => {
                if groups.len() >= 3 {
                    assert(group_texts(groups@)[1] == match groups@[1] { Some(t) => Some(t@), None => None::<Seq<char>> });
                    assert(group_texts(groups@)[2] == match groups@[2] { Some(t) => Some(t@), None => None::<Seq<char>> });
                    match (&groups[1], &groups[2]) {
                        (Some(lhs), Some(rhs)) => {
                            return self.rule_from_parts(lhs.as_str(), rhs.as_str());
                        },
                        _ => {},
                    }
                }
            },
            None => {},
        }
        Err(LSystemError::InvalidRule(String::from_str(rule)))
    }

    /// Consumes the builder, returning the compiled system and a renderer that
    /// binds each token's action (other than `Nothing`) to it. Fails with
    /// [`LSystemError::MissingStart`] when no start sequence was set.
    pub fn finish(self) -> (r: Result<(LSystem, TurtleRenderer<TurtleLSystemState, TurtleAction>), LSystemError>)
        requires
            self.wf(),
        ensures
            self.grammar().start_ids() is None <==> r is Err,
            r is Err ==> r->Err_0 == LSystemError::MissingStart,
            r matches Ok((s, renderer)) ==> {
                &&& s.wf()
                &&& s.tokens() == self.grammar().tokens()
                &&& s.start_ids() == self.grammar().start_ids()->0
                &&& s.rule_table() == compile_rules(self.grammar().rule_list(), self.grammar().tokens().len())
                &&& s.state() == s.start_ids()
                &&& s.step_count() == 0
                &&& renderer@ == compiled_renderer(self.actions(), self.rotation(), self.first_seed())
                &&& renderer@.wf()
            },
    {
        let ghost all = self.actions@;
        let mut renderer: TurtleRenderer<TurtleLSystemState, TurtleAction> = TurtleRenderer::new(
            TurtleLSystemState::with_settings(self.global_rotate, self.seed),
        );
        let mut actions = self.actions;
        while actions.len() > 0
            invariant
                actions@ == all.take(actions@.len() as int),
                actions@.len() <= all.len(),
                renderer@.state == StateModel::initial(self.global_rotate, self.seed),
                renderer@.actions == Map::new(
                    |k: usize| actions@.len() <= k && acts(all, k),
                    |k: usize| all[k as int],
                ),
                renderer@.aliases == Map::new(|k: usize| actions@.len() <= k && acts(all, k), |k: usize| k),
            decreases actions@.len(),
        {
            let i = actions.len() - 1;
            match actions.pop() {
                Some(action) => {
                    assert(action == all[i as int]);
                    match action {
                        TurtleAction::Nothing => {},
                        _ => {
                            renderer.register(ArenaId(i), action);
                        },
                    }
                },
                None => {},
            }
            assert(actions@ =~= all.take(i as int));
            assert(renderer@.actions =~= Map::new(
                |k: usize| i <= k && acts(all, k),
                |k: usize| all[k as int],
            ));
            assert(renderer@.aliases =~= Map::new(|k: usize| i <= k && acts(all, k), |k: usize| k));
        }
        assert(renderer@.actions =~= compiled_renderer(all, self.global_rotate, self.seed).actions);
        assert(renderer@.aliases =~= compiled_renderer(all, self.global_rotate, self.seed).aliases);
        match self.builder.finish() {
            Ok(system) => Ok((system, renderer)),
            Err(e) => Err(e),
        }
    }
}

/// A lookup that fails at name `i` fails for the whole list, naming the first
/// unknown name.
proof fn lemma_lookup_all_err(tokens: Seq<Token>, names: Seq<Seq<char>>, i: int)
    requires
        0 <= i < names.len(),
        lookup_all(tokens, names.take(i)) is Ok,
        last_named(tokens, names[i]) is None,
    ensures
        lookup_all(tokens, names) == Err::<Seq<ArenaId>, Seq<char>>(names[i]),
    decreases names.len() - i,
{
    assert(names.take(i + 1).drop_last() =~= names.take(i));
    if i + 1 < names.len() {
        lemma_lookup_all_err_extend(tokens, names, i + 1, names[i]);
    } else {
        assert(names.take(i + 1) =~= names);
    }
}

/// Once a prefix of the list fails, every longer prefix fails the same way.
proof fn lemma_lookup_all_err_extend(tokens: Seq<Token>, names: Seq<Seq<char>>, k: int, w: Seq<char>)
    requires
        0 <= k <= names.len(),
        lookup_all(tokens, names.take(k)) == Err::<Seq<ArenaId>, Seq<char>>(w),
    ensures
        lookup_all(tokens, names) == Err::<Seq<ArenaId>, Seq<char>>(w),
    decreases names.len() - k,
{
    if k < names.len() {
        assert(names.take(k + 1).drop_last() =~= names.take(k));
        lemma_lookup_all_err_extend(tokens, names, k + 1, w);
    } else {
        assert(names.take(k) =~= names);
    }
}

impl Default for TurtleLSystemBuilder {
    fn default() -> (r: Self)
        ensures
            r.wf(),
            r.actions() == Seq::<TurtleAction>::empty(),
    {
        TurtleLSystemBuilder::new()
    }
}

} // verus!
