//! The state-machine compiler: states and guarded transitions in, a state
//! register and its next-state logic out.
use vstd::prelude::*;
use crate::ast::{blank_signal, chain_ok, chain_open, Arm, Ast, IOType, Signal};
use crate::builder::{name_of, name_text, Operand};
use crate::error::ModelError;
use crate::expr::{arms_of, asts, clone_arms, clone_expr, IfElseAST, E};
use crate::render::{arm_head, arm_text, arm_texts, body_text, chain_text, emit_chain, text};
use crate::signal::WireVar;
use crate::text::{
    concat, lemma_concat_layout, lemma_concat_push, lemma_starts_ordered, pad, same_text,
    start_of,
};

verus! {

/// One state of a machine: the expression that identifies it, and its
/// transitions as a branch chain, in the order in which they were given.
pub struct StateModel {
    pub state: Ast,
    pub branch: Seq<Arm>,
}

/// A state machine.
pub struct Machine {
    pub clk: Ast,
    pub rst: Ast,
    pub state_reg: Signal,
    /// The states in the order in which they were added. The first one is
    /// the state after reset.
    pub states: Seq<StateModel>,
    /// The place that `goto` and `from` work from.
    pub current: int,
}

/// The name of a state; `Nothing` where the state is not identified by an
/// identifier.
pub open spec fn state_name(s: StateModel) -> Seq<char> {
    match s.state {
        Ast::Ident(sig) => sig.name,
        _ => "Nothing"@,
    }
}

/// The value that encodes the state at the given place: the place itself,
/// counted from zero. Values are 32-bit and stay at the largest one.
pub open spec fn encoded(index: int) -> int {
    if index <= i32::MAX {
        index
    } else {
        i32::MAX as int
    }
}

/// The parameter that identifies a state.
pub open spec fn state_signal(name: Seq<char>, value: int) -> Signal {
    Signal { name: name, value: value, role: IOType::Param, ..blank_signal() }
}

/// The register that holds the state.
pub open spec fn state_register(name: Seq<char>) -> Signal {
    Signal { name: name, width: 32, registered: true, ..blank_signal() }
}

/// The shadow register that holds the next state, as a transition names
/// it.
pub open spec fn next_signal(reg: Seq<char>) -> Signal {
    Signal { name: reg + "_Next"@, registered: true, ..blank_signal() }
}

/// The entry of a branch chain that a transition makes: under the guard,
/// the shadow register takes the target state. A guard of `Ast::Null`
/// makes the transition unconditional.
pub open spec fn transition_arm(reg: Seq<char>, guard: Ast, target: Seq<char>) -> Arm {
    Arm {
        is_if: !(guard is Null),
        cond: guard,
        body: seq![
            Ast::Assign(
                Box::new(Ast::Ident(next_signal(reg))),
                Box::new(Ast::Ident(state_signal(target, 0))),
            ),
        ],
    }
}

/// A state with one more transition. Nothing can follow an unconditional
/// transition.
pub open spec fn with_transition(s: StateModel, arm: Arm) -> Result<StateModel, ModelError> {
    if chain_open(s.branch) {
        Ok(StateModel { branch: s.branch.push(arm), ..s })
    } else {
        Err(ModelError::ChainClosed)
    }
}

/// The transitions of a state keep their rule: an entry is unconditional
/// exactly if it has no guard, and only the last entry can be.
pub open spec fn state_ok(s: StateModel) -> bool {
    &&& chain_ok(s.branch)
    &&& forall|k: int| 0 <= k < s.branch.len() ==> ((#[trigger] s.branch[k]).is_if <==> !(
    s.branch[k].cond is Null))
}

/// The state is identified by a parameter that carries the value of the
/// place `i`.
pub open spec fn state_encoded(s: StateModel, i: int) -> bool {
    s.state matches Ast::Ident(sig) && sig.role == IOType::Param && sig.value == encoded(i)
}

/// Every state of the machine is identified by the parameter that encodes
/// its place, and keeps the rule of its transitions.
pub open spec fn machine_ok(m: Machine) -> bool {
    forall|i: int|
        0 <= i < m.states.len() ==> state_ok(#[trigger] m.states[i]) && state_encoded(
            m.states[i],
            i,
        )
}

/// The place of the first state of the given name from `from` on; the
/// number of states where there is none.
pub open spec fn first_place(states: Seq<StateModel>, name: Seq<char>, from: int) -> int
    decreases states.len() - from,
{
    if from < 0 || from >= states.len() {
        states.len() as int
    } else if state_name(states[from]) == name {
        from
    } else {
        first_place(states, name, from + 1)
    }
}

/// The machine after `goto`: the state at the current place has one more
/// transition.
pub open spec fn after_goto(m: Machine, arm: Arm) -> Result<Machine, ModelError> {
    if 0 <= m.current < m.states.len() {
        match with_transition(m.states[m.current], arm) {
            Ok(s) => Ok(Machine { states: m.states.update(m.current, s), ..m }),
            Err(e) => Err(e),
        }
    } else {
        Err(ModelError::NoCurrentState)
    }
}

/// Whether some state of the given name can take no more transitions.
pub open spec fn some_closed(states: Seq<StateModel>, name: Seq<char>) -> bool {
    exists|i: int|
        0 <= i < states.len() && state_name(#[trigger] states[i]) == name && !chain_open(
            states[i].branch,
        )
}

/// The states after `from`: every state of the given name has one more
/// transition.
pub open spec fn states_from(states: Seq<StateModel>, name: Seq<char>, arm: Arm) -> Seq<
    StateModel,
> {
    Seq::new(
        states.len(),
        |i: int|
            if state_name(states[i]) == name {
                StateModel { branch: states[i].branch.push(arm), ..states[i] }
            } else {
                states[i]
            },
    )
}

/// The machine after `from(name, guard)`: every state of the given name
/// has one more transition, to the state before the current place.
pub open spec fn after_from(m: Machine, name: Seq<char>, guard: Ast) -> Result<
    Machine,
    ModelError,
> {
    if 1 <= m.current <= m.states.len() {
        if some_closed(m.states, name) {
            Err(ModelError::ChainClosed)
        } else {
            Ok(
                Machine {
                    states: states_from(
                        m.states,
                        name,
                        transition_arm(
                            m.state_reg.name,
                            guard,
                            state_name(m.states[m.current - 1]),
                        ),
                    ),
                    ..m
                },
            )
        }
    } else {
        Err(ModelError::NoCurrentState)
    }
}

/// The place after the last state of the given name, counted from zero, or
/// `fallback` where no state has that name.
pub open spec fn place_after(states: Seq<StateModel>, name: Seq<char>, fallback: int) -> int
    decreases states.len(),
{
    if states.len() == 0 {
        fallback
    } else if state_name(states.last()) == name {
        states.len() as int
    } else {
        place_after(states.drop_last(), name, fallback)
    }
}

/// The expression that identifies the first state of the given name;
/// nothing where no state has that name.
pub open spec fn find_state(states: Seq<StateModel>, name: Seq<char>) -> Ast
    decreases states.len(),
{
    if states.len() == 0 {
        Ast::Null
    } else if state_name(states[0]) == name {
        states[0].state
    } else {
        find_state(states.drop_first(), name)
    }
}

/// The clause of the next-state case statement for one state: its
/// transitions as a branch chain, in their order, five levels in.
pub open spec fn state_text(s: StateModel) -> Seq<char> {
    "                "@ + state_name(s) + " : begin\n"@ + chain_text(s.branch, false, 5)
        + "                end\n"@
}

/// The clauses of the next-state case statement, one for each state.
pub open spec fn state_texts(states: Seq<StateModel>) -> Seq<Seq<char>> {
    Seq::new(states.len(), |i: int| state_text(states[i]))
}

/// The process that updates the state register: the first state on reset,
/// the shadow register otherwise.
pub open spec fn register_update_text(m: Machine) -> Seq<char> {
    let clk = name_of(m.clk);
    let rst = name_of(m.rst);
    let reg = m.state_reg.name;
    let init = name_of(m.states[0].state);
    "    always @(posedge "@ + clk + " or posedge "@ + rst + ") begin\n"@ + "        if ("@ + rst
        + " == 1) begin \n            "@ + reg + " <= "@ + init + "; \n        end\n"@
        + "        else begin \n            "@ + reg + " <= "@ + reg
        + "_Next; \n        end \n    end \n\n"@
}

/// The lines that open the next-state computation, down to the selector of
/// its case statement.
pub open spec fn next_state_head(m: Machine) -> Seq<char> {
    let clk = name_of(m.clk);
    let rst = name_of(m.rst);
    let reg = m.state_reg.name;
    let init = name_of(m.states[0].state);
    "    always@(posedge "@ + clk + ") begin\n"@ + "        if ("@ + rst + ") "@ + reg
        + "_Next <= "@ + init + ";\n"@ + "        else begin\n"@ + "            case("@ + reg
        + ")\n"@
}

/// The process that computes the next state: the first state on reset,
/// otherwise a case statement on the state register with one clause for
/// each state, in the order in which the states were added.
pub open spec fn next_state_text(m: Machine) -> Seq<char> {
    next_state_head(m) + concat(state_texts(m.states))
        + "            endcase \n        end\n    end\n\n"@
}

/// The text of a state machine: the register update, then the next-state
/// computation.
pub open spec fn machine_text(m: Machine) -> Seq<char> {
    register_update_text(m) + next_state_text(m)
}

/// One state of a machine.
#[derive(Debug)]
pub struct StateModule {
    pub(crate) state: Box<E>,
    pub(crate) branch: Vec<IfElseAST>,
}

impl View for StateModule {
    type V = StateModel;

    open(crate) spec fn view(&self) -> StateModel {
        StateModel { state: self.state@, branch: arms_of(self.branch@) }
    }
}

impl Clone for StateModule {
    fn clone(&self) -> (r: Self)
        ensures
            r@ == self@,
    {
        StateModule { state: Box::new(clone_expr(&self.state)), branch: clone_arms(&self.branch) }
    }
}

/// The states that a list of state values stands for.
pub open spec fn state_views(list: Seq<StateModule>) -> Seq<StateModel> {
    list.map_values(|s: StateModule| s@)
}

impl StateModule {
    /// Sets the expression that identifies the state.
    pub fn set_state(&mut self, stmt: Box<E>)
        ensures
            final(self)@ == (StateModel { state: stmt@, ..old(self)@ }),
    {
        self.state = stmt;
    }

    /// Whether the state can take one more transition.
    pub fn can_branch(&self) -> (r: bool)
        ensures
            r == chain_open(self@.branch),
    {
        crate::stmt::is_open(&self.branch)
    }

    /// Adds a transition: under the guard `terms` the statement `form` is
    /// carried out. A guard of nothing makes the transition
    /// unconditional. Fails, and changes nothing, where the state has an
    /// unconditional transition already.
    pub fn set_branch<T: Operand, U: Operand>(&mut self, terms: T, form: U) -> (r: Result<
        (),
        ModelError,
    >)
        ensures
            match with_transition(
                old(self)@,
                Arm { is_if: !(terms.ast() is Null), cond: terms.ast(), body: seq![form.ast()] },
            ) {
                Ok(s) => r is Ok && final(self)@ == s,
                Err(e) => r is Err && r->Err_0 == e && final(self)@ == old(self)@,
            },
    {
        if !self.can_branch() {
            return Err(ModelError::ChainClosed);
        }
        let cond = terms.expr();
        let guarded = if let E::Null = *cond {
            false
        } else {
            true
        };
        let mut body: Vec<Box<E>> = Vec::new();
        body.push(form.expr());
        assert(asts(body@) =~= seq![form.ast()]);
        let ghost before = arms_of(self.branch@);
        let arm = IfElseAST { if_: guarded, cond: cond, stmt: body };
        self.branch.push(arm);
        assert(arms_of(self.branch@) =~= before.push(arm@));
        Ok(())
    }

    /// The expression that identifies the state.
    pub fn getState(&self) -> (r: Box<E>)
        ensures
            r@ == self@.state,
    {
        Box::new(clone_expr(&self.state))
    }

    /// The name of the state.
    pub fn getStateName(&self) -> (r: String)
        ensures
            r@ == state_name(self@),
    {
        match &*self.state {
            E::Ldc(b) => b.name.clone(),
            _ => String::from_str("Nothing"),
        }
    }

    /// The transitions of the state, as a branch chain.
    pub fn getBranch(&self) -> (r: Vec<IfElseAST>)
        ensures
            arms_of(r@) == self@.branch,
    {
        clone_arms(&self.branch)
    }

    /// The clause of the next-state case statement for this state.
    pub fn print(&self) -> (r: String)
        ensures
            r@ == state_text(self@),
    {
        let mut st = String::from_str("                ");
        let name = self.getStateName();
        st.append(name.as_str());
        st.append(" : begin\n");
        let chain = emit_chain(&self.branch, false, 5);
        st.append(chain.as_str());
        st.append("                end\n");
        st
    }
}

/// A state machine under construction.
#[derive(Debug)]
pub struct FsmModule {
    pub(crate) clk: Box<E>,
    pub(crate) rst: Box<E>,
    pub(crate) state_reg: WireVar,
    pub(crate) states: Vec<StateModule>,
    pub(crate) Current_state: usize,
}

impl View for FsmModule {
    type V = Machine;

    open(crate) spec fn view(&self) -> Machine {
        Machine {
            clk: self.clk@,
            rst: self.rst@,
            state_reg: self.state_reg@,
            states: state_views(self.states@),
            current: self.Current_state as int,
        }
    }
}

impl Clone for FsmModule {
    fn clone(&self) -> (r: Self)
        ensures
            r@ == self@,
    {
        let states = self.states.clone();
        assert(state_views(states@) =~= state_views(self.states@));
        FsmModule {
            clk: Box::new(clone_expr(&self.clk)),
            rst: Box::new(clone_expr(&self.rst)),
            state_reg: self.state_reg.clone(),
            states: states,
            Current_state: self.Current_state,
        }
    }
}

fn transition<T: Operand>(reg: &WireVar, guard: T, target: &str) -> (r: IfElseAST)
    ensures
        r@ == transition_arm(reg@.name, guard.ast(), target@),
{
    let mut next_name = reg.name.clone();
    next_name.append("_Next");
    let mut next = WireVar::new();
    let next_expr = next.reg(next_name.as_str(), 0);
    let mut goal = WireVar::new();
    let goal_expr = goal.parameter(target, 0);
    let step = Box::new(E::SB(next_expr, goal_expr));
    let cond = guard.expr();
    let guarded = if let E::Null = *cond {
        false
    } else {
        true
    };
    let mut body: Vec<Box<E>> = Vec::new();
    body.push(step);
    assert(asts(body@) =~= seq![step@]);
    IfElseAST { if_: guarded, cond: cond, stmt: body }
}

impl FsmModule {
    /// A machine without states, with a state register of the given name.
    pub fn new<T: Operand, U: Operand>(clk: T, rst: U, state: &str) -> (r: FsmModule)
        ensures
            r@ == (Machine {
                clk: clk.ast(),
                rst: rst.ast(),
                state_reg: state_register(state@),
                states: Seq::empty(),
                current: 0,
            }),
            machine_ok(r@),
    {
        let mut reg = WireVar::new();
        let _ = reg.reg(state, 32);
        let r = FsmModule {
            clk: clk.expr(),
            rst: rst.expr(),
            state_reg: reg,
            states: Vec::new(),
            Current_state: 0,
        };
        assert(state_views(r.states@) =~= Seq::empty());
        r
    }

    /// Whether the machine has at least one state.
    pub fn has_states(&self) -> (r: bool)
        ensures
            r == (self@.states.len() > 0),
    {
        self.states.len() > 0
    }

    /// The expression that identifies the state after reset: the first
    /// state.
    pub fn init_state(&self) -> (r: Box<E>)
        requires
            self@.states.len() > 0,
        ensures
            r@ == self@.states[0].state,
    {
        self.states[0].getState()
    }

    /// Gives the state register another name.
    pub fn State(self, set_state: &str) -> (r: FsmModule)
        ensures
            r@ == (Machine { state_reg: state_register(set_state@), ..self@ }),
            machine_ok(self@) ==> machine_ok(r@),
    {
        let mut me = self;
        let mut reg = WireVar::new();
        let _ = reg.reg(set_state, 32);
        me.state_reg = reg;
        me
    }

    /// Adds a state and makes it the current one. The state is encoded by
    /// its place, counted from zero.
    pub fn AddState(&mut self, name: &str) -> (r: FsmModule)
        ensures
            final(self)@ == (Machine {
                states: old(self)@.states.push(
                    StateModel {
                        state: Ast::Ident(
                            state_signal(name@, encoded(old(self)@.states.len() as int)),
                        ),
                        branch: Seq::empty(),
                    },
                ),
                current: old(self)@.states.len() as int,
                ..old(self)@
            }),
            r@ == final(self)@,
            machine_ok(old(self)@) ==> machine_ok(final(self)@),
    {
        let at = self.states.len();
        let value: i32 = if at <= i32::MAX as usize {
            at as i32
        } else {
            i32::MAX
        };
        let mut p = WireVar::new();
        let state = p.parameter(name, value);
        self.Current_state = at;
        let tmp = StateModule { state: state, branch: Vec::new() };
        assert(arms_of(tmp.branch@) =~= Seq::empty());
        let ghost before = state_views(self.states@);
        self.states.push(tmp);
        assert(state_views(self.states@) =~= before.push(tmp@));
        proof {
            if machine_ok(old(self)@) {
                assert forall|i: int| 0 <= i < self@.states.len() implies state_ok(
                    #[trigger] self@.states[i],
                ) && state_encoded(self@.states[i], i) by {
                    if i < before.len() {
                        assert(self@.states[i] == before[i]);
                    }
                }
            }
        }
        self.clone()
    }

    /// Moves the current place to the one after the last state of the
    /// given name; it stays where no state has that name.
    pub fn Current(&mut self, name: &str) -> (r: FsmModule)
        ensures
            final(self)@ == (Machine {
                current: place_after(old(self)@.states, name@, old(self)@.current),
                ..old(self)@
            }),
            r@ == final(self)@,
            machine_ok(old(self)@) ==> machine_ok(final(self)@),
    {
        let mut count: usize = 0;
        let ghost start = self.Current_state as int;
        let ghost all = state_views(self.states@);
        assert(all.take(0) =~= Seq::<StateModel>::empty());
        while count < self.states.len()
            invariant
                count <= self.states.len(),
                self.clk == old(self).clk,
                self.rst == old(self).rst,
                self.state_reg == old(self).state_reg,
                self.states == old(self).states,
                all == state_views(self.states@),
                self.Current_state as int == place_after(
                    all.take(count as int),
                    name@,
                    start,
                ),
            decreases self.states.len() - count,
        {
            let label = self.states[count].getStateName();
            assert(all.take(count + 1).drop_last() =~= all.take(count as int));
            assert(all.take(count + 1).last() == self.states@[count as int]@);
            count = count + 1;
            if same_text(label.as_str(), name) {
                self.Current_state = count;
            }
        }
        assert(all.take(count as int) =~= all);
        self.clone()
    }

    /// Adds a transition from the state at the current place to the state
    /// of the given name, under the guard `branch`; a guard of nothing
    /// makes the transition unconditional. Fails, and changes nothing,
    /// where there is no state at the current place or where that state
    /// has an unconditional transition already.
    pub fn goto<T: Operand>(&mut self, name: &str, branch: T) -> (r: Result<
        FsmModule,
        ModelError,
    >)
        ensures
            match after_goto(
                old(self)@,
                transition_arm(old(self)@.state_reg.name, branch.ast(), name@),
            ) {
                Ok(m) => r is Ok && final(self)@ == m && r->Ok_0@ == m,
                Err(e) => r is Err && r->Err_0 == e && final(self)@ == old(self)@,
            },
            machine_ok(old(self)@) ==> machine_ok(final(self)@),
    {
        let at = self.Current_state;
        if at >= self.states.len() {
            return Err(ModelError::NoCurrentState);
        }
        assert(state_views(self.states@)[at as int] == self.states@[at as int]@);
        if !self.states[at].can_branch() {
            return Err(ModelError::ChainClosed);
        }
        let arm = transition(&self.state_reg, branch, name);
        let mut state = self.states[at].clone();
        let ghost before = arms_of(state.branch@);
        state.branch.push(arm);
        assert(arms_of(state.branch@) =~= before.push(arm@));
        let ghost old_states = state_views(self.states@);
        self.states.set(at, state);
        assert(state_views(self.states@) =~= old_states.update(at as int, state@));
        proof {
            if machine_ok(old(self)@) {
                assert forall|i: int| 0 <= i < self@.states.len() implies state_ok(
                    #[trigger] self@.states[i],
                ) && state_encoded(self@.states[i], i) by {
                    assert(state_encoded(old_states[i], i));
                    if i == at {
                        lemma_transition_keeps_rule(old_states[at as int], arm@);
                    } else {
                        assert(self@.states[i] == old_states[i]);
                    }
                }
            }
        }
        Ok(self.clone())
    }

    /// Adds, to every state of the given name, a transition to the state
    /// before the current place, under the guard `branch`. Fails, and
    /// changes nothing, where there is no state before the current place,
    /// or where a state of the given name has an unconditional transition
    /// already.
    pub fn from<T: Operand>(&mut self, name: &str, branch: T) -> (r: Result<
        FsmModule,
        ModelError,
    >)
        ensures
            match after_from(old(self)@, name@, branch.ast()) {
                Ok(m) => r is Ok && final(self)@ == m && r->Ok_0@ == m,
                Err(e) => r is Err && r->Err_0 == e && final(self)@ == old(self)@,
            },
            machine_ok(old(self)@) ==> machine_ok(final(self)@),
    {
        let at = self.Current_state;
        if at < 1 || at > self.states.len() {
            return Err(ModelError::NoCurrentState);
        }
        let ghost all = state_views(self.states@);
        let mut i: usize = 0;
        while i < self.states.len()
            invariant
                i <= self.states.len(),
                all == state_views(self.states@),
                *self == *old(self),
                at == self.Current_state,
                1 <= at <= self.states.len(),
                forall|k: int|
                    0 <= k < i && state_name(#[trigger] all[k]) == name@ ==> chain_open(
                        all[k].branch,
                    ),
            decreases self.states.len() - i,
        {
            assert(all[i as int] == self.states@[i as int]@);
            let label = self.states[i].getStateName();
            if same_text(label.as_str(), name) && !self.states[i].can_branch() {
                assert(some_closed(all, name@));
                return Err(ModelError::ChainClosed);
            }
            i = i + 1;
        }
        assert(!some_closed(all, name@));
        assert(all[at - 1] == self.states@[at - 1]@);
        let target = self.states[at - 1].getStateName();
        let guard = branch.expr();
        let ghost arm = transition_arm(self@.state_reg.name, branch.ast(), target@);
        let ghost goal = states_from(all, name@, arm);
        let mut j: usize = 0;
        while j < self.states.len()
            invariant
                j <= self.states.len(),
                self.states@.len() == all.len(),
                at == self.Current_state,
                1 <= at <= self.states.len(),
                all == state_views(old(self).states@),
                !some_closed(all, name@),
                target@ == state_name(all[at - 1]),
                self.clk == old(self).clk,
                self.rst == old(self).rst,
                self.state_reg == old(self).state_reg,
                self.Current_state == old(self).Current_state,
                guard@ == branch.ast(),
                arm == transition_arm(self@.state_reg.name, branch.ast(), target@),
                goal == states_from(all, name@, arm),
                forall|k: int| 0 <= k < j ==> (#[trigger] self.states@[k])@ == goal[k],
                forall|k: int| j <= k < all.len() ==> (#[trigger] self.states@[k])@ == all[k],
            decreases self.states.len() - j,
        {
            let label = self.states[j].getStateName();
            if same_text(label.as_str(), name) {
                let step = transition(&self.state_reg, &guard, target.as_str());
                let mut state = self.states[j].clone();
                let ghost before = arms_of(state.branch@);
                state.branch.push(step);
                assert(arms_of(state.branch@) =~= before.push(step@));
                self.states.set(j, state);
            }
            j = j + 1;
        }
        assert(state_views(self.states@) =~= goal);
        proof {
            if machine_ok(old(self)@) {
                assert forall|i: int| 0 <= i < self@.states.len() implies state_ok(
                    #[trigger] self@.states[i],
                ) && state_encoded(self@.states[i], i) by {
                    assert(state_ok(all[i]) && state_encoded(all[i], i));
                    if state_name(all[i]) == name@ {
                        assert(chain_open(all[i].branch));
                        lemma_transition_keeps_rule(all[i], arm);
                    }
                }
            }
        }
        Ok(self.clone())
    }

    /// The expression that identifies the first state of the given name;
    /// nothing where no state has that name. In a machine that keeps its
    /// rule, `lemma_param_is_encoded` says which parameter that is.
    pub fn Param(&self, name: &str) -> (r: Box<E>)
        ensures
            r@ == find_state(self@.states, name@),
    {
        let ghost all = state_views(self.states@);
        assert(all.skip(0) =~= all);
        let mut i: usize = 0;
        while i < self.states.len()
            invariant
                i <= self.states.len(),
                all == state_views(self.states@),
                find_state(all, name@) == find_state(all.skip(i as int), name@),
            decreases self.states.len() - i,
        {
            let ghost rest = all.skip(i as int);
            assert(rest.drop_first() =~= all.skip(i + 1));
            assert(rest[0] == self.states@[i as int]@);
            let n = self.states[i].getStateName();
            if same_text(n.as_str(), name) {
                return self.states[i].getState();
            }
            i = i + 1;
        }
        Box::new(E::Null)
    }

    /// The state register, as an expression.
    pub fn StateReg(&self) -> (r: Box<E>)
        ensures
            r@ == Ast::Ident(self@.state_reg),
    {
        Box::new(E::Ldc(self.state_reg.clone()))
    }

    /// The clock.
    pub fn StateClk(&self) -> (r: Box<E>)
        ensures
            r@ == self@.clk,
    {
        Box::new(clone_expr(&self.clk))
    }

    /// The reset.
    pub fn StateRst(&self) -> (r: Box<E>)
        ensures
            r@ == self@.rst,
    {
        Box::new(clone_expr(&self.rst))
    }

    /// The states, in the order in which they were added.
    pub fn StateOut(&self) -> (r: Vec<StateModule>)
        ensures
            state_views(r@) == self@.states,
    {
        let r = self.states.clone();
        assert(state_views(r@) =~= state_views(self.states@));
        r
    }

    /// The text of the machine.
    pub fn print(&self) -> (r: String)
        requires
            self@.states.len() > 0,
        ensures
            r@ == machine_text(self@),
    {
        let clk = name_text(&self.clk);
        let rst = name_text(&self.rst);
        let init = name_text(&self.states[0].state);
        assert(state_views(self.states@)[0] == self.states@[0]@);
        let mut st = String::from_str("    always @(posedge ");
        st.append(clk.as_str());
        st.append(" or posedge ");
        st.append(rst.as_str());
        st.append(") begin\n");
        st.append("        if (");
        st.append(rst.as_str());
        st.append(" == 1) begin \n            ");
        st.append(self.state_reg.name.as_str());
        st.append(" <= ");
        st.append(init.as_str());
        st.append("; \n        end\n");
        st.append("        else begin \n            ");
        st.append(self.state_reg.name.as_str());
        st.append(" <= ");
        st.append(self.state_reg.name.as_str());
        st.append("_Next; \n        end \n    end \n\n");
        let mut head = String::from_str("    always@(posedge ");
        head.append(clk.as_str());
        head.append(") begin\n");
        head.append("        if (");
        head.append(rst.as_str());
        head.append(") ");
        head.append(self.state_reg.name.as_str());
        head.append("_Next <= ");
        head.append(init.as_str());
        head.append(";\n");
        head.append("        else begin\n");
        head.append("            case(");
        head.append(self.state_reg.name.as_str());
        head.append(")\n");
        let mut clauses = String::new();
        let ghost lines = state_texts(state_views(self.states@));
        let mut i: usize = 0;
        while i < self.states.len()
            invariant
                i <= self.states.len(),
                lines == state_texts(state_views(self.states@)),
                clauses@ == concat(lines.take(i as int)),
            decreases self.states.len() - i,
        {
            proof {
                lemma_concat_push(lines.take(i as int), lines[i as int]);
                assert(lines.take(i as int).push(lines[i as int]) =~= lines.take(i + 1));
            }
            let clause = self.states[i].print();
            clauses.append(clause.as_str());
            i = i + 1;
        }
        assert(lines.take(i as int) =~= lines);
        let mut next = head;
        next.append(clauses.as_str());
        next.append("            endcase \n        end\n    end\n\n");
        st.append(next.as_str());
        st
    }
}

/// A transition that is added to a state that can take one keeps the rule
/// of the state's transitions.
pub proof fn lemma_transition_keeps_rule(s: StateModel, arm: Arm)
    requires
        state_ok(s),
        chain_open(s.branch),
        arm.is_if <==> !(arm.cond is Null),
    ensures
        state_ok(StateModel { branch: s.branch.push(arm), ..s }),
{
    let next = s.branch.push(arm);
    assert forall|k: int| 0 <= k < next.len() - 1 implies (#[trigger] next[k]).is_if by {
        if k < s.branch.len() - 1 {
            assert(next[k] == s.branch[k]);
        } else {
            assert(next[k] == s.branch.last());
        }
    }
    assert forall|k: int| 0 <= k < next.len() implies ((#[trigger] next[k]).is_if <==> !(
    next[k].cond is Null)) by {
        if k < s.branch.len() {
            assert(next[k] == s.branch[k]);
        }
    }
}

/// The place in the text of a machine at which the clause of the state at
/// `i` starts.
pub open spec fn clause_start(m: Machine, i: int) -> int {
    register_update_text(m).len() + next_state_head(m).len() + start_of(
        state_texts(m.states),
        i,
    )
}

/// The line that opens the clause of a state.
pub open spec fn clause_head(s: StateModel) -> Seq<char> {
    "                "@ + state_name(s) + " : begin\n"@
}

/// The place in the clause of a state at which the transition at `k`
/// starts, where the transitions render as a chain.
pub open spec fn transition_start(s: StateModel, k: int) -> int {
    clause_head(s).len() + start_of(arm_texts(s.branch, false, 5), k)
}

/// States render as case clauses in the order in which they were added:
/// of two states, the clause of the one that was added first stands,
/// whole, in the text of the machine before the clause of the other.
pub proof fn lemma_clauses_in_order(m: Machine, i: int, j: int)
    requires
        0 <= i < j < m.states.len(),
    ensures
        0 <= clause_start(m, i),
        clause_start(m, i) + state_text(m.states[i]).len() <= clause_start(m, j),
        clause_start(m, j) + state_text(m.states[j]).len() <= machine_text(m).len(),
        machine_text(m).subrange(
            clause_start(m, i),
            clause_start(m, i) + state_text(m.states[i]).len(),
        ) == state_text(m.states[i]),
        machine_text(m).subrange(
            clause_start(m, j),
            clause_start(m, j) + state_text(m.states[j]).len(),
        ) == state_text(m.states[j]),
{
    let parts = state_texts(m.states);
    let base = register_update_text(m).len() + next_state_head(m).len();
    let all = concat(parts);
    lemma_concat_layout(parts, i);
    lemma_concat_layout(parts, j);
    lemma_starts_ordered(parts, i + 1, j);
    lemma_starts_ordered(parts, j + 1, parts.len() as int);
    assert(machine_text(m).subrange(base as int, (base + all.len()) as int) =~= all);
    assert(machine_text(m).subrange(
        clause_start(m, i),
        clause_start(m, i) + state_text(m.states[i]).len(),
    ) =~= all.subrange(start_of(parts, i), start_of(parts, i + 1)));
    assert(machine_text(m).subrange(
        clause_start(m, j),
        clause_start(m, j) + state_text(m.states[j]).len(),
    ) =~= all.subrange(start_of(parts, j), start_of(parts, j + 1)));
}

/// Within the clause of a state the transitions render in the order in
/// which they were given: of two transitions, the one that was given
/// first stands, whole, before the other.
///
/// This is said of a state whose first transition has a guard. A state
/// whose first transition has none renders that transition alone.
pub proof fn lemma_transitions_in_order(s: StateModel, a: int, b: int)
    requires
        0 <= a < b < s.branch.len(),
        !(s.branch[0].cond is Null),
    ensures
        0 <= transition_start(s, a),
        transition_start(s, a) + arm_text(s.branch[a], a == 0, false, 5).len()
            <= transition_start(s, b),
        transition_start(s, b) + arm_text(s.branch[b], false, false, 5).len() <= state_text(
            s,
        ).len(),
        state_text(s).subrange(
            transition_start(s, a),
            transition_start(s, a) + arm_text(s.branch[a], a == 0, false, 5).len(),
        ) == arm_text(s.branch[a], a == 0, false, 5),
        state_text(s).subrange(
            transition_start(s, b),
            transition_start(s, b) + arm_text(s.branch[b], false, false, 5).len(),
        ) == arm_text(s.branch[b], false, false, 5),
{
    let parts = arm_texts(s.branch, false, 5);
    let base = clause_head(s).len();
    let all = concat(parts);
    lemma_concat_layout(parts, a);
    lemma_concat_layout(parts, b);
    lemma_starts_ordered(parts, a + 1, b);
    lemma_starts_ordered(parts, b + 1, parts.len() as int);
    assert(chain_text(s.branch, false, 5) == all);
    assert(state_text(s).subrange(base as int, (base + all.len()) as int) =~= all);
    assert(state_text(s).subrange(
        transition_start(s, a),
        transition_start(s, a) + arm_text(s.branch[a], a == 0, false, 5).len(),
    ) =~= all.subrange(start_of(parts, a), start_of(parts, a + 1)));
    assert(state_text(s).subrange(
        transition_start(s, b),
        transition_start(s, b) + arm_text(s.branch[b], false, false, 5).len(),
    ) =~= all.subrange(start_of(parts, b), start_of(parts, b + 1)));
}

/// The place in the text of a transition at which its guard starts: after
/// the indentation and the opening word.
pub open spec fn guard_start(first: bool) -> int {
    if first {
        (pad(5).len() + 3) as int
    } else {
        (pad(5).len() + 8) as int
    }
}

/// A transition with a guard renders the guard in its opening line.
pub proof fn lemma_guard_in_transition(arm: Arm, first: bool)
    requires
        first || arm.is_if,
    ensures
        guard_start(first) + text(arm.cond, false, false, 0).len() <= arm_text(
            arm,
            first,
            false,
            5,
        ).len(),
        arm_text(arm, first, false, 5).subrange(
            guard_start(first),
            guard_start(first) + text(arm.cond, false, false, 0).len(),
        ) == text(arm.cond, false, false, 0),
{
    reveal_strlit("if(");
    reveal_strlit("else if(");
    let guard = text(arm.cond, false, false, 0);
    let whole = arm_text(arm, first, false, 5);
    assert(whole.subrange(guard_start(first), guard_start(first) + guard.len()) =~= guard);
}

/// An unconditional transition is the last one of its state. Where it is
/// the only one, the clause holds its assignment and no condition; where
/// guarded transitions stand before it, it renders as the closing `else`.
pub proof fn lemma_unconditional_is_last(s: StateModel, k: int)
    requires
        state_ok(s),
        0 <= k < s.branch.len(),
        s.branch[k].cond is Null,
    ensures
        k == s.branch.len() - 1,
        k == 0 ==> chain_text(s.branch, false, 5) == body_text(s.branch[0].body, false, 5),
        k > 0 ==> !(s.branch[0].cond is Null) && arm_head(s.branch[k], false)
            == "else begin\n"@,
{
    assert(!s.branch[k].is_if);
    if k > 0 {
        assert(s.branch[0].is_if);
    }
}

proof fn lemma_find_state_from(states: Seq<StateModel>, name: Seq<char>, from: int)
    requires
        0 <= from <= states.len(),
    ensures
        find_state(states.skip(from), name) == (if first_place(states, name, from)
            < states.len() {
            states[first_place(states, name, from)].state
        } else {
            Ast::Null
        }),
        from <= first_place(states, name, from) <= states.len(),
        first_place(states, name, from) < states.len() ==> state_name(
            states[first_place(states, name, from)],
        ) == name,
    decreases states.len() - from,
{
    let rest = states.skip(from);
    if from < states.len() {
        assert(rest[0] == states[from]);
        assert(rest.drop_first() =~= states.skip(from + 1));
        lemma_find_state_from(states, name, from + 1);
    }
}

/// In a machine that keeps its rule, the parameter that `Param` gives for
/// a name is the one of the first state of that name, and it carries the
/// value that encodes the place of that state, counted from zero. Where no
/// state has the name, `Param` gives nothing.
pub proof fn lemma_param_is_encoded(m: Machine, name: Seq<char>)
    requires
        machine_ok(m),
    ensures
        0 <= first_place(m.states, name, 0) <= m.states.len(),
        first_place(m.states, name, 0) == m.states.len() ==> find_state(m.states, name)
            == Ast::Null,
        first_place(m.states, name, 0) < m.states.len() ==> (find_state(m.states, name)
            matches Ast::Ident(sig) && sig.name == name && sig.role == IOType::Param && sig.value
            == encoded(first_place(m.states, name, 0))),
{
    lemma_find_state_from(m.states, name, 0);
    assert(m.states.skip(0) =~= m.states);
    let k = first_place(m.states, name, 0);
    if k < m.states.len() {
        assert(state_encoded(m.states[k], k));
    }
}

} // verus!
