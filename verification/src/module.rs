//! The unit: everything that was declared and built, and the text that it
//! renders to.
use vstd::prelude::*;
use crate::ast::{blank_signal, Ast, IOType, Signal};
use crate::axi::{bus_text, print_axi, Bus, BusModel};
use crate::builder::Operand;
use crate::error::ModelError;
use crate::expr::E;
use crate::fsm::{
    encoded, machine_text, state_name, state_signal, FsmModule, Machine, StateModel,
};
use crate::process::{
    assigns_text, callables, callables_text, connections, process_views, processes_text, Always,
    Assign, Callable, Connection, Func, Process,
};
use crate::signal::{
    is_port_role, local_params_text, params_text, ports_text, signals, WireVar,
};
use crate::text::{concat, join, lemma_concat_push, lemma_join_push, same_text};

verus! {

/// A unit of the generated description.
pub struct Unit {
    pub name: Seq<char>,
    pub ports: Seq<Signal>,
    pub params: Seq<Signal>,
    pub locals: Seq<Signal>,
    pub processes: Seq<Process>,
    pub assigns: Seq<Connection>,
    pub funcs: Seq<Callable>,
    pub fsms: Seq<Machine>,
    pub buses: Seq<BusModel>,
    pub inline: Seq<char>,
}

/// The buses that a list of bus values stands for.
pub open spec fn bus_views(list: Seq<Bus>) -> Seq<BusModel> {
    list.map_values(|b: Bus| b@)
}

/// The texts of the state machines of a unit.
pub open spec fn machine_texts(fsms: Seq<Machine>) -> Seq<Seq<char>> {
    fsms.map_values(|m: Machine| machine_text(m))
}

/// The texts of the buses of a unit; each bus is numbered by its place.
pub open spec fn bus_texts(buses: Seq<BusModel>) -> Seq<Seq<char>> {
    Seq::new(buses.len(), |i: int| bus_text(buses[i], encoded(i)))
}

/// The text of a unit: the header with the unit's name, the parameter
/// list, the port list, the declarations, the continuous assignments, the
/// clocked processes, the functions, the state machines, the bus adapters,
/// the inline text, and the closing line.
pub open spec fn unit_text(u: Unit) -> Seq<char> {
    "module "@ + u.name + " "@ + params_text(u.params) + ports_text(u.ports) + local_params_text(
        u.locals,
    ) + assigns_text(u.assigns) + processes_text(u.processes) + callables_text(u.funcs) + join(
        machine_texts(u.fsms),
        "\n"@,
    ) + concat(bus_texts(u.buses)) + u.inline + "\nendmodule\n"@
}

/// A unit without content.
pub open spec fn empty_unit(name: Seq<char>) -> Unit {
    Unit {
        name: name,
        ports: Seq::empty(),
        params: Seq::empty(),
        locals: Seq::empty(),
        processes: Seq::empty(),
        assigns: Seq::empty(),
        funcs: Seq::empty(),
        fsms: Seq::empty(),
        buses: Seq::empty(),
        inline: Seq::empty(),
    }
}

/// The parameter that a name and a value make.
pub open spec fn parameter_signal(name: Seq<char>, value: int) -> Signal {
    Signal { name: name, value: value, role: IOType::Param, ..blank_signal() }
}

/// The names of the functions of a unit.
pub open spec fn function_names(funcs: Seq<Callable>) -> Seq<Seq<char>> {
    funcs.map_values(|f: Callable| f.top.name)
}

/// A port of a unit: a declaration whose role is that of a port.
#[derive(Debug)]
pub struct Port {
    pub(crate) wire: WireVar,
}

impl Port {
    /// A port has the role of a port.
    #[verifier::type_invariant]
    spec fn inv(self) -> bool {
        is_port_role(self.wire@.role)
    }
}

impl View for Port {
    type V = Signal;

    open(crate) spec fn view(&self) -> Signal {
        self.wire@
    }
}

impl Clone for Port {
    fn clone(&self) -> (r: Self)
        ensures
            r@ == self@,
    {
        proof {
            use_type_invariant(self);
        }
        Port { wire: self.wire.clone() }
    }
}

/// A state machine that is part of a unit: one that has a state.
#[derive(Debug)]
pub struct Registered {
    pub(crate) machine: FsmModule,
}

impl Registered {
    /// A machine that is part of a unit has a state.
    #[verifier::type_invariant]
    spec fn inv(self) -> bool {
        self.machine@.states.len() > 0
    }
}

impl View for Registered {
    type V = Machine;

    open(crate) spec fn view(&self) -> Machine {
        self.machine@
    }
}

impl Clone for Registered {
    fn clone(&self) -> (r: Self)
        ensures
            r@ == self@,
    {
        proof {
            use_type_invariant(self);
        }
        Registered { machine: self.machine.clone() }
    }
}

/// The signals that a list of ports stands for.
pub open spec fn port_views(list: Seq<Port>) -> Seq<Signal> {
    list.map_values(|p: Port| p@)
}

/// The machines that a list of registered machines stands for.
pub open spec fn registered_views(list: Seq<Registered>) -> Seq<Machine> {
    list.map_values(|r: Registered| r@)
}

/// A unit under construction.
#[derive(Debug)]
pub struct VModule {
    pub(crate) name: String,
    pub(crate) io_port: Vec<Port>,
    pub(crate) io_param: Vec<WireVar>,
    pub(crate) local_param: Vec<WireVar>,
    pub(crate) always: Vec<Always>,
    pub(crate) assign: Vec<Assign>,
    pub(crate) func: Vec<Func>,
    pub(crate) fsm: Vec<Registered>,
    pub(crate) axi: Vec<Bus>,
    pub(crate) inline: String,
}

impl View for VModule {
    type V = Unit;

    open(crate) spec fn view(&self) -> Unit {
        Unit {
            name: self.name@,
            ports: port_views(self.io_port@),
            params: signals(self.io_param@),
            locals: signals(self.local_param@),
            processes: process_views(self.always@),
            assigns: connections(self.assign@),
            funcs: callables(self.func@),
            fsms: registered_views(self.fsm@),
            buses: bus_views(self.axi@),
            inline: self.inline@,
        }
    }
}

impl Clone for VModule {
    fn clone(&self) -> (r: Self)
        ensures
            r@ == self@,
    {
        let io_port = self.io_port.clone();
        let io_param = self.io_param.clone();
        let local_param = self.local_param.clone();
        let always = self.always.clone();
        let assign = self.assign.clone();
        let func = self.func.clone();
        let fsm = self.fsm.clone();
        let axi = self.axi.clone();
        assert(port_views(io_port@) =~= port_views(self.io_port@));
        assert(signals(io_param@) =~= signals(self.io_param@));
        assert(signals(local_param@) =~= signals(self.local_param@));
        assert(process_views(always@) =~= process_views(self.always@));
        assert(connections(assign@) =~= connections(self.assign@));
        assert(callables(func@) =~= callables(self.func@));
        assert(registered_views(fsm@) =~= registered_views(self.fsm@));
        assert(bus_views(axi@) =~= bus_views(self.axi@));
        VModule {
            name: self.name.clone(),
            io_port: io_port,
            io_param: io_param,
            local_param: local_param,
            always: always,
            assign: assign,
            func: func,
            fsm: fsm,
            axi: axi,
            inline: self.inline.clone(),
        }
    }
}

impl VModule {
    /// A unit of the given name, without content.
    pub fn new(name: &str) -> (r: VModule)
        ensures
            r@ == empty_unit(name@),
    {
        let r = VModule {
            name: String::from_str(name),
            io_port: Vec::new(),
            io_param: Vec::new(),
            local_param: Vec::new(),
            always: Vec::new(),
            assign: Vec::new(),
            func: Vec::new(),
            fsm: Vec::new(),
            axi: Vec::new(),
            inline: String::new(),
        };
        assert(r@.ports =~= Seq::empty());
        assert(r@.params =~= Seq::empty());
        assert(r@.locals =~= Seq::empty());
        assert(r@.processes =~= Seq::empty());
        assert(r@.assigns =~= Seq::empty());
        assert(r@.funcs =~= Seq::empty());
        assert(r@.fsms =~= Seq::empty());
        assert(r@.buses =~= Seq::empty());
        r
    }

    /// Adds a parameter to the unit's header.
    pub fn add_io_param(&mut self, name: &str, value: i32) -> (r: Box<E>)
        ensures
            final(self)@ == (Unit {
                params: old(self)@.params.push(parameter_signal(name@, value as int)),
                ..old(self)@
            }),
            r@ == Ast::Ident(parameter_signal(name@, value as int)),
    {
        let mut tmp = WireVar::new();
        let r = tmp.parameter(name, value);
        self.io_param.push(tmp);
        assert(signals(self.io_param@) =~= signals(old(self).io_param@).push(
            parameter_signal(name@, value as int),
        ));
        r
    }

    /// Adds a parameter to the declarations inside the unit.
    pub fn add_local_param(&mut self, name: &str, value: i32) -> (r: Box<E>)
        ensures
            final(self)@ == (Unit {
                locals: old(self)@.locals.push(parameter_signal(name@, value as int)),
                ..old(self)@
            }),
            r@ == Ast::Ident(parameter_signal(name@, value as int)),
    {
        let mut tmp = WireVar::new();
        let r = tmp.parameter(name, value);
        self.local_param.push(tmp);
        assert(signals(self.local_param@) =~= signals(old(self).local_param@).push(
            parameter_signal(name@, value as int),
        ));
        r
    }

    /// Adds a clocked process.
    pub fn always(&mut self, always: Always)
        ensures
            final(self)@ == (Unit {
                processes: old(self)@.processes.push(always@),
                ..old(self)@
            }),
    {
        self.always.push(always);
        assert(process_views(self.always@) =~= process_views(old(self).always@).push(always@));
    }

    /// Adds a continuous assignment.
    pub fn assign(&mut self, assign: Assign)
        ensures
            final(self)@ == (Unit { assigns: old(self)@.assigns.push(assign@), ..old(self)@ }),
    {
        self.assign.push(assign);
        assert(connections(self.assign@) =~= connections(old(self).assign@).push(assign@));
    }

    /// Adds text that is taken over as it is, followed by an empty line.
    pub fn inline(&mut self, code: &str)
        ensures
            final(self)@ == (Unit { inline: old(self)@.inline + code@ + "\n\n"@, ..old(self)@ }),
    {
        self.inline.append(code);
        self.inline.append("\n\n");
    }

    /// The names of the functions of the unit.
    pub fn out_func_name(&self) -> (r: Vec<String>)
        ensures
            r@.map_values(|s: String| s@) == function_names(self@.funcs),
    {
        let mut st: Vec<String> = Vec::new();
        let mut i: usize = 0;
        while i < self.func.len()
            invariant
                i <= self.func.len(),
                st@.map_values(|s: String| s@) == function_names(callables(self.func@)).take(
                    i as int,
                ),
            decreases self.func.len() - i,
        {
            let ghost before = st@.map_values(|s: String| s@);
            let name = self.func[i].top.name.clone();
            st.push(name);
            assert(st@.map_values(|s: String| s@) =~= before.push(name@));
            assert(function_names(callables(self.func@)).take(i + 1) =~= function_names(
                callables(self.func@),
            ).take(i as int).push(name@));
            i = i + 1;
        }
        assert(function_names(callables(self.func@)).take(i as int) =~= function_names(
            callables(self.func@),
        ));
        st
    }

    /// The continuous assignments of the unit.
    pub fn out_assign(&self) -> (r: Vec<Assign>)
        ensures
            connections(r@) == self@.assigns,
    {
        let r = self.assign.clone();
        assert(connections(r@) =~= connections(self.assign@));
        r
    }

    /// The clocked processes of the unit.
    pub fn out_always(&self) -> (r: Vec<Always>)
        ensures
            process_views(r@) == self@.processes,
    {
        let r = self.always.clone();
        assert(process_views(r@) =~= process_views(self.always@));
        r
    }

    fn print_ports(&self) -> (r: String)
        ensures
            r@ == ports_text(self@.ports),
    {
        let mut wires: Vec<WireVar> = Vec::new();
        let mut i: usize = 0;
        while i < self.io_port.len()
            invariant
                i <= self.io_port.len(),
                wires@.len() == i,
                forall|k: int| 0 <= k < i ==> (#[trigger] wires@[k])@ == self.io_port@[k]@,
                forall|k: int| 0 <= k < i ==> is_port_role((#[trigger] wires@[k])@.role),
            decreases self.io_port.len() - i,
        {
            let port = &self.io_port[i];
            proof {
                use_type_invariant(port);
            }
            wires.push(port.wire.clone());
            i = i + 1;
        }
        assert(signals(wires@) =~= port_views(self.io_port@));
        WireVar::print_ports(wires.as_slice())
    }

    fn print_fsms(&self) -> (r: String)
        ensures
            r@ == join(machine_texts(self@.fsms), "\n"@),
    {
        let mut st = String::new();
        let ghost lines = machine_texts(registered_views(self.fsm@));
        let mut i: usize = 0;
        while i < self.fsm.len()
            invariant
                i <= self.fsm.len(),
                lines == machine_texts(registered_views(self.fsm@)),
                st@ == join(lines.take(i as int), "\n"@),
            decreases self.fsm.len() - i,
        {
            proof {
                lemma_join_push(lines.take(i as int), "\n"@, lines[i as int]);
                assert(lines.take(i as int).push(lines[i as int]) =~= lines.take(i + 1));
            }
            if i > 0 {
                st.append("\n");
            }
            let entry = &self.fsm[i];
            proof {
                use_type_invariant(entry);
            }
            let p = entry.machine.print();
            st.append(p.as_str());
            assert(st@ =~= join(lines.take(i + 1), "\n"@));
            i = i + 1;
        }
        assert(lines.take(i as int) =~= lines);
        st
    }

    fn print_buses(&self) -> (r: String)
        ensures
            r@ == concat(bus_texts(self@.buses)),
    {
        let mut st = String::new();
        let ghost lines = bus_texts(bus_views(self.axi@));
        let mut i: usize = 0;
        while i < self.axi.len()
            invariant
                i <= self.axi.len(),
                lines == bus_texts(bus_views(self.axi@)),
                st@ == concat(lines.take(i as int)),
            decreases self.axi.len() - i,
        {
            proof {
                lemma_concat_push(lines.take(i as int), lines[i as int]);
                assert(lines.take(i as int).push(lines[i as int]) =~= lines.take(i + 1));
            }
            let number: i32 = if i <= i32::MAX as usize {
                i as i32
            } else {
                i32::MAX
            };
            let p = print_axi(self.axi[i].clone(), number);
            st.append(p.as_str());
            i = i + 1;
        }
        assert(lines.take(i as int) =~= lines);
        st
    }

    /// The text of the unit.
    pub fn gen(&self) -> (r: String)
        ensures
            r@ == unit_text(self@),
    {
        let mut st = String::from_str("module ");
        st.append(self.name.as_str());
        st.append(" ");
        let params = WireVar::print_params(self.io_param.as_slice());
        st.append(params.as_str());
        let ports = self.print_ports();
        st.append(ports.as_str());
        let locals = WireVar::print_local_params(self.local_param.as_slice());
        st.append(locals.as_str());
        let assigns = Assign::print_list(self.assign.as_slice());
        st.append(assigns.as_str());
        let processes = Always::print_list(self.always.as_slice());
        st.append(processes.as_str());
        let funcs = Func::print_list(self.func.as_slice());
        st.append(funcs.as_str());
        let fsms = self.print_fsms();
        st.append(fsms.as_str());
        let buses = self.print_buses();
        st.append(buses.as_str());
        st.append(self.inline.as_str());
        st.append("\nendmodule\n");
        st
    }
}

/// The signal that a declaration makes. A constant as width gives the
/// width itself; an identifier as width hands on the width parameter that
/// it carries.
pub open spec fn declared(name: Seq<char>, role: IOType, registered: bool, width: Ast) -> Signal {
    Signal {
        name: name,
        role: role,
        registered: registered,
        width: match width {
            Ast::Const(i) => i,
            _ => 0,
        },
        width_param: match width {
            Ast::Ident(s) => s.width_param,
            _ => "_"@,
        },
        ..blank_signal()
    }
}

/// The memory that a declaration makes: an identifier as width or length
/// names the parameter that gives it.
pub open spec fn declared_memory(name: Seq<char>, width: Ast, length: Ast) -> Signal {
    Signal {
        name: name,
        registered: true,
        width_param: match width {
            Ast::Ident(s) => s.name,
            _ => "_"@,
        },
        length_param: match length {
            Ast::Ident(s) => s.name,
            _ => "_"@,
        },
        ..blank_signal()
    }
}

/// The parameters that encode the states of a machine, one for each state.
pub open spec fn state_params(states: Seq<StateModel>) -> Seq<Signal> {
    Seq::new(states.len(), |i: int| state_signal(state_name(states[i]), encoded(i)))
}

/// The shadow register of a state register, as a unit declares it.
pub open spec fn next_register(reg: Seq<char>) -> Signal {
    Signal { name: reg + "_Next"@, width: 32, registered: true, ..blank_signal() }
}

/// Whether a machine with the given state register is part of the unit.
pub open spec fn has_machine(fsms: Seq<Machine>, reg: Seq<char>) -> bool {
    exists|i: int| 0 <= i < fsms.len() && (#[trigger] fsms[i]).state_reg.name == reg
}

/// The unit with one more machine: the parameters of its states, its state
/// register and the shadow register are declared, and the machine is part
/// of the unit.
pub open spec fn with_machine(u: Unit, m: Machine) -> Unit {
    Unit {
        locals: u.locals + state_params(m.states) + seq![
            m.state_reg,
            next_register(m.state_reg.name),
        ],
        fsms: u.fsms.push(m),
        ..u
    }
}

/// The declaration of the given name, role and width.
pub fn declare<T: Operand>(name: &str, role: IOType, registered: bool, width: T) -> (r: WireVar)
    ensures
        r@ == declared(name@, role, registered, width.ast()),
{
    let w = width.expr();
    let mut tmp = WireVar::new();
    tmp.name = String::from_str(name);
    tmp.io_param = role;
    tmp.reg_set = registered;
    match *w {
        E::Num(i) => {
            tmp.width = i;
        },
        E::Ldc(wr) => {
            tmp.width_p = wr.width_p;
        },
        _ => {},
    }
    tmp
}

/// Declaring the ports, wires and registers of a unit.
pub trait VSet<T> {
    /// Declares an input port.
    fn input(&mut self, name: &str, width: T) -> Box<E>;

    /// Declares a bidirectional port.
    fn inout(&mut self, name: &str, width: T) -> Box<E>;

    /// Declares an output port.
    fn output(&mut self, name: &str, width: T) -> Box<E>;

    /// Declares an output port that is a register.
    fn reg_out(&mut self, name: &str, width: T) -> Box<E>;

    /// Declares a wire inside the unit.
    fn wire(&mut self, name: &str, width: T) -> Box<E>;

    /// Declares a register inside the unit.
    fn reg(&mut self, name: &str, width: T) -> Box<E>;
}

impl<T: Operand> VSet<T> for VModule {
    fn input(&mut self, name: &str, width: T) -> (r: Box<E>)
        ensures
            final(self)@ == (Unit {
                ports: old(self)@.ports.push(declared(name@, IOType::Input, false, width.ast())),
                ..old(self)@
            }),
            r@ == Ast::Ident(declared(name@, IOType::Input, false, width.ast())),
    {
        let tmp = declare(name, IOType::Input, false, width);
        let r = Box::new(E::Ldc(tmp.clone()));
        self.io_port.push(Port { wire: tmp });
        assert(port_views(self.io_port@) =~= port_views(old(self).io_port@).push(tmp@));
        r
    }

    fn inout(&mut self, name: &str, width: T) -> (r: Box<E>)
        ensures
            final(self)@ == (Unit {
                ports: old(self)@.ports.push(declared(name@, IOType::InOut, false, width.ast())),
                ..old(self)@
            }),
            r@ == Ast::Ident(declared(name@, IOType::InOut, false, width.ast())),
    {
        let tmp = declare(name, IOType::InOut, false, width);
        let r = Box::new(E::Ldc(tmp.clone()));
        self.io_port.push(Port { wire: tmp });
        assert(port_views(self.io_port@) =~= port_views(old(self).io_port@).push(tmp@));
        r
    }

    fn output(&mut self, name: &str, width: T) -> (r: Box<E>)
        ensures
            final(self)@ == (Unit {
                ports: old(self)@.ports.push(declared(name@, IOType::Output, false, width.ast())),
                ..old(self)@
            }),
            r@ == Ast::Ident(declared(name@, IOType::Output, false, width.ast())),
    {
        let tmp = declare(name, IOType::Output, false, width);
        let r = Box::new(E::Ldc(tmp.clone()));
        self.io_port.push(Port { wire: tmp });
        assert(port_views(self.io_port@) =~= port_views(old(self).io_port@).push(tmp@));
        r
    }

    fn reg_out(&mut self, name: &str, width: T) -> (r: Box<E>)
        ensures
            final(self)@ == (Unit {
                ports: old(self)@.ports.push(declared(name@, IOType::Output, true, width.ast())),
                ..old(self)@
            }),
            r@ == Ast::Ident(declared(name@, IOType::Output, true, width.ast())),
    {
        let tmp = declare(name, IOType::Output, true, width);
        let r = Box::new(E::Ldc(tmp.clone()));
        self.io_port.push(Port { wire: tmp });
        assert(port_views(self.io_port@) =~= port_views(old(self).io_port@).push(tmp@));
        r
    }

    fn wire(&mut self, name: &str, width: T) -> (r: Box<E>)
        ensures
            final(self)@ == (Unit {
                locals: old(self)@.locals.push(declared(name@, IOType::Local, false, width.ast())),
                ..old(self)@
            }),
            r@ == Ast::Ident(declared(name@, IOType::Local, false, width.ast())),
    {
        let tmp = declare(name, IOType::Local, false, width);
        let r = Box::new(E::Ldc(tmp.clone()));
        self.local_param.push(tmp);
        assert(signals(self.local_param@) =~= signals(old(self).local_param@).push(tmp@));
        r
    }

    fn reg(&mut self, name: &str, width: T) -> (r: Box<E>)
        ensures
            final(self)@ == (Unit {
                locals: old(self)@.locals.push(declared(name@, IOType::Local, true, width.ast())),
                ..old(self)@
            }),
            r@ == Ast::Ident(declared(name@, IOType::Local, true, width.ast())),
    {
        let tmp = declare(name, IOType::Local, true, width);
        let r = Box::new(E::Ldc(tmp.clone()));
        self.local_param.push(tmp);
        assert(signals(self.local_param@) =~= signals(old(self).local_param@).push(tmp@));
        r
    }
}

/// Declaring the memories of a unit.
pub trait Memset<T> {
    /// Declares a memory; `args` gives its width and its length.
    fn Mem(&mut self, name: &str, args: T) -> Box<E>;
}

impl<T: Operand, U: Operand> Memset<(T, U)> for VModule {
    fn Mem(&mut self, name: &str, args: (T, U)) -> (r: Box<E>)
        ensures
            final(self)@ == (Unit {
                locals: old(self)@.locals.push(
                    declared_memory(name@, args.0.ast(), args.1.ast()),
                ),
                ..old(self)@
            }),
            r@ == Ast::Ident(declared_memory(name@, args.0.ast(), args.1.ast())),
    {
        let mut tmp = WireVar::new();
        let _ = tmp.mem(name, 0, 0);
        let width = args.0.expr();
        match *width {
            E::Ldc(wr) => {
                tmp.width_p = wr.name;
            },
            _ => {},
        }
        let length = args.1.expr();
        match *length {
            E::Ldc(wr) => {
                tmp.length_p = wr.name;
            },
            _ => {},
        }
        let r = Box::new(E::Ldc(tmp.clone()));
        self.local_param.push(tmp);
        assert(signals(self.local_param@) =~= signals(old(self).local_param@).push(tmp@));
        r
    }
}

/// Making a function part of a unit.
pub trait FuncTrait<T> {
    /// Adds the function to the unit.
    fn func(&mut self, function: T);
}

impl FuncTrait<Func> for VModule {
    fn func(&mut self, function: Func)
        ensures
            final(self)@ == (Unit { funcs: old(self)@.funcs.push(function@), ..old(self)@ }),
    {
        self.func.push(function);
        assert(callables(self.func@) =~= callables(old(self).func@).push(function@));
    }
}

impl<'a> FuncTrait<&'a Func> for VModule {
    fn func(&mut self, function: &'a Func)
        ensures
            final(self)@ == (Unit { funcs: old(self)@.funcs.push(function@), ..old(self)@ }),
    {
        self.func.push(function.clone());
        assert(callables(self.func@) =~= callables(old(self).func@).push(function@));
    }
}

/// Making a state machine part of a unit.
pub trait FSMTrait<T> {
    /// Adds the machine to the unit and gives its state register.
    fn fsm(&mut self, fsm: T) -> Result<Box<E>, ModelError>;
}

impl VModule {
    fn holds_machine(&self, reg: &str) -> (r: bool)
        ensures
            r == has_machine(self@.fsms, reg@),
    {
        let mut i: usize = 0;
        while i < self.fsm.len()
            invariant
                i <= self.fsm.len(),
                forall|k: int|
                    0 <= k < i ==> (#[trigger] registered_views(self.fsm@)[k]).state_reg.name
                        != reg@,
            decreases self.fsm.len() - i,
        {
            assert(registered_views(self.fsm@)[i as int] == self.fsm@[i as int]@);
            if same_text(self.fsm[i].machine.state_reg.name.as_str(), reg) {
                return true;
            }
            i = i + 1;
        }
        false
    }

    /// Adds a machine to the unit: declares the parameters that encode its
    /// states, its state register and the shadow register, and gives the
    /// state register.
    ///
    /// Fails, and changes nothing, where a machine with the same state
    /// register is part of the unit already; the error names the
    /// register. Fails too where the machine has no state.
    pub fn add_fsm(&mut self, fsm: FsmModule) -> (r: Result<Box<E>, ModelError>)
        ensures
            has_machine(old(self)@.fsms, fsm@.state_reg.name) ==> final(self)@ == old(self)@ && (
            r matches Err(ModelError::DuplicateFsm(n)) && n@ == fsm@.state_reg.name),
            !has_machine(old(self)@.fsms, fsm@.state_reg.name) && fsm@.states.len() == 0
                ==> final(self)@ == old(self)@ && r matches Err(ModelError::NoStates),
            !has_machine(old(self)@.fsms, fsm@.state_reg.name) && fsm@.states.len() > 0
                ==> final(self)@ == with_machine(old(self)@, fsm@) && (r matches Ok(reg) && reg@
                == Ast::Ident(fsm@.state_reg)),
    {
        if self.holds_machine(fsm.state_reg.name.as_str()) {
            return Err(ModelError::DuplicateFsm(fsm.state_reg.name.clone()));
        }
        if !fsm.has_states() {
            return Err(ModelError::NoStates);
        }
        let ghost start = signals(self.local_param@);
        let ghost params = state_params(fsm@.states);
        assert(start + params.take(0) =~= start);
        let mut n: usize = 0;
        while n < fsm.states.len()
            invariant
                n <= fsm.states.len(),
                params == state_params(fsm@.states),
                signals(self.local_param@) == start + params.take(n as int),
                self.name == old(self).name,
                self.io_port == old(self).io_port,
                self.io_param == old(self).io_param,
                self.always == old(self).always,
                self.assign == old(self).assign,
                self.func == old(self).func,
                self.fsm == old(self).fsm,
                self.axi == old(self).axi,
                self.inline == old(self).inline,
            decreases fsm.states.len() - n,
        {
            let value: i32 = if n <= i32::MAX as usize {
                n as i32
            } else {
                i32::MAX
            };
            let name = fsm.states[n].getStateName();
            assert(fsm@.states[n as int] == fsm.states@[n as int]@);
            let mut p = WireVar::new();
            let _ = p.parameter(name.as_str(), value);
            let ghost before = signals(self.local_param@);
            self.local_param.push(p);
            assert(signals(self.local_param@) =~= before.push(p@));
            assert(start + params.take(n + 1) =~= (start + params.take(n as int)).push(p@));
            n = n + 1;
        }
        assert(params.take(n as int) =~= params);
        let reg = fsm.state_reg.clone();
        let mut next_name = fsm.state_reg.name.clone();
        next_name.append("_Next");
        let mut next = WireVar::new();
        let _ = next.reg(next_name.as_str(), 32);
        let out = fsm.StateReg();
        let ghost before = signals(self.local_param@);
        self.local_param.push(reg);
        self.local_param.push(next);
        assert(signals(self.local_param@) =~= start + params + seq![
            fsm@.state_reg,
            next_register(fsm@.state_reg.name),
        ]);
        let ghost machine = fsm@;
        self.fsm.push(Registered { machine: fsm });
        assert(registered_views(self.fsm@) =~= registered_views(old(self).fsm@).push(machine));
        Ok(out)
    }
}

impl FSMTrait<FsmModule> for VModule {
    fn fsm(&mut self, fsm: FsmModule) -> (r: Result<Box<E>, ModelError>)
        ensures
            has_machine(old(self)@.fsms, fsm@.state_reg.name) ==> final(self)@ == old(self)@ && (
            r matches Err(ModelError::DuplicateFsm(n)) && n@ == fsm@.state_reg.name),
            !has_machine(old(self)@.fsms, fsm@.state_reg.name) && fsm@.states.len() == 0
                ==> final(self)@ == old(self)@ && r matches Err(ModelError::NoStates),
            !has_machine(old(self)@.fsms, fsm@.state_reg.name) && fsm@.states.len() > 0
                ==> final(self)@ == with_machine(old(self)@, fsm@) && (r matches Ok(reg) && reg@
                == Ast::Ident(fsm@.state_reg)),
    {
        self.add_fsm(fsm)
    }
}

impl<'a> FSMTrait<&'a FsmModule> for VModule {
    fn fsm(&mut self, fsm: &'a FsmModule) -> (r: Result<Box<E>, ModelError>)
        ensures
            has_machine(old(self)@.fsms, fsm@.state_reg.name) ==> final(self)@ == old(self)@ && (
            r matches Err(ModelError::DuplicateFsm(n)) && n@ == fsm@.state_reg.name),
            !has_machine(old(self)@.fsms, fsm@.state_reg.name) && fsm@.states.len() == 0
                ==> final(self)@ == old(self)@ && r matches Err(ModelError::NoStates),
            !has_machine(old(self)@.fsms, fsm@.state_reg.name) && fsm@.states.len() > 0
                ==> final(self)@ == with_machine(old(self)@, fsm@) && (r matches Ok(reg) && reg@
                == Ast::Ident(fsm@.state_reg)),
    {
        self.add_fsm(fsm.clone())
    }
}

/// Rendering is a function of the model alone: two renderings of one unit
/// are the same text.
pub proof fn lemma_rendering_is_repeatable(m: VModule, first: String, second: String)
    requires
        first@ == unit_text(m@),
        second@ == unit_text(m@),
    ensures
        first@ == second@,
{
}

/// Every unit renders between its header, which names it, and the closing
/// line.
pub proof fn lemma_unit_frame(u: Unit)
    ensures
        ("module "@ + u.name + " "@).is_prefix_of(unit_text(u)),
        "\nendmodule\n"@.is_suffix_of(unit_text(u)),
{
    let head = "module "@ + u.name + " "@;
    let tail = "\nendmodule\n"@;
    let t = unit_text(u);
    assert(t.subrange(0, head.len() as int) =~= head);
    assert(t.subrange(t.len() - tail.len(), t.len() as int) =~= tail);
}

} // verus!
