//! Declared identifiers: ports, parameters, wires, registers and memories.
use vstd::prelude::*;
use crate::ast::{blank_signal, Ast, IOType, Signal};
use crate::expr::E;
use crate::text::{decimal, decimal_text, join, lemma_concat_push, lemma_join_push, concat};

verus! {

/// A declared identifier. Its role and sizes are set by the method that
/// names it.
#[derive(Debug)]
pub struct WireVar {
    pub(crate) name: String,
    pub(crate) io_param: IOType,
    pub(crate) width: i32,
    pub(crate) length: i32,
    pub(crate) reg_set: bool,
    pub(crate) value: i32,
    pub(crate) width_p: String,
    pub(crate) length_p: String,
}

impl View for WireVar {
    type V = Signal;

    open(crate) spec fn view(&self) -> Signal {
        Signal {
            name: self.name@,
            role: self.io_param,
            width: self.width as int,
            length: self.length as int,
            registered: self.reg_set,
            value: self.value as int,
            width_param: self.width_p@,
            length_param: self.length_p@,
        }
    }
}

impl Clone for WireVar {
    fn clone(&self) -> (r: Self)
        ensures
            r@ == self@,
    {
        WireVar {
            name: self.name.clone(),
            io_param: self.io_param,
            width: self.width,
            length: self.length,
            reg_set: self.reg_set,
            value: self.value,
            width_p: self.width_p.clone(),
            length_p: self.length_p.clone(),
        }
    }
}

/// Whether an identifier with this role can stand in a port list.
pub open spec fn is_port_role(role: IOType) -> bool {
    role == IOType::Input || role == IOType::Output || role == IOType::InOut
}

/// A parameter as it stands in the parameter list of the unit's header.
pub open spec fn param_text(s: Signal) -> Seq<char> {
    "parameter "@ + s.name + " = "@ + decimal(s.value)
}

/// The parameter list of the unit's header; nothing where the unit has no
/// parameters.
pub open spec fn params_text(params: Seq<Signal>) -> Seq<char> {
    if params.len() == 0 {
        Seq::empty()
    } else {
        "#(\n"@ + join(params.map_values(|p: Signal| "    "@ + param_text(p)), ",\n"@) + "\n)"@
    }
}

/// The direction keyword of a port, with the blanks that follow it.
pub open spec fn direction_text(role: IOType) -> Seq<char> {
    match role {
        IOType::Input => "input  "@,
        IOType::Output => "output "@,
        _ => "inout "@,
    }
}

/// A port as it stands in the port list: direction, bit range, name and
/// array range.
pub open spec fn port_text(s: Signal) -> Seq<char> {
    direction_text(s.role) + "["@ + decimal(s.width) + "-1:0]"@ + " "@ + s.name + " "@ + "["@
        + decimal(s.length) + "-1:0]"@
}

/// The port list of the unit's header; nothing where the unit has no ports.
pub open spec fn ports_text(ports: Seq<Signal>) -> Seq<char> {
    if ports.len() == 0 {
        Seq::empty()
    } else {
        "(\n"@ + join(ports.map_values(|p: Signal| "    "@ + port_text(p)), ",\n"@) + "\n);\n"@
    }
}

/// A declaration inside the unit.
pub open spec fn local_param_text(s: Signal) -> Seq<char> {
    "parameter "@ + s.name + " = "@ + decimal(s.value) + ";"@
}

/// The block of declarations inside the unit, one per line.
pub open spec fn local_params_text(locals: Seq<Signal>) -> Seq<char> {
    concat(locals.map_values(|p: Signal| "    "@ + local_param_text(p) + "\n"@))
}

/// The signals that a list of declarations stands for.
pub open spec fn signals(wires: Seq<WireVar>) -> Seq<Signal> {
    wires.map_values(|w: WireVar| w@)
}

impl WireVar {
    /// A declaration that names nothing yet.
    pub fn new() -> (r: WireVar)
        ensures
            r@ == blank_signal(),
    {
        WireVar {
            name: String::from_str("none"),
            io_param: IOType::Local,
            width: 0,
            length: 0,
            reg_set: false,
            value: 0,
            width_p: String::from_str("_"),
            length_p: String::from_str("_"),
        }
    }

    /// Whether the declaration can stand in a port list.
    pub fn is_port(&self) -> (r: bool)
        ensures
            r == is_port_role(self@.role),
    {
        match self.io_param {
            IOType::Input | IOType::Output | IOType::InOut => true,
            _ => false,
        }
    }

    /// Names the parameter that gives the array length.
    pub fn length(&mut self, s: &str) -> (r: WireVar)
        ensures
            final(self)@ == (Signal { length_param: s@, ..old(self)@ }),
            r@ == final(self)@,
    {
        self.length_p = String::from_str(s);
        self.clone()
    }

    /// Names the parameter that gives the bit width.
    pub fn width(&mut self, s: &str) -> (r: WireVar)
        ensures
            final(self)@ == (Signal { width_param: s@, ..old(self)@ }),
            r@ == final(self)@,
    {
        self.width_p = String::from_str(s);
        self.clone()
    }

    /// Makes the declaration an input port.
    pub fn input(&mut self, name: &str, width: i32) -> (r: Box<E>)
        ensures
            final(self)@ == (Signal {
                name: name@,
                width: width as int,
                role: IOType::Input,
                ..old(self)@
            }),
            r@ == Ast::Ident(final(self)@),
    {
        self.name = String::from_str(name);
        self.width = width;
        self.io_param = IOType::Input;
        Box::new(E::Ldc(self.clone()))
    }

    /// Makes the declaration an output port.
    pub fn output(&mut self, name: &str, width: i32) -> (r: Box<E>)
        ensures
            final(self)@ == (Signal {
                name: name@,
                width: width as int,
                role: IOType::Output,
                ..old(self)@
            }),
            r@ == Ast::Ident(final(self)@),
    {
        self.name = String::from_str(name);
        self.width = width;
        self.io_param = IOType::Output;
        Box::new(E::Ldc(self.clone()))
    }

    /// Makes the declaration a bidirectional port.
    pub fn inout(&mut self, name: &str, width: i32) -> (r: Box<E>)
        ensures
            final(self)@ == (Signal {
                name: name@,
                width: width as int,
                role: IOType::InOut,
                ..old(self)@
            }),
            r@ == Ast::Ident(final(self)@),
    {
        self.name = String::from_str(name);
        self.width = width;
        self.io_param = IOType::InOut;
        Box::new(E::Ldc(self.clone()))
    }

    /// Makes the declaration an output port that is a register.
    pub fn output_reg(&mut self, name: &str, width: i32) -> (r: Box<E>)
        ensures
            final(self)@ == (Signal {
                name: name@,
                width: width as int,
                role: IOType::Output,
                registered: true,
                ..old(self)@
            }),
            r@ == Ast::Ident(final(self)@),
    {
        self.name = String::from_str(name);
        self.io_param = IOType::Output;
        self.width = width;
        self.reg_set = true;
        Box::new(E::Ldc(self.clone()))
    }

    /// Makes the declaration a parameter with the given value.
    pub fn parameter(&mut self, name: &str, value: i32) -> (r: Box<E>)
        ensures
            final(self)@ == (Signal {
                name: name@,
                value: value as int,
                role: IOType::Param,
                ..old(self)@
            }),
            r@ == Ast::Ident(final(self)@),
    {
        self.name = String::from_str(name);
        self.value = value;
        self.io_param = IOType::Param;
        Box::new(E::Ldc(self.clone()))
    }

    /// Names a wire; the role stays as it was.
    pub fn wire(&mut self, name: &str, width: i32) -> (r: Box<E>)
        ensures
            final(self)@ == (Signal { name: name@, width: width as int, ..old(self)@ }),
            r@ == Ast::Ident(final(self)@),
    {
        self.name = String::from_str(name);
        self.width = width;
        Box::new(E::Ldc(self.clone()))
    }

    /// Names a register; the role stays as it was.
    pub fn reg(&mut self, name: &str, width: i32) -> (r: Box<E>)
        ensures
            final(self)@ == (Signal {
                name: name@,
                width: width as int,
                registered: true,
                ..old(self)@
            }),
            r@ == Ast::Ident(final(self)@),
    {
        self.name = String::from_str(name);
        self.width = width;
        self.reg_set = true;
        Box::new(E::Ldc(self.clone()))
    }

    /// Names a memory of `length` registers; the role stays as it was.
    pub fn mem(&mut self, name: &str, width: i32, length: i32) -> (r: Box<E>)
        ensures
            final(self)@ == (Signal {
                name: name@,
                width: width as int,
                length: length as int,
                registered: true,
                ..old(self)@
            }),
            r@ == Ast::Ident(final(self)@),
    {
        self.name = String::from_str(name);
        self.width = width;
        self.length = length;
        self.reg_set = true;
        Box::new(E::Ldc(self.clone()))
    }

    /// The declaration as an entry of the header's parameter list.
    pub fn print_as_param(&self) -> (r: String)
        ensures
            r@ == param_text(self@),
    {
        let mut st = String::from_str("parameter ");
        st.append(self.name.as_str());
        st.append(" = ");
        let v = decimal_text(self.value as i64);
        st.append(v.as_str());
        st
    }

    /// The header's parameter list.
    pub fn print_params(params: &[WireVar]) -> (r: String)
        ensures
            r@ == params_text(signals(params@)),
    {
        if params.len() == 0 {
            return String::new();
        }
        let mut st = String::from_str("#(\n");
        let ghost lines = signals(params@).map_values(|p: Signal| "    "@ + param_text(p));
        let mut i: usize = 0;
        while i < params.len()
            invariant
                i <= params.len(),
                lines == signals(params@).map_values(|p: Signal| "    "@ + param_text(p)),
                st@ == "#(\n"@ + join(lines.take(i as int), ",\n"@),
            decreases params.len() - i,
        {
            proof {
                lemma_join_push(lines.take(i as int), ",\n"@, lines[i as int]);
                assert(lines.take(i as int).push(lines[i as int]) =~= lines.take(i + 1));
            }
            if i > 0 {
                st.append(",\n");
            }
            st.append("    ");
            let p = params[i].print_as_param();
            st.append(p.as_str());
            assert(st@ =~= "#(\n"@ + join(lines.take(i + 1), ",\n"@));
            i = i + 1;
        }
        assert(lines.take(i as int) =~= lines);
        st.append("\n)");
        st
    }

    /// The declaration as an entry of the port list.
    pub fn print_as_port(&self) -> (r: String)
        requires
            is_port_role(self@.role),
        ensures
            r@ == port_text(self@),
    {
        let mut st = match self.io_param {
            IOType::Input => String::from_str("input  "),
            IOType::Output => String::from_str("output "),
            _ => String::from_str("inout "),
        };
        st.append("[");
        let w = decimal_text(self.width as i64);
        st.append(w.as_str());
        st.append("-1:0]");
        st.append(" ");
        st.append(self.name.as_str());
        st.append(" ");
        st.append("[");
        let l = decimal_text(self.length as i64);
        st.append(l.as_str());
        st.append("-1:0]");
        st
    }

    /// The port list.
    pub fn print_ports(ports: &[WireVar]) -> (r: String)
        requires
            forall|i: int| 0 <= i < ports@.len() ==> is_port_role((#[trigger] ports@[i])@.role),
        ensures
            r@ == ports_text(signals(ports@)),
    {
        if ports.len() == 0 {
            return String::new();
        }
        let mut st = String::from_str("(\n");
        let ghost lines = signals(ports@).map_values(|p: Signal| "    "@ + port_text(p));
        let mut i: usize = 0;
        while i < ports.len()
            invariant
                i <= ports.len(),
                forall|i: int| 0 <= i < ports@.len() ==> is_port_role((#[trigger] ports@[i])@.role),
                lines == signals(ports@).map_values(|p: Signal| "    "@ + port_text(p)),
                st@ == "(\n"@ + join(lines.take(i as int), ",\n"@),
            decreases ports.len() - i,
        {
            proof {
                lemma_join_push(lines.take(i as int), ",\n"@, lines[i as int]);
                assert(lines.take(i as int).push(lines[i as int]) =~= lines.take(i + 1));
            }
            if i > 0 {
                st.append(",\n");
            }
            st.append("    ");
            let p = ports[i].print_as_port();
            st.append(p.as_str());
            assert(st@ =~= "(\n"@ + join(lines.take(i + 1), ",\n"@));
            i = i + 1;
        }
        assert(lines.take(i as int) =~= lines);
        st.append("\n);\n");
        st
    }

    /// The declaration as a line inside the unit.
    pub fn print_as_local_param(&self) -> (r: String)
        ensures
            r@ == local_param_text(self@),
    {
        let mut st = String::from_str("parameter ");
        st.append(self.name.as_str());
        st.append(" = ");
        let v = decimal_text(self.value as i64);
        st.append(v.as_str());
        st.append(";");
        st
    }

    /// The block of declarations inside the unit.
    pub fn print_local_params(local_params: &[WireVar]) -> (r: String)
        ensures
            r@ == local_params_text(signals(local_params@)),
    {
        let mut st = String::new();
        let ghost lines = signals(local_params@).map_values(
            |p: Signal| "    "@ + local_param_text(p) + "\n"@,
        );
        let mut i: usize = 0;
        while i < local_params.len()
            invariant
                i <= local_params.len(),
                lines == signals(local_params@).map_values(
                    |p: Signal| "    "@ + local_param_text(p) + "\n"@,
                ),
                st@ == concat(lines.take(i as int)),
            decreases local_params.len() - i,
        {
            proof {
                lemma_concat_push(lines.take(i as int), lines[i as int]);
                assert(lines.take(i as int).push(lines[i as int]) =~= lines.take(i + 1));
            }
            let mut line = String::from_str("    ");
            let p = local_params[i].print_as_local_param();
            line.append(p.as_str());
            line.append("\n");
            st.append(line.as_str());
            i = i + 1;
        }
        assert(lines.take(i as int) =~= lines);
        st
    }
}

} // verus!
