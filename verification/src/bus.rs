//! Making a bus adapter part of a unit: the ports, wires and registers
//! that the adapter needs, and the connections between them.
use vstd::prelude::*;
use crate::ast::{Ast, IOType, Signal};
use crate::axi::{
    Axi4Slave, AxiLite, Bus, BurstAdapter, BusModel, MappedReg, RegisterAdapter,
};
use crate::expr::E;
use crate::fsm::encoded;
use crate::module::{bus_views, declare, declared, Unit, VModule, VSet};
use crate::process::{Connection, SetEqual};
use crate::signal::signals;
use crate::text::{decimal, decimal_text};
use crate::width::{byte_address_width, least_width, register_address_width, width_for};

verus! {

/// An input port of the given width.
pub open spec fn input_port(name: Seq<char>, width: int) -> Signal {
    declared(name, IOType::Input, false, Ast::Const(width))
}

/// An output port of the given width.
pub open spec fn output_port(name: Seq<char>, width: int) -> Signal {
    declared(name, IOType::Output, false, Ast::Const(width))
}

/// A wire of the given width inside the unit.
pub open spec fn local_wire(name: Seq<char>, width: int) -> Signal {
    declared(name, IOType::Local, false, Ast::Const(width))
}

/// A register of the given width inside the unit.
pub open spec fn local_reg(name: Seq<char>, width: int) -> Signal {
    declared(name, IOType::Local, true, Ast::Const(width))
}

/// The connection that drives one identifier from another.
pub open spec fn link(target: Signal, source: Signal) -> Connection {
    Connection { target: Ast::Ident(target), value: Ast::Ident(source) }
}

/// The connection that ties an identifier to zero.
pub open spec fn tie_low(target: Signal) -> Connection {
    Connection { target: Ast::Ident(target), value: Ast::Const(0) }
}

/// The ports of a register adapter with the number `n` and an address of
/// `w` bits: the five channels in the order read address, read data, write
/// address, write data, write response.
pub open spec fn lite_ports(n: Seq<char>, w: int) -> Seq<Signal> {
    seq![
        output_port("o_s_arready"@ + n, 0),
        input_port("i_s_arvalid"@ + n, 0),
        input_port("i_s_araddr"@ + n, w),
        input_port("i_s_arprot"@ + n, 3),
        output_port("o_s_rdata"@ + n, 32),
        output_port("o_s_rresp"@ + n, 2),
        output_port("o_s_rvalid"@ + n, 0),
        input_port("i_s_rready"@ + n, 0),
        output_port("o_s_awready"@ + n, 0),
        input_port("i_s_awvalid"@ + n, 0),
        input_port("i_s_awaddr"@ + n, w),
        input_port("i_s_awprot"@ + n, 3),
        input_port("i_s_wdata"@ + n, 32),
        input_port("i_s_wstrb"@ + n, 4),
        input_port("i_s_wvalid"@ + n, 0),
        output_port("o_s_wready"@ + n, 0),
        output_port("o_s_bresp"@ + n, 2),
        output_port("o_s_bvalid"@ + n, 0),
        input_port("i_s_bready"@ + n, 0),
    ]
}

/// The wires and registers that a register adapter works with.
pub open spec fn lite_locals(n: Seq<char>, w: int) -> Seq<Signal> {
    seq![
        local_reg("r_arready"@ + n, 0),
        local_wire("w_arvalid"@ + n, 0),
        local_reg("r_araddr"@ + n, w),
        local_reg("r_rdata"@ + n, 32),
        local_reg("r_rvalid"@ + n, 0),
        local_wire("w_rready"@ + n, 0),
        local_reg("r_awready"@ + n, 0),
        local_wire("w_awvalid"@ + n, 0),
        local_reg("r_awaddr"@ + n, w),
        local_wire("w_wdata"@ + n, 32),
        local_wire("r_wstrb"@ + n, 4),
        local_wire("w_wvalid"@ + n, 0),
        local_reg("r_wready"@ + n, 0),
        local_reg("r_bvalid"@ + n, 0),
        local_wire("w_bready"@ + n, 0),
    ]
}

/// The registers that a register adapter maps, as the unit declares them.
pub open spec fn lite_registers(regs: Seq<MappedReg>) -> Seq<Signal> {
    Seq::new(regs.len(), |k: int| local_reg(regs[k].signal.name, regs[k].signal.width))
}

/// The connections between the ports of a register adapter and the wires
/// and registers inside. Both response codes are tied to zero.
pub open spec fn lite_links(n: Seq<char>, w: int) -> Seq<Connection> {
    seq![
        link(output_port("o_s_arready"@ + n, 0), local_reg("r_arready"@ + n, 0)),
        link(local_wire("w_arvalid"@ + n, 0), input_port("i_s_arvalid"@ + n, 0)),
        link(output_port("o_s_rdata"@ + n, 32), local_reg("r_rdata"@ + n, 32)),
        tie_low(output_port("o_s_rresp"@ + n, 2)),
        link(output_port("o_s_rvalid"@ + n, 0), local_reg("r_rvalid"@ + n, 0)),
        link(local_wire("w_rready"@ + n, 0), input_port("i_s_rready"@ + n, 0)),
        link(output_port("o_s_awready"@ + n, 0), local_reg("r_awready"@ + n, 0)),
        link(local_wire("w_awvalid"@ + n, 0), input_port("i_s_awvalid"@ + n, 0)),
        link(local_wire("w_wdata"@ + n, 32), input_port("i_s_wdata"@ + n, 32)),
        link(local_wire("r_wstrb"@ + n, 4), input_port("i_s_wstrb"@ + n, 4)),
        link(local_wire("w_wvalid"@ + n, 0), input_port("i_s_wvalid"@ + n, 0)),
        link(output_port("o_s_wready"@ + n, 0), local_reg("r_wready"@ + n, 0)),
        tie_low(output_port("o_s_bresp"@ + n, 2)),
        link(output_port("o_s_bvalid"@ + n, 0), local_reg("r_bvalid"@ + n, 0)),
        link(local_wire("w_bready"@ + n, 0), input_port("i_s_bready"@ + n, 0)),
    ]
}

/// The unit with one more register adapter.
pub open spec fn with_lite(u: Unit, m: RegisterAdapter) -> Unit {
    let n = decimal(encoded(u.buses.len() as int));
    let w = byte_address_width(m.regs.len() as int) as int;
    Unit {
        ports: u.ports + lite_ports(n, w),
        locals: u.locals + lite_locals(n, w) + lite_registers(m.regs),
        assigns: u.assigns + lite_links(n, w),
        buses: u.buses.push(BusModel::Lite(m)),
        ..u
    }
}

/// The ports of a burst adapter with a byte address of `w` bits.
pub open spec fn slave_ports(w: int) -> Seq<Signal> {
    seq![
        input_port("i_saxi_arid"@, 0),
        output_port("o_saxi_arready"@, 0),
        input_port("i_saxi_arvalid"@, 0),
        input_port("i_saxi_araddr"@, w),
        input_port("i_saxi_arlen"@, 8),
        input_port("i_saxi_arburst"@, 2),
        output_port("o_saxi_rid"@, 0),
        output_port("o_saxi_rdata"@, 32),
        output_port("o_saxi_rresp"@, 2),
        output_port("o_saxi_rvalid"@, 0),
        input_port("i_saxi_rready"@, 0),
        output_port("o_saxi_rlast"@, 0),
        input_port("i_saxi_awid"@, 0),
        output_port("o_saxi_awready"@, 0),
        input_port("i_saxi_awvalid"@, 0),
        input_port("i_saxi_awaddr"@, w),
        input_port("i_saxi_awlen"@, 8),
        input_port("i_saxi_awburst"@, 2),
        input_port("i_saxi_wdata"@, 32),
        input_port("i_saxi_wstrb"@, 4),
        input_port("i_saxi_wlast"@, 0),
        input_port("i_saxi_wvalid"@, 0),
        output_port("o_saxi_wready"@, 0),
        output_port("o_saxi_bid"@, 0),
        output_port("o_saxi_bresp"@, 2),
        output_port("o_saxi_bvalid"@, 0),
        input_port("i_saxi_bready"@, 0),
    ]
}

/// The wires and registers that a burst adapter works with.
pub open spec fn slave_locals(w: int) -> Seq<Signal> {
    seq![
        local_reg("r_axi_awready"@, 0),
        local_wire("w_axi_awvalid"@, 0),
        local_reg("r_axi_awaddr"@, w),
        local_reg("r_axi_awlen"@, 8),
        local_wire("w_axi_wdata"@, 32),
        local_wire("w_axi_wlast"@, 0),
        local_wire("w_axi_wvalid"@, 0),
        local_reg("r_axi_wready"@, 0),
        local_reg("r_axi_bvalid"@, 0),
        local_wire("w_axi_bready"@, 0),
        local_reg("r_axi_arready"@, 0),
        local_wire("w_axi_arvalid"@, 0),
        local_reg("r_axi_araddr"@, 32),
        local_reg("r_axi_arlen"@, 8),
        local_reg("r_axi_rdata"@, 32),
        local_reg("r_axi_rvalid"@, 0),
        local_wire("w_axi_rready"@, 0),
        local_reg("r_axi_rlast"@, 0),
    ]
}

/// The signals of the port beside the bus. An adapter with a memory of its
/// own reads into a register; one without reads from a wire, which is
/// declared only where the caller supplied no read data.
pub open spec fn slave_side(m: BurstAdapter) -> Seq<Signal> {
    if m.internal {
        seq![
            local_wire("axis_write"@, 32),
            local_reg("axis_read"@, 32),
            local_wire("axis_addr"@, 32),
            local_wire("axis_wen"@, 0),
        ]
    } else if m.read_data is Null {
        seq![
            local_wire("axis_read"@, 32),
            local_wire("axis_write"@, 32),
            local_wire("axis_addr"@, 32),
            local_wire("axis_wen"@, 0),
        ]
    } else {
        seq![
            local_wire("axis_write"@, 32),
            local_wire("axis_addr"@, 32),
            local_wire("axis_wen"@, 0),
        ]
    }
}

/// The connections between the ports of a burst adapter and the wires and
/// registers inside. Both response codes are tied to zero, and the
/// transaction identifiers are handed back as they came.
pub open spec fn slave_links() -> Seq<Connection> {
    seq![
        link(output_port("o_saxi_rid"@, 0), input_port("i_saxi_arid"@, 0)),
        tie_low(output_port("o_saxi_rresp"@, 2)),
        link(output_port("o_saxi_rdata"@, 32), local_reg("r_axi_rdata"@, 32)),
        link(output_port("o_saxi_rvalid"@, 0), local_reg("r_axi_rvalid"@, 0)),
        link(local_wire("w_axi_rready"@, 0), input_port("i_saxi_rready"@, 0)),
        link(output_port("o_saxi_rlast"@, 0), local_reg("r_axi_rlast"@, 0)),
        link(output_port("o_saxi_arready"@, 0), local_reg("r_axi_arready"@, 0)),
        link(local_wire("w_axi_arvalid"@, 0), input_port("i_saxi_arvalid"@, 0)),
        link(local_wire("w_axi_wlast"@, 0), input_port("i_saxi_wlast"@, 0)),
        link(local_wire("w_axi_wvalid"@, 0), input_port("i_saxi_wvalid"@, 0)),
        link(output_port("o_saxi_wready"@, 0), local_reg("r_axi_wready"@, 0)),
        link(output_port("o_saxi_awready"@, 0), local_reg("r_axi_awready"@, 0)),
        link(local_wire("w_axi_awvalid"@, 0), input_port("i_saxi_awvalid"@, 0)),
        link(output_port("o_saxi_bvalid"@, 0), local_reg("r_axi_bvalid"@, 0)),
        link(local_wire("w_axi_bready"@, 0), input_port("i_saxi_bready"@, 0)),
        link(output_port("o_saxi_bid"@, 0), input_port("i_saxi_awid"@, 0)),
        tie_low(output_port("o_saxi_bresp"@, 2)),
    ]
}

/// The unit with one more burst adapter.
pub open spec fn with_slave(u: Unit, m: BurstAdapter) -> Unit {
    let w = least_width(4 * m.length - 1) as int;
    Unit {
        ports: u.ports + slave_ports(w),
        locals: u.locals + slave_locals(w) + slave_side(m),
        assigns: u.assigns + slave_links(),
        buses: u.buses.push(BusModel::Burst(m)),
        ..u
    }
}

/// Making a bus adapter part of a unit.
pub trait AXITrait<T> {
    /// Adds the adapter to the unit.
    fn axi(&mut self, adapter: T);
}

fn numbered(prefix: &str, n: &str) -> (r: String)
    ensures
        r@ == prefix@ + n@,
{
    let mut st = String::from_str(prefix);
    st.append(n);
    st
}

impl VModule {
    fn bus_input(&mut self, prefix: &str, n: &str, width: i32) -> (r: Box<E>)
        ensures
            final(self)@ == (Unit {
                ports: old(self)@.ports.push(input_port(prefix@ + n@, width as int)),
                ..old(self)@
            }),
            r@ == Ast::Ident(input_port(prefix@ + n@, width as int)),
    {
        let name = numbered(prefix, n);
        self.input(name.as_str(), width)
    }

    fn bus_output(&mut self, prefix: &str, n: &str, width: i32) -> (r: Box<E>)
        ensures
            final(self)@ == (Unit {
                ports: old(self)@.ports.push(output_port(prefix@ + n@, width as int)),
                ..old(self)@
            }),
            r@ == Ast::Ident(output_port(prefix@ + n@, width as int)),
    {
        let name = numbered(prefix, n);
        self.output(name.as_str(), width)
    }

    fn bus_wire(&mut self, prefix: &str, n: &str, width: i32) -> (r: Box<E>)
        ensures
            final(self)@ == (Unit {
                locals: old(self)@.locals.push(local_wire(prefix@ + n@, width as int)),
                ..old(self)@
            }),
            r@ == Ast::Ident(local_wire(prefix@ + n@, width as int)),
    {
        let name = numbered(prefix, n);
        self.wire(name.as_str(), width)
    }

    fn bus_reg(&mut self, prefix: &str, n: &str, width: i32) -> (r: Box<E>)
        ensures
            final(self)@ == (Unit {
                locals: old(self)@.locals.push(local_reg(prefix@ + n@, width as int)),
                ..old(self)@
            }),
            r@ == Ast::Ident(local_reg(prefix@ + n@, width as int)),
    {
        let name = numbered(prefix, n);
        self.reg(name.as_str(), width)
    }

    fn connect(&mut self, target: &Box<E>, source: Box<E>)
        ensures
            final(self)@ == (Unit {
                assigns: old(self)@.assigns.push(
                    Connection { target: target@, value: source@ },
                ),
                ..old(self)@
            }),
    {
        self.assign(target._e(source));
    }

    fn ground(&mut self, target: &Box<E>)
        ensures
            final(self)@ == (Unit {
                assigns: old(self)@.assigns.push(
                    Connection { target: target@, value: Ast::Const(0) },
                ),
                ..old(self)@
            }),
    {
        self.assign(target._e(0i32));
    }

    fn lite_declare(&mut self, n: &str, w: i32)
        ensures
            final(self)@ == (Unit {
                ports: old(self)@.ports + lite_ports(n@, w as int),
                locals: old(self)@.locals + lite_locals(n@, w as int),
                assigns: old(self)@.assigns + lite_links(n@, w as int),
                ..old(self)@
            }),
    {
        let o_arr = self.bus_output("o_s_arready", n, 0);
        let i_arv = self.bus_input("i_s_arvalid", n, 0);
        let _ = self.bus_input("i_s_araddr", n, w);
        let _ = self.bus_input("i_s_arprot", n, 3);
        let o_rda = self.bus_output("o_s_rdata", n, 32);
        let o_rsp = self.bus_output("o_s_rresp", n, 2);
        let o_rva = self.bus_output("o_s_rvalid", n, 0);
        let i_rre = self.bus_input("i_s_rready", n, 0);
        let o_awr = self.bus_output("o_s_awready", n, 0);
        let i_awv = self.bus_input("i_s_awvalid", n, 0);
        let _ = self.bus_input("i_s_awaddr", n, w);
        let _ = self.bus_input("i_s_awprot", n, 3);
        let i_wda = self.bus_input("i_s_wdata", n, 32);
        let i_wst = self.bus_input("i_s_wstrb", n, 4);
        let i_wva = self.bus_input("i_s_wvalid", n, 0);
        let o_wre = self.bus_output("o_s_wready", n, 0);
        let o_bre = self.bus_output("o_s_bresp", n, 2);
        let o_bva = self.bus_output("o_s_bvalid", n, 0);
        let i_bre = self.bus_input("i_s_bready", n, 0);
        assert(self@.ports =~= old(self)@.ports + lite_ports(n@, w as int));
        let r_arr = self.bus_reg("r_arready", n, 0);
        let w_arv = self.bus_wire("w_arvalid", n, 0);
        let _ = self.bus_reg("r_araddr", n, w);
        let r_rda = self.bus_reg("r_rdata", n, 32);
        let r_rva = self.bus_reg("r_rvalid", n, 0);
        let w_rre = self.bus_wire("w_rready", n, 0);
        let r_awr = self.bus_reg("r_awready", n, 0);
        let w_awv = self.bus_wire("w_awvalid", n, 0);
        let _ = self.bus_reg("r_awaddr", n, w);
        let w_wda = self.bus_wire("w_wdata", n, 32);
        let w_wst = self.bus_wire("r_wstrb", n, 4);
        let w_wva = self.bus_wire("w_wvalid", n, 0);
        let r_wre = self.bus_reg("r_wready", n, 0);
        let r_bva = self.bus_reg("r_bvalid", n, 0);
        let w_bre = self.bus_wire("w_bready", n, 0);
        assert(self@.locals =~= old(self)@.locals + lite_locals(n@, w as int));
        self.connect(&o_arr, r_arr);
        self.connect(&w_arv, i_arv);
        self.connect(&o_rda, r_rda);
        self.ground(&o_rsp);
        self.connect(&o_rva, r_rva);
        self.connect(&w_rre, i_rre);
        self.connect(&o_awr, r_awr);
        self.connect(&w_awv, i_awv);
        self.connect(&w_wda, i_wda);
        self.connect(&w_wst, i_wst);
        self.connect(&w_wva, i_wva);
        self.connect(&o_wre, r_wre);
        self.ground(&o_bre);
        self.connect(&o_bva, r_bva);
        self.connect(&w_bre, i_bre);
        assert(self@.assigns =~= old(self)@.assigns + lite_links(n@, w as int));
    }
}

impl AXITrait<AxiLite> for VModule {
    /// Adds a register adapter to the unit: its ports, the wires and
    /// registers inside, the connections between them, and the mapped
    /// registers themselves. The adapter is numbered by its place among
    /// the buses of the unit.
    fn axi(&mut self, adapter: AxiLite)
        ensures
            final(self)@ == with_lite(old(self)@, adapter@),
    {
        let place = self.axi.len();
        let number: i32 = if place <= i32::MAX as usize {
            place as i32
        } else {
            i32::MAX
        };
        let n = decimal_text(number as i64);
        let w = register_address_width(adapter.regs.len());
        self.lite_declare(n.as_str(), w);
        let ghost base = self@.locals;
        let ghost regs = lite_registers(adapter@.regs);
        assert(base + regs.take(0) =~= base);
        let mut k: usize = 0;
        while k < adapter.regs.len()
            invariant
                k <= adapter.regs.len(),
                regs == lite_registers(adapter@.regs),
                self@ == (Unit { locals: base + regs.take(k as int), ..self@ }),
                self@.ports == old(self)@.ports + lite_ports(n@, w as int),
                self@.assigns == old(self)@.assigns + lite_links(n@, w as int),
                self@.name == old(self)@.name,
                self@.params == old(self)@.params,
                self@.processes == old(self)@.processes,
                self@.funcs == old(self)@.funcs,
                self@.fsms == old(self)@.fsms,
                self@.buses == old(self)@.buses,
                self@.inline == old(self)@.inline,
            decreases adapter.regs.len() - k,
        {
            assert(adapter@.regs[k as int] == adapter.regs@[k as int]@);
            let _ = self.reg(adapter.regs[k].reg.name.as_str(), adapter.regs[k].reg.width);
            assert(base + regs.take(k + 1) =~= (base + regs.take(k as int)).push(regs[k as int]));
            k = k + 1;
        }
        assert(regs.take(k as int) =~= regs);
        let ghost model = adapter@;
        let ghost before = bus_views(self.axi@);
        self.axi.push(Bus::AxiLite(adapter));
        assert(bus_views(self.axi@) =~= before.push(BusModel::Lite(model)));
    }
}

fn port_in(name: &str, width: i32) -> (r: Box<E>)
    ensures
        r@ == Ast::Ident(input_port(name@, width as int)),
{
    Box::new(E::Ldc(declare(name, IOType::Input, false, width)))
}

fn port_out(name: &str, width: i32) -> (r: Box<E>)
    ensures
        r@ == Ast::Ident(output_port(name@, width as int)),
{
    Box::new(E::Ldc(declare(name, IOType::Output, false, width)))
}

fn inner_wire(name: &str, width: i32) -> (r: Box<E>)
    ensures
        r@ == Ast::Ident(local_wire(name@, width as int)),
{
    Box::new(E::Ldc(declare(name, IOType::Local, false, width)))
}

fn inner_reg(name: &str, width: i32) -> (r: Box<E>)
    ensures
        r@ == Ast::Ident(local_reg(name@, width as int)),
{
    Box::new(E::Ldc(declare(name, IOType::Local, true, width)))
}

impl VModule {
    fn slave_declare_ports(&mut self, w: i32)
        ensures
            final(self)@ == (Unit {
                ports: old(self)@.ports + slave_ports(w as int),
                ..old(self)@
            }),
    {
        let _ = self.input("i_saxi_arid", 0i32);
        let _ = self.output("o_saxi_arready", 0i32);
        let _ = self.input("i_saxi_arvalid", 0i32);
        let _ = self.input("i_saxi_araddr", w);
        let _ = self.input("i_saxi_arlen", 8i32);
        let _ = self.input("i_saxi_arburst", 2i32);
        let _ = self.output("o_saxi_rid", 0i32);
        let _ = self.output("o_saxi_rdata", 32i32);
        let _ = self.output("o_saxi_rresp", 2i32);
        let _ = self.output("o_saxi_rvalid", 0i32);
        let _ = self.input("i_saxi_rready", 0i32);
        let _ = self.output("o_saxi_rlast", 0i32);
        let _ = self.input("i_saxi_awid", 0i32);
        let _ = self.output("o_saxi_awready", 0i32);
        let _ = self.input("i_saxi_awvalid", 0i32);
        let _ = self.input("i_saxi_awaddr", w);
        let _ = self.input("i_saxi_awlen", 8i32);
        let _ = self.input("i_saxi_awburst", 2i32);
        let _ = self.input("i_saxi_wdata", 32i32);
        let _ = self.input("i_saxi_wstrb", 4i32);
        let _ = self.input("i_saxi_wlast", 0i32);
        let _ = self.input("i_saxi_wvalid", 0i32);
        let _ = self.output("o_saxi_wready", 0i32);
        let _ = self.output("o_saxi_bid", 0i32);
        let _ = self.output("o_saxi_bresp", 2i32);
        let _ = self.output("o_saxi_bvalid", 0i32);
        let _ = self.input("i_saxi_bready", 0i32);
        assert(self@.ports =~= old(self)@.ports + slave_ports(w as int));
    }

    fn slave_declare_locals(&mut self, w: i32)
        ensures
            final(self)@ == (Unit {
                locals: old(self)@.locals + slave_locals(w as int),
                ..old(self)@
            }),
    {
        let _ = self.reg("r_axi_awready", 0i32);
        let _ = self.wire("w_axi_awvalid", 0i32);
        let _ = self.reg("r_axi_awaddr", w);
        let _ = self.reg("r_axi_awlen", 8i32);
        let _ = self.wire("w_axi_wdata", 32i32);
        let _ = self.wire("w_axi_wlast", 0i32);
        let _ = self.wire("w_axi_wvalid", 0i32);
        let _ = self.reg("r_axi_wready", 0i32);
        let _ = self.reg("r_axi_bvalid", 0i32);
        let _ = self.wire("w_axi_bready", 0i32);
        let _ = self.reg("r_axi_arready", 0i32);
        let _ = self.wire("w_axi_arvalid", 0i32);
        let _ = self.reg("r_axi_araddr", 32i32);
        let _ = self.reg("r_axi_arlen", 8i32);
        let _ = self.reg("r_axi_rdata", 32i32);
        let _ = self.reg("r_axi_rvalid", 0i32);
        let _ = self.wire("w_axi_rready", 0i32);
        let _ = self.reg("r_axi_rlast", 0i32);
        assert(self@.locals =~= old(self)@.locals + slave_locals(w as int));
    }

    fn slave_declare_links(&mut self)
        ensures
            final(self)@ == (Unit { assigns: old(self)@.assigns + slave_links(), ..old(self)@ }),
    {
        self.connect(&port_out("o_saxi_rid", 0), port_in("i_saxi_arid", 0));
        self.ground(&port_out("o_saxi_rresp", 2));
        self.connect(&port_out("o_saxi_rdata", 32), inner_reg("r_axi_rdata", 32));
        self.connect(&port_out("o_saxi_rvalid", 0), inner_reg("r_axi_rvalid", 0));
        self.connect(&inner_wire("w_axi_rready", 0), port_in("i_saxi_rready", 0));
        self.connect(&port_out("o_saxi_rlast", 0), inner_reg("r_axi_rlast", 0));
        self.connect(&port_out("o_saxi_arready", 0), inner_reg("r_axi_arready", 0));
        self.connect(&inner_wire("w_axi_arvalid", 0), port_in("i_saxi_arvalid", 0));
        self.connect(&inner_wire("w_axi_wlast", 0), port_in("i_saxi_wlast", 0));
        self.connect(&inner_wire("w_axi_wvalid", 0), port_in("i_saxi_wvalid", 0));
        self.connect(&port_out("o_saxi_wready", 0), inner_reg("r_axi_wready", 0));
        self.connect(&port_out("o_saxi_awready", 0), inner_reg("r_axi_awready", 0));
        self.connect(&inner_wire("w_axi_awvalid", 0), port_in("i_saxi_awvalid", 0));
        self.connect(&port_out("o_saxi_bvalid", 0), inner_reg("r_axi_bvalid", 0));
        self.connect(&inner_wire("w_axi_bready", 0), port_in("i_saxi_bready", 0));
        self.connect(&port_out("o_saxi_bid", 0), port_in("i_saxi_awid", 0));
        self.ground(&port_out("o_saxi_bresp", 2));
        assert(self@.assigns =~= old(self)@.assigns + slave_links());
    }

    fn slave_declare(&mut self, w: i32)
        ensures
            final(self)@ == (Unit {
                ports: old(self)@.ports + slave_ports(w as int),
                locals: old(self)@.locals + slave_locals(w as int),
                assigns: old(self)@.assigns + slave_links(),
                ..old(self)@
            }),
    {
        self.slave_declare_ports(w);
        self.slave_declare_locals(w);
        self.slave_declare_links();
    }

    fn slave_side_declare(&mut self, adapter: &Axi4Slave)
        ensures
            final(self)@ == (Unit {
                locals: old(self)@.locals + slave_side(adapter@),
                ..old(self)@
            }),
    {
        if adapter.mem {
            let _ = self.wire("axis_write", 32i32);
            let _ = self.reg("axis_read", 32i32);
            let _ = self.wire("axis_addr", 32i32);
            let _ = self.wire("axis_wen", 0i32);
        } else {
            if let E::Null = *adapter.rdata {
                let _ = self.wire("axis_read", 32i32);
            }
            let _ = self.wire("axis_write", 32i32);
            let _ = self.wire("axis_addr", 32i32);
            let _ = self.wire("axis_wen", 0i32);
        }
        assert(self@.locals =~= old(self)@.locals + slave_side(adapter@));
    }
}

impl AXITrait<Axi4Slave> for VModule {
    /// Adds a burst adapter to the unit: its ports, the wires and
    /// registers inside, the port beside the bus, and the connections.
    fn axi(&mut self, adapter: Axi4Slave)
        ensures
            final(self)@ == with_slave(old(self)@, adapter@),
    {
        let w = width_for(4 * (adapter.length as i128) - 1);
        self.slave_declare(w);
        let ghost mid = self@;
        self.slave_side_declare(&adapter);
        let ghost model = adapter@;
        let ghost before = bus_views(self.axi@);
        self.axi.push(Bus::AxiSlave(adapter));
        assert(bus_views(self.axi@) =~= before.push(BusModel::Burst(model)));
    }
}

} // verus!
