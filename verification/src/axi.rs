//! Bus adapters: the register-mapped adapter and the burst-capable memory
//! adapter, their configuration and their text.
use vstd::prelude::*;
use crate::ast::{blank_signal, Ast, Signal};
use crate::builder::{name_of, name_text, Operand};
use crate::error::ModelError;
use crate::expr::{clone_expr, E};
use crate::render::{emit, text};
use crate::signal::WireVar;
use crate::template::{
    LITE_OPENING, LITE_READ_CLOSE, LITE_READ_ENABLE, LITE_READ_OPEN, LITE_RESPONSE,
    LITE_WRITE_CASE_CLOSE, LITE_WRITE_CLOSE, LITE_WRITE_DEFAULT, LITE_WRITE_HANDSHAKE,
    LITE_WRITE_OPEN, LITE_WRITE_SELECT, SLAVE_ADDRESS_SELECT, SLAVE_ARADDR,
    SLAVE_ARADDR_HEADING, SLAVE_ARREADY, SLAVE_ARREADY_HEADING, SLAVE_AWADDR,
    SLAVE_AWADDR_HEADING, SLAVE_AWREADY, SLAVE_AWREADY_HEADING, SLAVE_BVALID,
    SLAVE_BVALID_HEADING, SLAVE_FLAGS, SLAVE_HEADING, SLAVE_MEMORY_READ, SLAVE_MEMORY_WRITE,
    SLAVE_READ_CLOSE, SLAVE_READ_DEFAULT, SLAVE_READ_OPEN, SLAVE_RVALID, SLAVE_RVALID_HEADING,
    SLAVE_STROBES, SLAVE_WREADY, SLAVE_WREADY_HEADING, SLAVE_WRITE_ENABLE,
};
use crate::text::{
    concat, decimal, decimal_text, fill, filled, hex2, hex2_text, lemma_concat_push,
};
use crate::width::{byte_address_width, least_width, register_address_width, width_for};

verus! {

/// One register of a register-mapped adapter, with the local write that
/// may drive it. An enable of `Ast::Null` means that the register has no
/// local write.
pub struct MappedReg {
    pub signal: Signal,
    pub enable: Ast,
    pub data: Ast,
}

/// The configuration of a register-mapped adapter.
pub struct RegisterAdapter {
    pub clk: Ast,
    pub rst: Ast,
    pub regs: Seq<MappedReg>,
    /// The place of the register that a local write is given to.
    pub current: int,
}

/// The configuration of a burst-capable memory adapter.
pub struct BurstAdapter {
    pub clk: Ast,
    pub rst: Ast,
    /// The number of 32-bit words behind the adapter.
    pub length: int,
    /// Whether the adapter holds the memory itself.
    pub internal: bool,
    /// The read data that the caller supplies; `Ast::Null` for none.
    pub read_data: Ast,
}

/// The configuration of a bus adapter of either kind.
pub enum BusModel {
    Lite(RegisterAdapter),
    Burst(BurstAdapter),
}

/// The register that a name and a width of 32 bits make.
pub open spec fn register_signal(name: Seq<char>) -> Signal {
    Signal { name: name, width: 32, registered: true, ..blank_signal() }
}

/// The wire that a name and a width make.
pub open spec fn wire_signal(name: Seq<char>, width: int) -> Signal {
    Signal { name: name, width: width, ..blank_signal() }
}

/// The name of the register with the given number among those that are
/// named by number.
pub open spec fn numbered_name(index: int) -> Seq<char> {
    "slv_reg"@ + decimal(index)
}

/// A register that no local write drives yet.
pub open spec fn plain_reg(signal: Signal) -> MappedReg {
    MappedReg { signal: signal, enable: Ast::Null, data: Ast::Null }
}

/// The first lines of a clocked process of a register adapter: the clock
/// edge and the reset test. One process writes `always` without a blank
/// after it.
pub open spec fn lite_process_head(clk: Seq<char>, rst: Seq<char>, spaced: bool) -> Seq<char> {
    (if spaced {
        "    always @( posedge "@
    } else {
        "    always@( posedge "@
    }) + clk + " ) begin\n"@ + "        if( "@ + rst + " ) begin\n"@
}

/// The line that clears a register on reset.
pub open spec fn reset_line(name: Seq<char>) -> Seq<char> {
    "            "@ + name + " <= 32'd0;\n"@
}

/// The line that writes one byte lane of a register where its strobe bit
/// is set.
pub open spec fn strobe_line(name: Seq<char>, n: Seq<char>, lane: int) -> Seq<char> {
    "                        if ( r_wstrb"@ + n + "["@ + decimal(lane) + "] == 1'b1 ) "@ + name
        + " <= w_wdata"@ + n + "["@ + decimal(8 * (lane + 1) - 1) + ":"@ + decimal(8 * lane)
        + "];\n"@
}

/// The clause of the write case statement for the register at `index`: its
/// word address as label, and its four byte lanes.
pub open spec fn write_clause(name: Seq<char>, index: int, n: Seq<char>, width: int) -> Seq<
    char,
> {
    "                    "@ + decimal(width - 2) + "'h"@ + hex2(index as nat) + " : begin\n"@
        + strobe_line(name, n, 0) + strobe_line(name, n, 1) + strobe_line(name, n, 2)
        + strobe_line(name, n, 3) + "                    end\n"@
}

/// The line that keeps a register as it is.
pub open spec fn hold_line(name: Seq<char>) -> Seq<char> {
    "                        "@ + name + " <= "@ + name + ";\n"@
}

/// The local write of a register: where its enable holds, the register
/// takes its data. Nothing for a register without a local write.
pub open spec fn local_write(reg: MappedReg) -> Seq<char> {
    if reg.enable is Null {
        Seq::empty()
    } else {
        "\n            if( "@ + text(reg.enable, false, false, 0) + " ) begin \n"@
            + "                    "@ + reg.signal.name + " <= "@ + text(
            reg.data,
            false,
            false,
            0,
        ) + ";\n"@ + "            end\n"@
    }
}

/// The clause of the read case statement for the register at `index`.
pub open spec fn read_clause(name: Seq<char>, index: int, n: Seq<char>, width: int) -> Seq<
    char,
> {
    "                    "@ + decimal(width - 2) + "'h"@ + hex2(index as nat) + " : r_rdata"@ + n
        + " <= "@ + name + ";\n"@
}

/// The reset lines of all registers, in their order.
pub open spec fn reset_lines(regs: Seq<MappedReg>) -> Seq<Seq<char>> {
    Seq::new(regs.len(), |k: int| reset_line(regs[k].signal.name))
}

/// The write clauses of all registers, in their order.
pub open spec fn write_clauses(regs: Seq<MappedReg>, n: Seq<char>, width: int) -> Seq<
    Seq<char>,
> {
    Seq::new(regs.len(), |k: int| write_clause(regs[k].signal.name, k, n, width))
}

/// The hold lines of all registers, in their order.
pub open spec fn hold_lines(regs: Seq<MappedReg>) -> Seq<Seq<char>> {
    Seq::new(regs.len(), |k: int| hold_line(regs[k].signal.name))
}

/// The local writes of all registers, in their order.
pub open spec fn local_writes(regs: Seq<MappedReg>) -> Seq<Seq<char>> {
    Seq::new(regs.len(), |k: int| local_write(regs[k]))
}

/// The read clauses of all registers, in their order.
pub open spec fn read_clauses(regs: Seq<MappedReg>, n: Seq<char>, width: int) -> Seq<Seq<char>> {
    Seq::new(regs.len(), |k: int| read_clause(regs[k].signal.name, k, n, width))
}

/// The write side of a register adapter: the handshake with its acceptance flag, and
/// the process that writes the registers, from the bus by byte lanes or by
/// their local writes.
pub open spec fn lite_write_text(m: RegisterAdapter, n: Seq<char>) -> Seq<char> {
    let clk = name_of(m.clk);
    let rst = name_of(m.rst);
    let width = byte_address_width(m.regs.len() as int) as int;
    fill(LITE_OPENING@, n) + lite_process_head(clk, rst, true) + fill(LITE_WRITE_HANDSHAKE@, n)
        + lite_process_head(clk, rst, false) + concat(reset_lines(m.regs)) + fill(
        LITE_WRITE_OPEN@,
        n,
    ) + decimal(width - 1) + LITE_WRITE_SELECT@ + concat(write_clauses(m.regs, n, width))
        + LITE_WRITE_DEFAULT@ + concat(hold_lines(m.regs)) + LITE_WRITE_CASE_CLOSE@ + concat(
        local_writes(m.regs),
    ) + LITE_WRITE_CLOSE@
}

/// The read side of a register adapter: the response and read-address
/// handshake, and the process that selects the addressed register. The
/// case statement has one clause for each register and a default clause
/// for every other address.
pub open spec fn lite_read_text(m: RegisterAdapter, n: Seq<char>) -> Seq<char> {
    let clk = name_of(m.clk);
    let rst = name_of(m.rst);
    let width = byte_address_width(m.regs.len() as int) as int;
    lite_process_head(clk, rst, true) + fill(LITE_RESPONSE@, n) + fill(LITE_READ_ENABLE@, n)
        + lite_process_head(clk, rst, true) + fill(LITE_READ_OPEN@, n) + decimal(width - 1)
        + ":2] )\n"@ + concat(read_clauses(m.regs, n, width)) + fill(LITE_READ_CLOSE@, n)
}

/// The text of a register adapter that is the `count`-th bus of its unit.
pub open spec fn lite_text(m: RegisterAdapter, count: int) -> Seq<char> {
    lite_write_text(m, decimal(count)) + lite_read_text(m, decimal(count))
}

/// A clocked process of a burst adapter: its heading, the clock edge, the
/// reset test and the body.
pub open spec fn slave_process(
    heading: Seq<char>,
    clk: Seq<char>,
    rst: Seq<char>,
    body: Seq<char>,
) -> Seq<char> {
    heading + "    always @( posedge "@ + clk + " ) begin\n"@ + "        if ( "@ + rst
        + " ) begin\n"@ + body
}

/// The part of a burst adapter that stores what is written: a memory of
/// its own, or the signals that hand the write to the outside.
pub open spec fn slave_store_text(m: BurstAdapter, top: Seq<char>) -> Seq<char> {
    if m.internal {
        "    reg [31:0] axi_mem [0:"@ + decimal(m.length - 1) + "];\n"@
            + "    always @( posedge "@ + name_of(m.clk) + " ) begin\n"@ + SLAVE_MEMORY_WRITE@
    } else {
        SLAVE_WRITE_ENABLE@ + fill(SLAVE_ADDRESS_SELECT@, top)
    }
}

/// The part of a burst adapter that fetches what is read: from its own
/// memory, or from the read data that the caller supplied, or from the
/// register that the caller fills.
pub open spec fn slave_fetch_text(m: BurstAdapter, top: Seq<char>) -> Seq<char> {
    if m.internal {
        "\n"@ + "    always @( posedge "@ + name_of(m.clk) + " ) begin\n"@ + fill(
            SLAVE_MEMORY_READ@,
            top,
        )
    } else {
        SLAVE_READ_OPEN@ + (if m.read_data is Null {
            SLAVE_READ_DEFAULT@
        } else {
            "        r_axi_rdata <= "@ + name_of(m.read_data) + ";\n"@
        }) + SLAVE_READ_CLOSE@
    }
}

/// The text of a burst adapter after its first line, for a word address of
/// `width` bits.
pub open spec fn slave_body_text(m: BurstAdapter, width: int) -> Seq<char> {
    let clk = name_of(m.clk);
    let rst = name_of(m.rst);
    let top = decimal(width + 1);
    SLAVE_FLAGS@ + slave_store_text(m, top) + slave_process(
        SLAVE_AWREADY_HEADING@,
        clk,
        rst,
        SLAVE_AWREADY@,
    ) + slave_process(SLAVE_AWADDR_HEADING@, clk, rst, fill(SLAVE_AWADDR@, top)) + slave_process(
        SLAVE_WREADY_HEADING@,
        clk,
        rst,
        SLAVE_WREADY@,
    ) + slave_process(SLAVE_BVALID_HEADING@, clk, rst, SLAVE_BVALID@) + slave_process(
        SLAVE_ARREADY_HEADING@,
        clk,
        rst,
        SLAVE_ARREADY@,
    ) + slave_process(SLAVE_ARADDR_HEADING@, clk, rst, fill(SLAVE_ARADDR@, top)) + slave_process(
        SLAVE_RVALID_HEADING@,
        clk,
        rst,
        SLAVE_RVALID@,
    ) + SLAVE_STROBES@ + slave_fetch_text(m, top)
}

/// The text of a burst adapter. Its word address is as wide as the number
/// of words asks for.
pub open spec fn slave_text(m: BurstAdapter) -> Seq<char> {
    SLAVE_HEADING@ + slave_body_text(m, least_width(m.length) as int)
}

/// The text of a bus adapter that is the `count`-th bus of its unit.
pub open spec fn bus_text(b: BusModel, count: int) -> Seq<char> {
    match b {
        BusModel::Lite(m) => lite_text(m, count),
        BusModel::Burst(m) => slave_text(m),
    }
}

/// One register of a register-mapped adapter.
#[derive(Debug)]
pub struct AxiReg {
    pub(crate) reg: WireVar,
    pub(crate) write_en: Box<E>,
    pub(crate) write_data: Box<E>,
}

impl View for AxiReg {
    type V = MappedReg;

    open(crate) spec fn view(&self) -> MappedReg {
        MappedReg { signal: self.reg@, enable: self.write_en@, data: self.write_data@ }
    }
}

impl Clone for AxiReg {
    fn clone(&self) -> (r: Self)
        ensures
            r@ == self@,
    {
        AxiReg {
            reg: self.reg.clone(),
            write_en: Box::new(clone_expr(&self.write_en)),
            write_data: Box::new(clone_expr(&self.write_data)),
        }
    }
}

/// The registers that a list of register entries stands for.
pub open spec fn mapped(regs: Seq<AxiReg>) -> Seq<MappedReg> {
    regs.map_values(|r: AxiReg| r@)
}

/// A stream adapter. It carries no configuration.
#[derive(Debug, Clone, Copy)]
pub struct AxiStream;

/// A master-side adapter. It carries no configuration.
#[derive(Debug, Clone, Copy)]
pub struct AxiMaster;

/// A register-mapped adapter: 32-bit registers behind a word-aligned,
/// byte-strobed bus interface.
#[derive(Debug)]
pub struct AxiLite {
    pub(crate) clk: Box<E>,
    pub(crate) rst: Box<E>,
    pub(crate) regs: Vec<AxiReg>,
    pub(crate) current_reg: i128,
}

impl View for AxiLite {
    type V = RegisterAdapter;

    open(crate) spec fn view(&self) -> RegisterAdapter {
        RegisterAdapter {
            clk: self.clk@,
            rst: self.rst@,
            regs: mapped(self.regs@),
            current: self.current_reg as int,
        }
    }
}

impl Clone for AxiLite {
    fn clone(&self) -> (r: Self)
        ensures
            r@ == self@,
    {
        let regs = self.regs.clone();
        assert(mapped(regs@) =~= mapped(self.regs@));
        AxiLite {
            clk: Box::new(clone_expr(&self.clk)),
            rst: Box::new(clone_expr(&self.rst)),
            regs: regs,
            current_reg: self.current_reg,
        }
    }
}

/// A burst-capable memory adapter.
#[derive(Debug)]
pub struct Axi4Slave {
    pub(crate) clk: Box<E>,
    pub(crate) rst: Box<E>,
    pub(crate) length: i32,
    pub(crate) mem: bool,
    pub(crate) rdata: Box<E>,
}

impl View for Axi4Slave {
    type V = BurstAdapter;

    open(crate) spec fn view(&self) -> BurstAdapter {
        BurstAdapter {
            clk: self.clk@,
            rst: self.rst@,
            length: self.length as int,
            internal: self.mem,
            read_data: self.rdata@,
        }
    }
}

impl Clone for Axi4Slave {
    fn clone(&self) -> (r: Self)
        ensures
            r@ == self@,
    {
        Axi4Slave {
            clk: Box::new(clone_expr(&self.clk)),
            rst: Box::new(clone_expr(&self.rst)),
            length: self.length,
            mem: self.mem,
            rdata: Box::new(clone_expr(&self.rdata)),
        }
    }
}

/// A bus adapter of either kind, as a unit holds it.
#[derive(Debug)]
pub enum Bus {
    AxiLite(AxiLite),
    AxiSlave(Axi4Slave),
}

impl View for Bus {
    type V = BusModel;

    open spec fn view(&self) -> BusModel {
        match self {
            Bus::AxiLite(x) => BusModel::Lite(x@),
            Bus::AxiSlave(x) => BusModel::Burst(x@),
        }
    }
}

impl Clone for Bus {
    fn clone(&self) -> (r: Self)
        ensures
            r@ == self@,
    {
        match self {
            Bus::AxiLite(x) => Bus::AxiLite(x.clone()),
            Bus::AxiSlave(x) => Bus::AxiSlave(x.clone()),
        }
    }
}

/// The registers that are named by number, from zero up to `num`.
pub open spec fn numbered_regs(num: int) -> Seq<MappedReg> {
    Seq::new(
        (if num > 0 {
            num
        } else {
            0
        }) as nat,
        |x: int| plain_reg(register_signal(numbered_name(x))),
    )
}

/// The first register with the given name, as an expression; nothing where
/// no register has that name.
pub open spec fn find_reg(regs: Seq<MappedReg>, name: Seq<char>) -> Ast
    decreases regs.len(),
{
    if regs.len() == 0 {
        Ast::Null
    } else if regs[0].signal.name == name {
        Ast::Ident(regs[0].signal)
    } else {
        find_reg(regs.drop_first(), name)
    }
}

/// Giving numbered registers to an adapter.
pub trait AxiSlaveReg<T> {
    /// Gives the adapter `num` registers.
    fn order_reg_set(&mut self, num: i32) -> T;
}

/// Driving a register of an adapter from inside the unit.
pub trait AxiSlaveLocalWrite<T, U> where T: Operand, U: Operand {
    /// Gives the current register a local write: where `write_en` holds
    /// the register takes `write_data`.
    fn reg_write(&mut self, write_en: U, write_data: T) -> Result<(), ModelError>;
}

/// The signals that a burst adapter hands to the unit round it.
pub trait AXIStreamRegCtrl {
    /// The write data.
    fn write(&mut self) -> Box<E>;

    /// The word address.
    fn addr(&mut self) -> Box<E>;

    /// The write enable.
    fn wen(&mut self) -> Box<E>;

    /// Makes the adapter hold its memory itself, and gives the port beside
    /// the bus: read data, write data, write enable and address.
    fn mem_if(&mut self) -> (Box<E>, Box<E>, Box<E>, Box<E>);
}

/// Supplying the read data of a burst adapter.
pub trait AxiSlaveReadcontrol<T> where T: Operand {
    /// Makes `rdata` the read data of the adapter.
    fn read(&mut self, rdata: T) -> Axi4Slave;
}

impl AxiLite {
    /// An adapter without registers.
    pub fn new<T: Operand, U: Operand>(clock: T, reset: U) -> (r: AxiLite)
        ensures
            r@ == (RegisterAdapter {
                clk: clock.ast(),
                rst: reset.ast(),
                regs: Seq::empty(),
                current: 0,
            }),
    {
        let r = AxiLite { clk: clock.expr(), rst: reset.expr(), regs: Vec::new(), current_reg: 0 };
        assert(mapped(r.regs@) =~= Seq::empty());
        r
    }

    /// Adds a register with the given name and makes it the current one.
    pub fn named_reg_set(&mut self, name: &str) -> (r: AxiLite)
        ensures
            final(self)@ == (RegisterAdapter {
                regs: old(self)@.regs.push(plain_reg(register_signal(name@))),
                current: old(self)@.regs.len() as int,
                ..old(self)@
            }),
            r@ == final(self)@,
    {
        let mut w = WireVar::new();
        let _ = w.reg(name, 32);
        let at = self.regs.len();
        self.regs.push(
            AxiReg { reg: w, write_en: Box::new(E::Null), write_data: Box::new(E::Null) },
        );
        self.current_reg = at as i128;
        assert(mapped(self.regs@) =~= mapped(old(self).regs@).push(
            plain_reg(register_signal(name@)),
        ));
        self.clone()
    }

    /// The first register with the given name, as an expression; nothing
    /// where no register has that name.
    pub fn named_reg(&self, name: &str) -> (r: Box<E>)
        ensures
            r@ == find_reg(self@.regs, name@),
    {
        let mut i: usize = 0;
        assert(mapped(self.regs@).skip(0) =~= mapped(self.regs@));
        while i < self.regs.len()
            invariant
                i <= self.regs.len(),
                find_reg(mapped(self.regs@), name@) == find_reg(
                    mapped(self.regs@).skip(i as int),
                    name@,
                ),
            decreases self.regs.len() - i,
        {
            let ghost rest = mapped(self.regs@).skip(i as int);
            assert(rest.drop_first() =~= mapped(self.regs@).skip(i + 1));
            assert(rest[0] == self.regs@[i as int]@);
            if crate::text::same_text(self.regs[i].reg.name.as_str(), name) {
                return Box::new(E::Ldc(self.regs[i].reg.clone()));
            }
            i = i + 1;
        }
        Box::new(E::Null)
    }

    /// The number of registers.
    pub fn reg_count(&self) -> (r: usize)
        ensures
            r == self@.regs.len(),
    {
        self.regs.len()
    }

    /// The register at the given place, as an expression.
    pub fn order_reg(&self, num: i32) -> (r: Box<E>)
        requires
            0 <= num < self@.regs.len(),
        ensures
            r@ == Ast::Ident(self@.regs[num as int].signal),
    {
        Box::new(E::Ldc(self.regs[num as usize].reg.clone()))
    }
}

impl AxiSlaveReg<AxiLite> for AxiLite {
    /// Adds `num` registers, named by number from zero on; none where
    /// `num` is zero or less. The current register becomes the one at
    /// place `num - 1`.
    fn order_reg_set(&mut self, num: i32) -> (r: AxiLite)
        ensures
            final(self)@ == (RegisterAdapter {
                regs: old(self)@.regs + numbered_regs(num as int),
                current: num - 1,
                ..old(self)@
            }),
            r@ == final(self)@,
    {
        let mut x: i32 = 0;
        while x < num
            invariant
                0 <= x,
                x <= num || x == 0,
                self.clk == old(self).clk,
                self.rst == old(self).rst,
                mapped(self.regs@) == mapped(old(self).regs@) + numbered_regs(x as int),
            decreases num - x,
        {
            let mut name = String::from_str("slv_reg");
            let number = decimal_text(x as i64);
            name.append(number.as_str());
            let mut w = WireVar::new();
            let _ = w.reg(name.as_str(), 32);
            let ghost before = mapped(self.regs@);
            let entry = AxiReg {
                reg: w,
                write_en: Box::new(E::Null),
                write_data: Box::new(E::Null),
            };
            assert(entry@ == plain_reg(register_signal(numbered_name(x as int))));
            self.regs.push(entry);
            assert(mapped(self.regs@) =~= before.push(entry@));
            assert(numbered_regs(x + 1) =~= numbered_regs(x as int).push(entry@));
            assert(mapped(self.regs@) =~= mapped(old(self).regs@) + numbered_regs(x + 1));
            x = x + 1;
        }
        assert(numbered_regs(x as int) =~= numbered_regs(num as int));
        self.current_reg = num as i128 - 1;
        self.clone()
    }
}

impl<T: Operand, U: Operand> AxiSlaveLocalWrite<T, U> for AxiLite {
    /// Gives the current register a local write. Fails, and changes
    /// nothing, where the adapter has no register at the current place.
    fn reg_write(&mut self, write_en: U, write_data: T) -> (r: Result<(), ModelError>)
        ensures
            0 <= old(self)@.current < old(self)@.regs.len() ==> r is Ok && final(self)@ == (
            RegisterAdapter {
                regs: old(self)@.regs.update(
                    old(self)@.current,
                    MappedReg {
                        signal: old(self)@.regs[old(self)@.current].signal,
                        enable: write_en.ast(),
                        data: write_data.ast(),
                    },
                ),
                ..old(self)@
            }),
            !(0 <= old(self)@.current < old(self)@.regs.len()) ==> r == Err::<(), ModelError>(
                ModelError::NoCurrentRegister,
            ) && final(self)@ == old(self)@,
    {
        if self.current_reg < 0 || self.current_reg >= self.regs.len() as i128 {
            return Err(ModelError::NoCurrentRegister);
        }
        let at = self.current_reg as usize;
        let entry = AxiReg {
            reg: self.regs[at].reg.clone(),
            write_en: write_en.expr(),
            write_data: write_data.expr(),
        };
        self.regs.set(at, entry);
        assert(mapped(self.regs@) =~= mapped(old(self).regs@).update(
            at as int,
            MappedReg {
                signal: old(self)@.regs[at as int].signal,
                enable: write_en.ast(),
                data: write_data.ast(),
            },
        ));
        Ok(())
    }
}

impl Axi4Slave {
    /// An adapter of no words, without a memory of its own and without
    /// read data.
    pub fn new<T: Operand, U: Operand>(clock: T, reset: U) -> (r: Axi4Slave)
        ensures
            r@ == (BurstAdapter {
                clk: clock.ast(),
                rst: reset.ast(),
                length: 0,
                internal: false,
                read_data: Ast::Null,
            }),
    {
        Axi4Slave {
            clk: clock.expr(),
            rst: reset.expr(),
            length: 0,
            mem: false,
            rdata: Box::new(E::Null),
        }
    }
}

impl Axi4Slave {
    /// The number of words behind the adapter.
    pub fn words(&self) -> (r: i32)
        ensures
            r == self@.length,
    {
        self.length
    }
}

impl AxiSlaveReg<Axi4Slave> for Axi4Slave {
    /// Sets the number of words behind the adapter.
    fn order_reg_set(&mut self, num: i32) -> (r: Axi4Slave)
        ensures
            final(self)@ == (BurstAdapter { length: num as int, ..old(self)@ }),
            r@ == final(self)@,
    {
        self.length = num;
        self.clone()
    }
}

impl AXIStreamRegCtrl for Axi4Slave {
    fn write(&mut self) -> (r: Box<E>)
        ensures
            final(self)@ == old(self)@,
            r@ == Ast::Ident(wire_signal("axis_write"@, 32)),
    {
        let mut w = WireVar::new();
        w.wire("axis_write", 32)
    }

    fn addr(&mut self) -> (r: Box<E>)
        ensures
            final(self)@ == old(self)@,
            r@ == Ast::Ident(wire_signal("axis_addr"@, 32)),
    {
        let mut w = WireVar::new();
        w.wire("axis_addr", 32)
    }

    fn wen(&mut self) -> (r: Box<E>)
        ensures
            final(self)@ == old(self)@,
            r@ == Ast::Ident(wire_signal("axis_wen"@, 1)),
    {
        let mut w = WireVar::new();
        w.wire("axis_wen", 1)
    }

    fn mem_if(&mut self) -> (r: (Box<E>, Box<E>, Box<E>, Box<E>))
        ensures
            final(self)@ == (BurstAdapter { internal: true, ..old(self)@ }),
            r.0@ == Ast::Ident(wire_signal("axis_read"@, 32)),
            r.1@ == Ast::Ident(wire_signal("axis_write"@, 32)),
            r.2@ == Ast::Ident(wire_signal("axis_wen"@, 1)),
            r.3@ == Ast::Ident(wire_signal("axis_addr"@, 32)),
    {
        self.mem = true;
        let mut a = WireVar::new();
        let mut b = WireVar::new();
        let mut c = WireVar::new();
        let mut d = WireVar::new();
        (
            a.wire("axis_read", 32),
            b.wire("axis_write", 32),
            c.wire("axis_wen", 1),
            d.wire("axis_addr", 32),
        )
    }
}

impl<T: Operand> AxiSlaveReadcontrol<T> for Axi4Slave {
    fn read(&mut self, rdata: T) -> (r: Axi4Slave)
        ensures
            final(self)@ == (BurstAdapter { read_data: rdata.ast(), ..old(self)@ }),
            r@ == final(self)@,
    {
        self.rdata = rdata.expr();
        self.clone()
    }
}

fn lite_process_head_text(clk: &str, rst: &str, spaced: bool) -> (r: String)
    ensures
        r@ == lite_process_head(clk@, rst@, spaced),
{
    let mut st = if spaced {
        String::from_str("    always @( posedge ")
    } else {
        String::from_str("    always@( posedge ")
    };
    st.append(clk);
    st.append(" ) begin\n");
    st.append("        if( ");
    st.append(rst);
    st.append(" ) begin\n");
    st
}

fn strobe_line_text(name: &str, n: &str, lane: i64) -> (r: String)
    requires
        0 <= lane < 4,
    ensures
        r@ == strobe_line(name@, n@, lane as int),
{
    let mut st = String::from_str("                        if ( r_wstrb");
    st.append(n);
    st.append("[");
    let a = decimal_text(lane);
    st.append(a.as_str());
    st.append("] == 1'b1 ) ");
    st.append(name);
    st.append(" <= w_wdata");
    st.append(n);
    st.append("[");
    let hi = decimal_text(8 * (lane + 1) - 1);
    st.append(hi.as_str());
    st.append(":");
    let lo = decimal_text(8 * lane);
    st.append(lo.as_str());
    st.append("];\n");
    st
}

fn write_clause_text(name: &str, index: usize, n: &str, width: i32) -> (r: String)
    ensures
        r@ == write_clause(name@, index as int, n@, width as int),
{
    let mut st = String::from_str("                    ");
    let label = decimal_text(width as i64 - 2);
    st.append(label.as_str());
    st.append("'h");
    let addr = hex2_text(index);
    st.append(addr.as_str());
    st.append(" : begin\n");
    let l0 = strobe_line_text(name, n, 0);
    st.append(l0.as_str());
    let l1 = strobe_line_text(name, n, 1);
    st.append(l1.as_str());
    let l2 = strobe_line_text(name, n, 2);
    st.append(l2.as_str());
    let l3 = strobe_line_text(name, n, 3);
    st.append(l3.as_str());
    st.append("                    end\n");
    st
}

fn local_write_text(reg: &AxiReg) -> (r: String)
    ensures
        r@ == local_write(reg@),
{
    if let E::Null = *reg.write_en {
        return String::new();
    }
    let mut st = String::from_str("\n            if( ");
    let en = emit(&reg.write_en, false, false, 0);
    st.append(en.as_str());
    st.append(" ) begin \n");
    st.append("                    ");
    st.append(reg.reg.name.as_str());
    st.append(" <= ");
    let data = emit(&reg.write_data, false, false, 0);
    st.append(data.as_str());
    st.append(";\n");
    st.append("            end\n");
    st
}

fn read_clause_text(name: &str, index: usize, n: &str, width: i32) -> (r: String)
    ensures
        r@ == read_clause(name@, index as int, n@, width as int),
{
    let mut st = String::from_str("                    ");
    let label = decimal_text(width as i64 - 2);
    st.append(label.as_str());
    st.append("'h");
    let addr = hex2_text(index);
    st.append(addr.as_str());
    st.append(" : r_rdata");
    st.append(n);
    st.append(" <= ");
    st.append(name);
    st.append(";\n");
    st
}

fn reset_lines_text(regs: &Vec<AxiReg>) -> (r: String)
    ensures
        r@ == concat(reset_lines(mapped(regs@))),
{
    let mut st = String::new();
    let ghost lines = reset_lines(mapped(regs@));
    let mut i: usize = 0;
    while i < regs.len()
        invariant
            i <= regs.len(),
            lines == reset_lines(mapped(regs@)),
            st@ == concat(lines.take(i as int)),
        decreases regs.len() - i,
    {
        proof {
            lemma_concat_push(lines.take(i as int), lines[i as int]);
            assert(lines.take(i as int).push(lines[i as int]) =~= lines.take(i + 1));
        }
        let mut line = String::from_str("            ");
        line.append(regs[i].reg.name.as_str());
        line.append(" <= 32'd0;\n");
        st.append(line.as_str());
        i = i + 1;
    }
    assert(lines.take(i as int) =~= lines);
    st
}

fn write_clauses_text(regs: &Vec<AxiReg>, n: &str, width: i32) -> (r: String)
    ensures
        r@ == concat(write_clauses(mapped(regs@), n@, width as int)),
{
    let mut st = String::new();
    let ghost lines = write_clauses(mapped(regs@), n@, width as int);
    let mut i: usize = 0;
    while i < regs.len()
        invariant
            i <= regs.len(),
            lines == write_clauses(mapped(regs@), n@, width as int),
            st@ == concat(lines.take(i as int)),
        decreases regs.len() - i,
    {
        proof {
            lemma_concat_push(lines.take(i as int), lines[i as int]);
            assert(lines.take(i as int).push(lines[i as int]) =~= lines.take(i + 1));
        }
        let clause = write_clause_text(regs[i].reg.name.as_str(), i, n, width);
        st.append(clause.as_str());
        i = i + 1;
    }
    assert(lines.take(i as int) =~= lines);
    st
}

fn hold_lines_text(regs: &Vec<AxiReg>) -> (r: String)
    ensures
        r@ == concat(hold_lines(mapped(regs@))),
{
    let mut st = String::new();
    let ghost lines = hold_lines(mapped(regs@));
    let mut i: usize = 0;
    while i < regs.len()
        invariant
            i <= regs.len(),
            lines == hold_lines(mapped(regs@)),
            st@ == concat(lines.take(i as int)),
        decreases regs.len() - i,
    {
        proof {
            lemma_concat_push(lines.take(i as int), lines[i as int]);
            assert(lines.take(i as int).push(lines[i as int]) =~= lines.take(i + 1));
        }
        let mut line = String::from_str("                        ");
        line.append(regs[i].reg.name.as_str());
        line.append(" <= ");
        line.append(regs[i].reg.name.as_str());
        line.append(";\n");
        st.append(line.as_str());
        i = i + 1;
    }
    assert(lines.take(i as int) =~= lines);
    st
}

fn local_writes_text(regs: &Vec<AxiReg>) -> (r: String)
    ensures
        r@ == concat(local_writes(mapped(regs@))),
{
    let mut st = String::new();
    let ghost lines = local_writes(mapped(regs@));
    let mut i: usize = 0;
    while i < regs.len()
        invariant
            i <= regs.len(),
            lines == local_writes(mapped(regs@)),
            st@ == concat(lines.take(i as int)),
        decreases regs.len() - i,
    {
        proof {
            lemma_concat_push(lines.take(i as int), lines[i as int]);
            assert(lines.take(i as int).push(lines[i as int]) =~= lines.take(i + 1));
        }
        let piece = local_write_text(&regs[i]);
        st.append(piece.as_str());
        i = i + 1;
    }
    assert(lines.take(i as int) =~= lines);
    st
}

fn read_clauses_text(regs: &Vec<AxiReg>, n: &str, width: i32) -> (r: String)
    ensures
        r@ == concat(read_clauses(mapped(regs@), n@, width as int)),
{
    let mut st = String::new();
    let ghost lines = read_clauses(mapped(regs@), n@, width as int);
    let mut i: usize = 0;
    while i < regs.len()
        invariant
            i <= regs.len(),
            lines == read_clauses(mapped(regs@), n@, width as int),
            st@ == concat(lines.take(i as int)),
        decreases regs.len() - i,
    {
        proof {
            lemma_concat_push(lines.take(i as int), lines[i as int]);
            assert(lines.take(i as int).push(lines[i as int]) =~= lines.take(i + 1));
        }
        let clause = read_clause_text(regs[i].reg.name.as_str(), i, n, width);
        st.append(clause.as_str());
        i = i + 1;
    }
    assert(lines.take(i as int) =~= lines);
    st
}

fn lite_write(axi: &AxiLite, n: &str) -> (r: String)
    ensures
        r@ == lite_write_text(axi@, n@),
{
    let clk = name_text(&axi.clk);
    let rst = name_text(&axi.rst);
    let width = register_address_width(axi.regs.len());
    let mut st = filled(LITE_OPENING, n);
    let head = lite_process_head_text(clk.as_str(), rst.as_str(), true);
    st.append(head.as_str());
    let shake = filled(LITE_WRITE_HANDSHAKE, n);
    st.append(shake.as_str());
    let head2 = lite_process_head_text(clk.as_str(), rst.as_str(), false);
    st.append(head2.as_str());
    let resets = reset_lines_text(&axi.regs);
    st.append(resets.as_str());
    let open = filled(LITE_WRITE_OPEN, n);
    st.append(open.as_str());
    let top = decimal_text(width as i64 - 1);
    st.append(top.as_str());
    st.append(LITE_WRITE_SELECT);
    let clauses = write_clauses_text(&axi.regs, n, width);
    st.append(clauses.as_str());
    st.append(LITE_WRITE_DEFAULT);
    let holds = hold_lines_text(&axi.regs);
    st.append(holds.as_str());
    st.append(LITE_WRITE_CASE_CLOSE);
    let locals = local_writes_text(&axi.regs);
    st.append(locals.as_str());
    st.append(LITE_WRITE_CLOSE);
    st
}

fn lite_read(axi: &AxiLite, n: &str) -> (r: String)
    ensures
        r@ == lite_read_text(axi@, n@),
{
    let clk = name_text(&axi.clk);
    let rst = name_text(&axi.rst);
    let width = register_address_width(axi.regs.len());
    let mut st = lite_process_head_text(clk.as_str(), rst.as_str(), true);
    let response = filled(LITE_RESPONSE, n);
    st.append(response.as_str());
    let enable = filled(LITE_READ_ENABLE, n);
    st.append(enable.as_str());
    let head = lite_process_head_text(clk.as_str(), rst.as_str(), true);
    st.append(head.as_str());
    let open = filled(LITE_READ_OPEN, n);
    st.append(open.as_str());
    let top = decimal_text(width as i64 - 1);
    st.append(top.as_str());
    st.append(":2] )\n");
    let clauses = read_clauses_text(&axi.regs, n, width);
    st.append(clauses.as_str());
    let close = filled(LITE_READ_CLOSE, n);
    st.append(close.as_str());
    st
}

/// The text of a register adapter that is the `count`-th bus of its unit.
pub fn print_axi_lite_slave(axi: AxiLite, count: i32) -> (r: String)
    ensures
        r@ == lite_text(axi@, count as int),
{
    let n = decimal_text(count as i64);
    let mut st = lite_write(&axi, n.as_str());
    let read = lite_read(&axi, n.as_str());
    st.append(read.as_str());
    st
}

fn slave_process_text(heading: &str, clk: &str, rst: &str, body: &str) -> (r: String)
    ensures
        r@ == slave_process(heading@, clk@, rst@, body@),
{
    let mut st = String::from_str(heading);
    st.append("    always @( posedge ");
    st.append(clk);
    st.append(" ) begin\n");
    st.append("        if ( ");
    st.append(rst);
    st.append(" ) begin\n");
    st.append(body);
    st
}

fn slave_store(axi: &Axi4Slave, top: &str) -> (r: String)
    ensures
        r@ == slave_store_text(axi@, top@),
{
    if axi.mem {
        let mut st = String::from_str("    reg [31:0] axi_mem [0:");
        let last = decimal_text(axi.length as i64 - 1);
        st.append(last.as_str());
        st.append("];\n");
        st.append("    always @( posedge ");
        let clk = name_text(&axi.clk);
        st.append(clk.as_str());
        st.append(" ) begin\n");
        st.append(SLAVE_MEMORY_WRITE);
        st
    } else {
        let mut st = String::from_str(SLAVE_WRITE_ENABLE);
        let select = filled(SLAVE_ADDRESS_SELECT, top);
        st.append(select.as_str());
        st
    }
}

fn slave_fetch(axi: &Axi4Slave, top: &str) -> (r: String)
    ensures
        r@ == slave_fetch_text(axi@, top@),
{
    if axi.mem {
        let mut st = String::from_str("\n");
        st.append("    always @( posedge ");
        let clk = name_text(&axi.clk);
        st.append(clk.as_str());
        st.append(" ) begin\n");
        let read = filled(SLAVE_MEMORY_READ, top);
        st.append(read.as_str());
        st
    } else {
        let source = if let E::Null = *axi.rdata {
            String::from_str(SLAVE_READ_DEFAULT)
        } else {
            let mut line = String::from_str("        r_axi_rdata <= ");
            let name = name_text(&axi.rdata);
            line.append(name.as_str());
            line.append(";\n");
            line
        };
        let mut st = String::from_str(SLAVE_READ_OPEN);
        st.append(source.as_str());
        st.append(SLAVE_READ_CLOSE);
        st
    }
}

impl Axi4Slave {
    /// The text of the adapter after its first line, for a word address of
    /// `addr_width` bits.
    pub fn print(&self, addr_width: i32) -> (r: String)
        ensures
            r@ == slave_body_text(self@, addr_width as int),
    {
        let clk = name_text(&self.clk);
        let rst = name_text(&self.rst);
        let top = decimal_text(addr_width as i64 + 1);
        let mut st = String::from_str(SLAVE_FLAGS);
        let store = slave_store(self, top.as_str());
        st.append(store.as_str());
        let p1 = slave_process_text(
            SLAVE_AWREADY_HEADING,
            clk.as_str(),
            rst.as_str(),
            SLAVE_AWREADY,
        );
        st.append(p1.as_str());
        let b2 = filled(SLAVE_AWADDR, top.as_str());
        let p2 = slave_process_text(
            SLAVE_AWADDR_HEADING,
            clk.as_str(),
            rst.as_str(),
            b2.as_str(),
        );
        st.append(p2.as_str());
        let p3 = slave_process_text(SLAVE_WREADY_HEADING, clk.as_str(), rst.as_str(), SLAVE_WREADY);
        st.append(p3.as_str());
        let p4 = slave_process_text(SLAVE_BVALID_HEADING, clk.as_str(), rst.as_str(), SLAVE_BVALID);
        st.append(p4.as_str());
        let p5 = slave_process_text(
            SLAVE_ARREADY_HEADING,
            clk.as_str(),
            rst.as_str(),
            SLAVE_ARREADY,
        );
        st.append(p5.as_str());
        let b6 = filled(SLAVE_ARADDR, top.as_str());
        let p6 = slave_process_text(
            SLAVE_ARADDR_HEADING,
            clk.as_str(),
            rst.as_str(),
            b6.as_str(),
        );
        st.append(p6.as_str());
        let p7 = slave_process_text(SLAVE_RVALID_HEADING, clk.as_str(), rst.as_str(), SLAVE_RVALID);
        st.append(p7.as_str());
        st.append(SLAVE_STROBES);
        let fetch = slave_fetch(self, top.as_str());
        st.append(fetch.as_str());
        st
    }
}

/// The text of a burst adapter.
pub fn print_axis(axi: Axi4Slave) -> (r: String)
    ensures
        r@ == slave_text(axi@),
{
    let width = width_for(axi.length as i128);
    let mut st = String::from_str(SLAVE_HEADING);
    let body = axi.print(width);
    st.append(body.as_str());
    st
}

/// The text of a bus adapter that is the `num`-th bus of its unit.
pub fn print_axi(axi: Bus, num: i32) -> (r: String)
    ensures
        r@ == bus_text(axi@, num as int),
{
    match axi {
        Bus::AxiLite(x) => print_axi_lite_slave(x, num),
        Bus::AxiSlave(x) => print_axis(x),
    }
}

} // verus!
