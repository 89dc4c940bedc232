use verugent::ast::IOType;
use verugent::builder::{_Branch, _Num};
use verugent::error::ModelError;
use verugent::expr::E;
use verugent::fsm::FsmModule;
use verugent::module::{FSMTrait, FuncTrait, Memset, VModule, VSet};
use verugent::ops::{Addr, Logi, Notc, Subs};
use verugent::process::{onedge, posedge, Always, Func, SetEqual};
use verugent::signal::WireVar;
use verugent::stmt::{AddForm, Form, If, Ifset};

fn blank() -> Box<E> {
    Box::new(E::Null)
}

#[test]
fn it_works() {
    let mut m = VModule::new("LED");
    m.input("CLK", 1);
    m.input("RST", 1);
    assert!(!m.gen().is_empty(), "Code not generated successfully...");
}

#[test]
fn empty_unit_is_header_and_terminator() {
    let m = VModule::new("top");
    assert_eq!(m.gen(), "module top \nendmodule\n");
}

#[test]
fn ports_are_listed_in_declaration_order() {
    let mut m = VModule::new("LED");
    m.input("CLK", 1);
    m.output("Q", 8);
    m.inout("IO", 0);
    m.reg_out("R", 4);
    assert_eq!(
        m.gen(),
        "module LED (\n    input  [1-1:0] CLK [0-1:0],\n    output [8-1:0] Q [0-1:0],\n    inout [0-1:0] IO [0-1:0],\n    output [4-1:0] R [0-1:0]\n);\n\nendmodule\n"
    );
}

#[test]
fn parameters_come_before_ports() {
    let mut m = VModule::new("FIFO");
    let width = m.add_io_param("width", 8);
    m.add_io_param("numwords", 512);
    m.input("D", &width);
    m.add_local_param("depth", -3);
    assert_eq!(
        m.gen(),
        "module FIFO #(\n    parameter width = 8,\n    parameter numwords = 512\n)(\n    input  [0-1:0] D [0-1:0]\n);\n    parameter depth = -3;\n\nendmodule\n"
    );
}

#[test]
fn locals_print_one_per_line() {
    let mut m = VModule::new("m");
    m.wire("w", 3);
    m.reg("r", 5);
    let a = m.add_io_param("A", 1);
    let b = m.add_io_param("B", 2);
    m.Mem("DATA", (a, b));
    assert_eq!(
        m.gen(),
        "module m #(\n    parameter A = 1,\n    parameter B = 2\n)    parameter w = 0;\n    parameter r = 0;\n    parameter DATA = 0;\n\nendmodule\n"
    );
}

#[test]
fn two_registers_and_an_output() {
    let mut m = VModule::new("pair");
    let a = m.reg("A", 32);
    let _b = m.reg("B", 32);
    let out = m.output("OUT", 32);
    m.assign(out._e(&a));
    let text = m.gen();
    assert!(text.contains("assign OUT = A;"));
    assert!(text.contains("module pair "));
    assert!(text.ends_with("\nendmodule\n"));
    assert_eq!(
        text,
        "module pair (\n    output [32-1:0] OUT [0-1:0]\n);\n    parameter A = 0;\n    parameter B = 0;\n    assign OUT = A;\n\nendmodule\n"
    );
}

#[test]
fn rendering_twice_gives_the_same_text() {
    let mut m = VModule::new("twice");
    let clk = m.input("clk", 1);
    let q = m.reg_out("q", 1);
    let d = m.input("d", 1);
    m.always(posedge(&clk).non().if_(&d, Form(q.sst(&d))));
    m.inline("// note");
    let first = m.gen();
    let second = m.gen();
    assert_eq!(first, second);
    let copy = m.clone();
    assert_eq!(copy.gen(), first);
}

#[test]
fn inline_text_is_followed_by_an_empty_line() {
    let mut m = VModule::new("i");
    m.inline("wire x;");
    m.inline("wire y;");
    assert_eq!(m.gen(), "module i wire x;\n\nwire y;\n\n\nendmodule\n");
}

#[test]
fn processes_follow_each_other_without_a_break() {
    let mut m = VModule::new("p");
    let clk = m.input("clk", 1);
    let rst = m.input("rst", 1);
    let q = m.reg("q", 1);
    m.always(posedge(&clk).posedge(&rst).non().if_(&rst, Form(q.sst(0))));
    m.always(onedge().negedge(&clk).block().if_(&rst, Form(q.sst(1))));
    let text = m.gen();
    assert!(text.contains(
        "    always @(posedge clk or posedge rst) begin\n        if(rst) begin\n            q <= 0;\n        end\n\n    end    always @(negedge clk) begin\n        if(rst) begin\n            q = 1;\n        end\n\n    end\nendmodule\n"
    ));
    assert_eq!(m.out_always().len(), 2);
}

#[test]
fn function_example() {
    let mut m = VModule::new("functest");
    let ina = m.input("ina", 32);
    let inb = m.input("inb", 32);
    let out = m.output("outs", 0);
    let mut f = Func::new("testf", 32);
    let ia = f.Input("ia", 32);
    let ib = f.Input("ib", 32);
    f.If(verugent::ops::PartialEq::eq(ia.clone(), ib.clone()), Form(f.own().sst(1)));
    f.Else(Form(f.own().sst(0))).unwrap();
    m.func(f.clone());
    m.assign(out._e(f.using(vec![ina.clone(), inb.clone()])));
    assert_eq!(m.out_func_name(), vec!["testf".to_string()]);
    assert_eq!(
        m.gen(),
        "module functest (\n    input  [32-1:0] ina [0-1:0],\n    input  [32-1:0] inb [0-1:0],\n    output [0-1:0] outs [0-1:0]\n);\n    assign outs = testf(ina, inb);\n\n    function [31:0] testf(\n        input [31:0]ia,\n        input [31:0]ib\n    );\n        if(ia==ib) begin\n            testf = 1;\n        end\n        else begin\n            testf = 0;\n        end\n    endfunction\n\n\nendmodule\n"
    );
}

#[test]
fn function_by_reference_and_narrow_input() {
    let mut m = VModule::new("f");
    let mut f = Func::new("one", 1);
    f.Input("a", 0);
    m.func(&f);
    assert_eq!(
        m.gen(),
        "module f \n    function [0:0] one(\n        input a\n    );\n    endfunction\n\n\nendmodule\n"
    );
}

#[test]
fn led_example() {
    let mut module = VModule::new("LED");
    let clk = module.input("clk", 1);
    let rst = module.input("rst", 1);
    let btn1 = module.input("i_btn1", 1);
    let btn2 = module.input("i_btn2", 1);
    let led = module.output("o_led", 8);
    let mut fsm = FsmModule::new(clk, &rst, "state");
    fsm.AddState("IDLE");
    fsm.goto(
        "RUN",
        verugent::ops::PartialEq::eq(btn1.clone(), 1)
            .land(verugent::ops::PartialEq::ne(rst.clone(), 1)),
    )
    .unwrap();
    fsm.AddState("RUN");
    fsm.goto("END", verugent::ops::PartialEq::eq(btn2.clone(), 1)).unwrap();
    fsm.AddState("END");
    fsm.goto("IDLE", blank()).unwrap();
    let run = fsm.Param("RUN");
    let fstate = module.fsm(fsm).unwrap();
    module.assign(led._e(_Branch(
        verugent::ops::PartialEq::eq(fstate.clone(), run.clone()),
        _Num(255),
        _Num(0),
    )));
    assert_eq!(
        module.gen(),
        "module LED (\n    input  [1-1:0] clk [0-1:0],\n    input  [1-1:0] rst [0-1:0],\n    input  [1-1:0] i_btn1 [0-1:0],\n    input  [1-1:0] i_btn2 [0-1:0],\n    output [8-1:0] o_led [0-1:0]\n);\n    parameter IDLE = 0;\n    parameter RUN = 1;\n    parameter END = 2;\n    parameter state = 0;\n    parameter state_Next = 0;\n    assign o_led = (state==RUN)? 255: 0;\n    always @(posedge clk or posedge rst) begin\n        if (rst == 1) begin \n            state <= IDLE; \n        end\n        else begin \n            state <= state_Next; \n        end \n    end \n\n    always@(posedge clk) begin\n        if (rst) state_Next <= IDLE;\n        else begin\n            case(state)\n                IDLE : begin\n                    if(i_btn1==1&&rst!=1) begin\n                        state_Next <= RUN;\n                    end\n                end\n                RUN : begin\n                    if(i_btn2==1) begin\n                        state_Next <= END;\n                    end\n                end\n                END : begin\n                    state_Next <= IDLE;\n                end\n            endcase \n        end\n    end\n\n\nendmodule\n"
    );
}

#[test]
fn two_machines_are_separated_by_a_line_break() {
    let mut m = VModule::new("two");
    let clk = m.input("clk", 1);
    let rst = m.input("rst", 1);
    let mut a = FsmModule::new(&clk, &rst, "sa");
    a.AddState("A0");
    let mut b = FsmModule::new(&clk, &rst, "sb");
    b.AddState("B0");
    m.fsm(&a).unwrap();
    m.fsm(b).unwrap();
    let text = m.gen();
    assert!(text.contains("            endcase \n        end\n    end\n\n\n    always @(posedge clk or posedge rst) begin\n        if (rst == 1) begin \n            sb <= B0; "));
}

#[test]
fn a_second_machine_on_the_same_register_is_refused() {
    let mut m = VModule::new("dup");
    let clk = m.input("clk", 1);
    let rst = m.input("rst", 1);
    let mut a = FsmModule::new(&clk, &rst, "state");
    a.AddState("IDLE");
    let b = a.clone();
    assert!(m.fsm(a).is_ok());
    let before = m.gen();
    match m.fsm(b) {
        Err(ModelError::DuplicateFsm(name)) => assert_eq!(name, "state"),
        other => panic!("unexpected: {:?}", other),
    }
    assert_eq!(m.gen(), before);
    let err = ModelError::DuplicateFsm("state".to_string());
    assert_eq!(err.message(), "Some name FSM exist. :state\n");
}

#[test]
fn a_machine_without_states_is_refused() {
    let mut m = VModule::new("none");
    let clk = m.input("clk", 1);
    let rst = m.input("rst", 1);
    let f = FsmModule::new(&clk, &rst, "state");
    assert!(matches!(m.fsm(f), Err(ModelError::NoStates)));
    assert_eq!(
        m.gen(),
        "module none (\n    input  [1-1:0] clk [0-1:0],\n    input  [1-1:0] rst [0-1:0]\n);\n\nendmodule\n"
    );
}

#[test]
fn declarations_from_setters() {
    let mut w = WireVar::new();
    assert_eq!(w.print_as_param(), "parameter none = 0");
    assert_eq!(w.print_as_local_param(), "parameter none = 0;");
    w.parameter("P", 7);
    assert_eq!(w.print_as_param(), "parameter P = 7");
    let mut p = WireVar::new();
    p.input("a", 3);
    assert_eq!(p.print_as_port(), "input  [3-1:0] a [0-1:0]");
    p.output("b", 4);
    assert_eq!(p.print_as_port(), "output [4-1:0] b [0-1:0]");
    p.inout("c", 5);
    assert_eq!(p.print_as_port(), "inout [5-1:0] c [0-1:0]");
    p.output_reg("d", 6);
    assert_eq!(p.print_as_port(), "output [6-1:0] d [0-1:0]");
    let mut q = WireVar::new();
    q.mem("m", 8, 16);
    q.input("m", 8);
    assert_eq!(q.print_as_port(), "input  [8-1:0] m [16-1:0]");
    q.width("W");
    q.length("L");
    assert_eq!(q.print_as_port(), "input  [8-1:0] m [16-1:0]");
    assert_eq!(WireVar::print_params(&[]), "");
    assert_eq!(WireVar::print_ports(&[]), "");
    assert_eq!(WireVar::print_local_params(&[]), "");
    assert_eq!(WireVar::print_ports(&[p.clone(), q.clone()]), "(\n    output [6-1:0] d [0-1:0],\n    input  [8-1:0] m [16-1:0]\n);\n");
    assert_eq!(WireVar::print_params(&[w.clone()]), "#(\n    parameter P = 7\n)");
    assert_eq!(WireVar::print_local_params(&[w.clone(), w]), "    parameter P = 7;\n    parameter P = 7;\n");
    let _ = IOType::Input;
}

#[test]
fn fifo_example() {
    let mut m = VModule::new("FIFO");
    let width = m.add_io_param("width", 8);
    let widthad = m.add_io_param("widthad", 9);
    let words = m.add_io_param("numwords", 512);
    let clk = m.input("CLK", 1);
    let rst = m.input("RST", 1);
    let d = m.input("D", &width);
    let q = m.output("Q", &width);
    let wr = m.input("WR", 1);
    let rd = m.input("RD", 1);
    let full = m.output("FULL", 1);
    let empty = m.output("EMPTY", 1);
    let cnt = m.wire("CNT", 10);
    let wp = m.wire("WP", &widthad);
    let rp = m.wire("RP", &widthad);
    let wcnt = m.reg("WCNT", 9);
    let rcnt = m.reg("RCNT", 9);
    let data = m.Mem("DATA", (width, words));
    m.assign(q._e(data.addr(&rp)));
    m.assign(cnt._e(&wcnt - &rcnt));
    m.assign(full._e(cnt.addr(&widthad)));
    m.assign(wp._e(wcnt.addr(&widthad - 1)));
    m.assign(rp._e(rcnt.addr(&widthad - 1)));
    m.always(
        posedge(clk)
            .posedge(&rst)
            .non()
            .if_(rst, Form(wcnt.sst(0)).Form(rcnt.sst(0)))
            .else_(vec![
                If(
                    wr & Notc::not(&full),
                    Form(data.addr(wp).sst(d)).Form(wcnt.sst(&wcnt + 1)),
                ),
                If(rd & Notc::not(&empty), Form(rcnt.sst(&rcnt + 1))),
            ])
            .unwrap(),
    );
    assert_eq!(
        m.gen(),
        "module FIFO #(\n    parameter width = 8,\n    parameter widthad = 9,\n    parameter numwords = 512\n)(\n    input  [1-1:0] CLK [0-1:0],\n    input  [1-1:0] RST [0-1:0],\n    input  [0-1:0] D [0-1:0],\n    output [0-1:0] Q [0-1:0],\n    input  [1-1:0] WR [0-1:0],\n    input  [1-1:0] RD [0-1:0],\n    output [1-1:0] FULL [0-1:0],\n    output [1-1:0] EMPTY [0-1:0]\n);\n    parameter CNT = 0;\n    parameter WP = 0;\n    parameter RP = 0;\n    parameter WCNT = 0;\n    parameter RCNT = 0;\n    parameter DATA = 0;\n    assign Q = DATA[RP];\n    assign CNT = WCNT-RCNT;\n    assign FULL = CNT[widthad];\n    assign WP = WCNT[widthad-1];\n    assign RP = RCNT[widthad-1];\n    always @(posedge CLK or posedge RST) begin\n        if(RST) begin\n            WCNT <= 0;\n            RCNT <= 0;\n        end\n        else begin\n            if(WR&~FULL) begin\n                DATA[WP] <= D;\n                WCNT <= WCNT+1;\n            end\n            if(RD&~EMPTY) begin\n                RCNT <= RCNT+1;\n            end\n        end\n\n    end\nendmodule\n"
    );
}

#[test]
fn assignments_can_be_read_back() {
    let mut m = VModule::new("a");
    let x = m.wire("x", 1);
    let y = m.wire("y", 1);
    m.assign(x._ve(&y));
    let list = m.out_assign();
    assert_eq!(list.len(), 1);
    assert_eq!(list[0].print(), "assign x = y;");
    let mut a = Always::new();
    a.posedge(&x);
    a.negedge(&y);
    a.posedge(5);
    assert_eq!(a.out_p_edge().len(), 1);
    assert_eq!(a.out_n_edge().len(), 1);
    assert_eq!(a.print(), "    always @(posedge x or negedge y) begin\n\n    end");
}

#[test]
fn process_chains_and_cases_continue_the_last_statement() {
    let q = {
        let mut w = WireVar::new();
        w.reg("q", 2)
    };
    let sel = {
        let mut w = WireVar::new();
        w.wire("sel", 2)
    };
    let mut a = Always::new();
    a.non();
    assert!(matches!(a.else_(vec![]), Err(ModelError::NotBranchChain)));
    assert!(matches!(a.else_if(&sel, vec![]), Err(ModelError::NotBranchChain)));
    assert!(matches!(a.S(1, vec![]), Err(ModelError::NotCaseBlock)));
    assert!(matches!(a.Default(vec![]), Err(ModelError::NotCaseBlock)));
    a.if_(&sel, Form(q.sst(1)));
    a.else_if(verugent::ops::PartialEq::eq(sel.clone(), 2), Form(q.sst(2))).unwrap();
    assert!(matches!(a.S(1, vec![]), Err(ModelError::NotCaseBlock)));
    a.else_(Form(q.sst(3))).unwrap();
    let before = a.print();
    assert!(matches!(a.else_(vec![]), Err(ModelError::ChainClosed)));
    assert!(matches!(a.else_if(&sel, vec![]), Err(ModelError::ChainClosed)));
    assert_eq!(a.print(), before);
    a.Case(&sel);
    assert!(matches!(a.else_(vec![]), Err(ModelError::NotBranchChain)));
    a.S(0, Form(q.sst(0))).unwrap();
    a.Default(Form(q.sst(1)).Form(q.sst(2))).unwrap();
    assert!(matches!(a.Default(vec![]), Err(ModelError::DuplicateDefault)));
    a.S(3, vec![]).unwrap();
    assert_eq!(a.blockout(), "Non");
    assert_eq!(
        a.print(),
        "    always @() begin\n        if(sel) begin\n            q <= 1;\n        end\n        else if(sel==2) begin\n            q <= 2;\n        end\n        else begin\n            q <= 3;\n        end\n        case (sel)\n            0 :q <= 0;\n            default  :begin \n                q <= 1;\n                q <= 2;\n            end \n            3 :        endcase\n\n    end"
    );
    assert_eq!(Always::print_list(&[]), "");
    assert_eq!(Always::print_list(&[a.clone(), onedge()]), format!("{}{}", a.print(), "    always @() begin\n\n    end"));
}

#[test]
fn function_chains_and_cases_continue_the_last_statement() {
    let mut f = Func::new("pick", 8);
    let s = f.Input("s", 2);
    assert!(matches!(f.Else(vec![]), Err(ModelError::NotBranchChain)));
    assert!(matches!(f.Else_If(&s, vec![]), Err(ModelError::NotBranchChain)));
    assert!(matches!(f.S(1, vec![]), Err(ModelError::NotCaseBlock)));
    assert!(matches!(f.default(vec![]), Err(ModelError::NotCaseBlock)));
    f.Case(&s);
    f.S(0, Form(f.own().sst(10))).unwrap();
    f.S(1, Form(f.own().sst(11))).unwrap();
    f.default(Form(f.own().sst(0))).unwrap();
    assert!(matches!(f.default(vec![]), Err(ModelError::DuplicateDefault)));
    f.If(&s, vec![]);
    f.Else_If(&s, vec![]).unwrap();
    f.Else(vec![]).unwrap();
    assert!(matches!(f.Else(vec![]), Err(ModelError::ChainClosed)));
    assert_eq!(
        f.print(),
        "\n    function [7:0] pick(\n        input [1:0]s\n    );\n        case (s)\n            0 :pick = 10;\n            1 :pick = 11;\n            default  :pick = 0;\n        endcase\n        if(s) begin\n        end\n        else if(s) begin\n        end\n        else begin\n        end\n    endfunction\n\n"
    );
}

#[test]
fn builder_calls_can_be_chained() {
    let clk = {
        let mut w = WireVar::new();
        w.wire("clk", 1)
    };
    let fsm = FsmModule::new(&clk, &clk, "s")
        .AddState("A")
        .goto("B", &clk)
        .unwrap()
        .AddState("B")
        .goto("A", blank())
        .unwrap();
    assert_eq!(fsm.StateOut().len(), 2);
    let p = posedge(&clk)
        .non()
        .if_(&clk, vec![])
        .else_if(&clk, vec![])
        .unwrap()
        .else_(vec![])
        .unwrap();
    assert_eq!(
        p.print(),
        "    always @(posedge clk) begin\n        if(clk) begin\n        end\n        else if(clk) begin\n        end\n        else begin\n        end\n\n    end"
    );
}

#[test]
fn triggers_render_in_the_order_given() {
    let id = |name: &str| {
        let mut w = WireVar::new();
        w.wire(name, 1)
    };
    let a = verugent::process::negedge(id("x")).posedge(id("y"));
    let text = a.print();
    assert!(text.starts_with("    always @(negedge x or posedge y) begin"));
    assert!(text.ends_with("    end"));
    assert_eq!(text, "    always @(negedge x or posedge y) begin\n\n    end");
    let mut b = onedge();
    b.posedge(id("p1"));
    b.negedge(id("n1"));
    b.negedge(id("n2"));
    b.posedge(7);
    b.posedge(id("p2"));
    b.negedge(id("n3"));
    assert_eq!(
        b.print(),
        "    always @(posedge p1 or negedge n1 or negedge n2 or posedge p2 or negedge n3) begin\n\n    end"
    );
    let rising: Vec<String> = b.out_p_edge().iter().map(|w| w.print_as_param()).collect();
    let falling: Vec<String> = b.out_n_edge().iter().map(|w| w.print_as_param()).collect();
    assert_eq!(rising, vec!["parameter p1 = 0", "parameter p2 = 0"]);
    assert_eq!(falling, vec!["parameter n1 = 0", "parameter n2 = 0", "parameter n3 = 0"]);
    assert_eq!(b.clone().print(), b.print());
}
