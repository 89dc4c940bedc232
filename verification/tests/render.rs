use verugent::ast::{BinOp, RedOp};
use verugent::builder::{
    _Add, _And, _Branch, _Decomp, _Div, _Eq, _LAnd, _LOr, _LSH, _LTH, _MTH, _Mod, _Mul, _Neq,
    _Num, _NumOut, _OLS, _OMR, _Or, _RSH, _RSHA, _StrOut, _Sub, _V, _Veq, _Xor, binary,
    binary_by_name, operator,
};
use verugent::error::ModelError;
use verugent::expr::{CaseStmt, IfElseAST, E};
use verugent::ops::{Addr, Logi, MBit, Notc, Subs};
use verugent::render::decomp_ast;
use verugent::signal::WireVar;
use verugent::stmt::{AddForm, Case, Caseset, Form, If, Ifset};

fn id(name: &str) -> Box<E> {
    let mut w = WireVar::new();
    w.wire(name, 1)
}

fn show(e: &E) -> String {
    decomp_ast(false, e, "", 0)
}

#[test]
fn leaves_render_as_their_text() {
    assert_eq!(show(&id("abc")), "abc");
    assert_eq!(show(&_Num(0)), "0");
    assert_eq!(show(&_Num(-17)), "-17");
    assert_eq!(show(&_Num(i32::MAX)), "2147483647");
    assert_eq!(show(&_Num(i32::MIN)), "-2147483648");
    assert_eq!(show(&E::Null), "");
    assert_eq!(show(&E::Node("tag".to_string())), "");
    let mut w = WireVar::new();
    w.reg("r", 8);
    assert_eq!(show(&_V(w)), "r");
}

#[test]
fn every_operator_has_its_symbol() {
    let a = id("a");
    let b = id("b");
    assert_eq!(show(&_Add(&a, &b)), "a+b");
    assert_eq!(show(&_Sub(&a, &b)), "a-b");
    assert_eq!(show(&_Mul(&a, &b)), "a*b");
    assert_eq!(show(&_Div(&a, &b)), "a/b");
    assert_eq!(show(&_Mod(&a, &b)), "a%b");
    assert_eq!(show(&_Or(&a, &b)), "a|b");
    assert_eq!(show(&_And(&a, &b)), "a&b");
    assert_eq!(show(&_Xor(&a, &b)), "a^b");
    assert_eq!(show(&_LOr(&a, &b)), "a||b");
    assert_eq!(show(&_LAnd(&a, &b)), "a&&b");
    assert_eq!(show(&_LSH(&a, &b)), "a<<b");
    assert_eq!(show(&_RSH(&a, &b)), "a>>b");
    assert_eq!(show(&_RSHA(&a, &b)), "a>>>b");
    assert_eq!(show(&_Eq(&a, &b)), "a==b");
    assert_eq!(show(&_Neq(&a, &b)), "a!=b");
    assert_eq!(show(&_MTH(&a, &b)), "a<b");
    assert_eq!(show(&_LTH(&a, &b)), "a>b");
    assert_eq!(show(&_OMR(&a, &b)), "a<=b");
    assert_eq!(show(&_OLS(&a, &b)), "a>=b");
    assert_eq!(show(&binary(BinOp::Add, 1, 2)), "1+2");
}

#[test]
fn operator_traits_build_the_same_nodes() {
    let a = id("a");
    let b = id("b");
    assert_eq!(show(&(a.clone() + b.clone())), "a+b");
    assert_eq!(show(&(&a + 1)), "a+1");
    assert_eq!(show(&(a.clone() - &b)), "a-b");
    assert_eq!(show(&(&a - 1)), "a-1");
    assert_eq!(show(&(a.clone() * 2)), "a*2");
    assert_eq!(show(&(&a * &b)), "a*b");
    assert_eq!(show(&(a.clone() / 2)), "a/2");
    assert_eq!(show(&(&a / &b)), "a/b");
    assert_eq!(show(&(a.clone() % 2)), "a%2");
    assert_eq!(show(&(&a % &b)), "a%b");
    assert_eq!(show(&(a.clone() | 2)), "a|2");
    assert_eq!(show(&(&a | &b)), "a|b");
    assert_eq!(show(&(a.clone() & 2)), "a&2");
    assert_eq!(show(&(&a & &b)), "a&b");
    assert_eq!(show(&(a.clone() ^ 2)), "a^2");
    assert_eq!(show(&(&a ^ &b)), "a^b");
    assert_eq!(show(&(a.clone() << 2)), "a<<2");
    assert_eq!(show(&(&a << &b)), "a<<b");
    assert_eq!(show(&(a.clone() >> 2)), "a>>2");
    assert_eq!(show(&(&a >> &b)), "a>>b");
    assert_eq!(show(&(!a.clone())), "~a");
    assert_eq!(show(&Notc::not(&a)), "~a");
    assert_eq!(show(&a.land(&b)), "a&&b");
    assert_eq!(show(&a.lor(1)), "a||1");
    assert_eq!(show(&a.addr(3)), "a[3]");
    assert_eq!(show(&a.range(7, 0)), "a[7:0]");
    assert_eq!(show(&a.range(&b, &b)), "a[b:b]");
}

#[test]
fn comparisons_are_written_as_the_caller_wrote_them() {
    let a = id("a");
    let b = id("b");
    assert_eq!(show(&verugent::ops::PartialEq::eq(a.clone(), 1)), "a==1");
    assert_eq!(show(&verugent::ops::PartialEq::ne(&a, &b)), "a!=b");
    assert_eq!(show(&verugent::ops::PartialOrd::gt(a.clone(), &b)), "a<b");
    assert_eq!(show(&verugent::ops::PartialOrd::ge(a.clone(), &b)), "a<=b");
    assert_eq!(show(&verugent::ops::PartialOrd::lt(a.clone(), &b)), "a>b");
    assert_eq!(show(&verugent::ops::PartialOrd::le(a.clone(), &b)), "a>=b");
    assert_eq!(show(&verugent::ops::PartialOrd::gt(&a, 9)), "a<9");
    assert_eq!(show(&verugent::ops::PartialOrd::ge(&a, 9)), "a<=9");
    assert_eq!(show(&verugent::ops::PartialOrd::lt(&a, 9)), "a>9");
    assert_eq!(show(&verugent::ops::PartialOrd::le(&a, 9)), "a>=9");
    assert_eq!(_StrOut(verugent::ops::PartialOrd::gt(&a, 9)), "more_than");
    assert_eq!(_StrOut(verugent::ops::PartialOrd::lt(&a, 9)), "less_than");
}

#[test]
fn parentheses_only_for_a_loose_right_operand_of_a_tight_operator() {
    let a = id("a");
    let b = id("b");
    let c = id("c");
    assert_eq!(show(&_Mul(&a, _Add(&b, &c))), "a*(b+c)");
    assert_eq!(show(&_Div(&a, _Sub(&b, &c))), "a/(b-c)");
    assert_eq!(show(&_Mod(&a, _Or(&b, &c))), "a%(b|c)");
    assert_eq!(show(&_Mul(&a, _LOr(&b, &c))), "a*(b||c)");
    assert_eq!(show(&_Mul(&a, _And(&b, &c))), "a*b&c");
    assert_eq!(show(&_Mul(&a, _Mul(&b, &c))), "a*b*c");
    assert_eq!(show(&_Mul(_Add(&a, &b), &c)), "a+b*c");
    assert_eq!(show(&_Add(&a, _Add(&b, &c))), "a+b+c");
    assert_eq!(show(&_Sub(&a, _Sub(&b, &c))), "a-b-c");
    assert_eq!(show(&_Add(_Mul(&a, &b), &c)), "a*b+c");
    assert_eq!(show(&_Add(&a, _Mul(&b, &c))), "a+b*c");
    assert_eq!(show(&_Mul(&a, _Add(&b, _Mul(&c, _Sub(&a, &b))))), "a*(b+c*(a-b))");
    assert_eq!(show(&_Mul(_Mul(&a, _Add(&b, &c)), &a)), "a*(b+c)*a");
    assert_eq!(show(&_Sub(&a, _Num(-1))), "a--1");
    assert_eq!(decomp_ast(true, &_Add(&a, &b), "", 0), "(a+b)");
    assert_eq!(decomp_ast(true, &_Mul(&a, &b), "", 0), "a*b");
    assert_eq!(decomp_ast(true, &a, "", 0), "a");
}

#[test]
fn selection_indexing_call_and_reduction() {
    let a = id("a");
    let b = id("b");
    assert_eq!(show(&_Branch(_Eq(&a, 1), &b, 0)), "(a==1)? b: 0");
    assert_eq!(show(&E::Func(a.clone(), vec![])), "a()");
    assert_eq!(show(&E::Func(a.clone(), vec![b.clone()])), "a(b)");
    assert_eq!(show(&E::Func(a.clone(), vec![b.clone(), _Num(3), a.clone()])), "a(b, 3, a)");
    assert_eq!(show(&E::Red(RedOp::And, a.clone())), "&a");
    assert_eq!(show(&E::Red(RedOp::Or, a.clone())), "|a");
    assert_eq!(show(&E::Red(RedOp::Xor, a.clone())), "^a");
    assert_eq!(show(&E::Red(RedOp::Nand, a.clone())), "~&a");
    assert_eq!(show(&E::Red(RedOp::Nor, a.clone())), "~|a");
    assert_eq!(show(&E::Red(RedOp::Xnor, a.clone())), "~^a");
    assert_eq!(show(&E::MEM(a.clone(), _Add(&b, 1))), "a[b+1]");
}

#[test]
fn assignment_style_follows_the_block_name() {
    let a = id("a");
    let b = id("b");
    let s = a.sst(&b);
    assert_eq!(decomp_ast(false, &s, "block", 0), "a = b;\n");
    assert_eq!(decomp_ast(false, &s, "Non", 0), "a <= b;\n");
    assert_eq!(decomp_ast(false, &s, "", 1), "    a <= b;\n");
    assert_eq!(decomp_ast(false, &s, "block", 3), "            a = b;\n");
    assert_eq!(decomp_ast(false, &s, "block", -2), "a = b;\n");
    assert_eq!(decomp_ast(false, &_Veq(a.addr(1), 0), "block", 2), "        a[1] = 0;\n");
    assert_eq!(decomp_ast(false, &_Add(&a, &b), "", 2), "        a+b");
}

#[test]
fn branch_chain_renders_in_order() {
    let a = id("a");
    let b = id("b");
    let q = id("q");
    let chain = If(&a, Form(q.sst(1)))
        .Else_If(&b, Form(q.sst(2)))
        .unwrap()
        .Else_If(_Eq(&a, &b), vec![])
        .unwrap()
        .Else(Form(q.sst(3)).Form(q.sst(4)))
        .unwrap();
    assert_eq!(
        decomp_ast(false, &chain, "block", 1),
        "    if(a) begin\n        q = 1;\n    end\n    else if(b) begin\n        q = 2;\n    end\n    else if(a==b) begin\n    end\n    else begin\n        q = 3;\n        q = 4;\n    end\n"
    );
    match *chain {
        E::BL(ref arms) => {
            assert_eq!(arms.len(), 4);
            assert!(arms[0].getIfFlag());
            assert!(!arms[3].getIfFlag());
            assert_eq!(show(&arms[1].getTerms()), "b");
            assert_eq!(arms[3].getStatement().len(), 2);
            assert_eq!(
                IfElseAST::print_list(arms.clone(), "Non", 0),
                "if(a) begin\n    q <= 1;\nend\nelse if(b) begin\n    q <= 2;\nend\nelse if(a==b) begin\nend\nelse begin\n    q <= 3;\n    q <= 4;\nend\n"
            );
        }
        _ => panic!("not a chain"),
    }
}

#[test]
fn a_chain_without_a_first_condition_is_its_body() {
    let q = id("q");
    let chain = If(Box::new(E::Null), Form(q.sst(1)).Form(q.sst(2)));
    assert_eq!(decomp_ast(false, &chain, "", 2), "        q <= 1;\n        q <= 2;\n");
    assert_eq!(IfElseAST::print_list(vec![], "", 2), "");
}

#[test]
fn nested_chains_indent_by_level() {
    let a = id("a");
    let q = id("q");
    let inner = If(&a, Form(q.sst(1)));
    let outer = If(&a, Form(inner)).Else(Form(q.sst(0))).unwrap();
    assert_eq!(
        decomp_ast(false, &outer, "", 0),
        "if(a) begin\n    if(a) begin\n        q <= 1;\n    end\nend\nelse begin\n    q <= 0;\nend\n"
    );
}

#[test]
fn continuing_what_is_no_chain_fails() {
    let a = id("a");
    assert!(matches!(a.clone().Else(vec![]), Err(ModelError::NotBranchChain)));
    assert!(matches!(a.clone().Else_If(1, vec![]), Err(ModelError::NotBranchChain)));
    assert!(matches!(Case(&a).Else(vec![]), Err(ModelError::NotBranchChain)));
    let closed = If(&a, vec![]).Else(vec![]).unwrap();
    assert!(matches!(closed.clone().Else(vec![]), Err(ModelError::ChainClosed)));
    assert!(matches!(closed.Else_If(&a, vec![]), Err(ModelError::ChainClosed)));
    assert!(matches!(a.clone().S(1, vec![]), Err(ModelError::NotCaseBlock)));
    assert!(matches!(a.clone().Default(vec![]), Err(ModelError::NotCaseBlock)));
    assert!(matches!(If(&a, vec![]).S(1, vec![]), Err(ModelError::NotCaseBlock)));
    let with_default = Case(&a).Default(vec![]).unwrap();
    assert!(matches!(with_default.clone().Default(vec![]), Err(ModelError::DuplicateDefault)));
    assert!(matches!(
        with_default.clone().S(Box::new(E::Null), vec![]),
        Err(ModelError::DuplicateDefault)
    ));
    assert!(with_default.S(2, vec![]).is_ok());
    assert_eq!(ModelError::NotBranchChain.message(), "Not If");
    assert_eq!(ModelError::NotCaseBlock.message(), "Not Case");
    assert_eq!(ModelError::ChainClosed.message(), "Branch already closed");
    assert_eq!(ModelError::DuplicateDefault.message(), "Default already given");
    assert_eq!(ModelError::NoCurrentState.message(), "No current state");
    assert_eq!(ModelError::NoStates.message(), "No state");
    assert_eq!(ModelError::NoCurrentRegister.message(), "No current register");
}

#[test]
fn case_statement_renders_clauses_in_order() {
    let sel = id("sel");
    let q = id("q");
    let c = Case(&sel)
        .S(0, Form(q.sst(1)))
        .unwrap()
        .S(1, Form(q.sst(2)).Form(q.sst(3)))
        .unwrap()
        .S(2, vec![])
        .unwrap()
        .Default(Form(q.sst(0)))
        .unwrap();
    assert_eq!(
        decomp_ast(false, &c, "block", 1),
        "    case (sel)\n        0 :q = 1;\n        1 :begin \n            q = 2;\n            q = 3;\n        end \n        2 :        default  :q = 0;\n    endcase\n"
    );
    match *c {
        E::CS(ref stmt) => {
            assert_eq!(stmt.getCaseV().print_as_param(), "parameter sel = 0");
            assert_eq!(stmt.getSelect().len(), 4);
            assert_eq!(
                CaseStmt::print(stmt.clone(), "Non", 0),
                "case (sel)\n    0 :q <= 1;\n    1 :begin \n        q <= 2;\n        q <= 3;\n    end \n    2 :    default  :q <= 0;\nendcase\n"
            );
        }
        _ => panic!("not a case statement"),
    }
}

#[test]
fn case_on_what_is_no_identifier_selects_on_a_blank_one() {
    let c = Case(5);
    assert_eq!(decomp_ast(false, &c, "", 0), "case (none)\nendcase\n");
    let mut stmt = match *c {
        E::CS(s) => s,
        _ => panic!("not a case statement"),
    };
    let mut w = WireVar::new();
    w.wire("k", 2);
    stmt.SetCaseV(w);
    stmt.SetCaseS(_Add(id("a"), 1), vec![]);
    assert_eq!(CaseStmt::print(stmt, "", 0), "case (k)\n        a+1 :endcase\n");
}

#[test]
fn statement_lists_grow_at_the_end() {
    let q = id("q");
    let list = Form(q.sst(1)).Form(q.sst(2)).Form(3);
    assert_eq!(list.len(), 3);
    assert_eq!(show(&list[0]), "q <= 1;\n");
    assert_eq!(show(&list[2]), "3");
}

#[test]
fn taking_nodes_apart() {
    let a = id("a");
    let b = id("b");
    let c = id("c");
    let sum = _Add(&a, &b);
    assert_eq!(show(&_Decomp(&sum, "L")), "a");
    assert_eq!(show(&_Decomp(&sum, "R")), "b");
    assert!(matches!(*_Decomp(&sum, "D"), E::Null));
    let pick = _Branch(&a, &b, &c);
    assert_eq!(show(&_Decomp(&pick, "D")), "a");
    assert_eq!(show(&_Decomp(&pick, "T")), "b");
    assert_eq!(show(&_Decomp(&pick, "F")), "c");
    assert!(matches!(*_Decomp(&pick, "L"), E::Null));
    let set = _Veq(&a, &b);
    assert_eq!(show(&_Decomp(&set, "L")), "a");
    assert_eq!(show(&_Decomp(&set, "R")), "b");
    assert!(matches!(*_Decomp(&set, "x"), E::Null));
    assert!(matches!(*_Decomp(&a, "L"), E::Null));
    assert_eq!(_StrOut(&a), "a");
    assert_eq!(_StrOut(&sum), "add");
    assert_eq!(_StrOut(_Neq(&a, &b)), "Not equal");
    assert_eq!(_StrOut(_Num(4)), "Null");
    assert_eq!(_StrOut(&pick), "Null");
    assert_eq!(_NumOut(_Num(4)), 4);
    assert_eq!(_NumOut(&sum), 0);
    let mut w = WireVar::new();
    assert_eq!(_NumOut(w.wire("w", 12)), 12);
    assert_eq!(BinOp::RShiftA.tag_text(), "rshifta");
    assert_eq!(BinOp::OrLess.symbol_text(), ">=");
}

#[test]
fn conversions_into_expressions() {
    let a = id("a");
    let from_ref: Box<E> = Box::from(&a);
    assert_eq!(show(&from_ref), "a");
    let from_int: Box<E> = Box::from(12);
    assert_eq!(show(&from_int), "12");
    let from_int_ref: Box<E> = Box::from(&13);
    assert_eq!(show(&from_int_ref), "13");
    let mut b = id("b");
    assert_eq!(show(&_Add(&mut b, &7)), "b+7");
    let deep = (*a).clone();
    assert_eq!(show(&deep), "a");
}

#[test]
fn operators_are_found_by_their_names() {
    let all = [
        BinOp::Add,
        BinOp::Sub,
        BinOp::Mul,
        BinOp::Div,
        BinOp::Mod,
        BinOp::Or,
        BinOp::And,
        BinOp::Xor,
        BinOp::LOr,
        BinOp::LAnd,
        BinOp::LShift,
        BinOp::RShift,
        BinOp::RShiftA,
        BinOp::Equal,
        BinOp::NotEqual,
        BinOp::MoreThan,
        BinOp::LessThan,
        BinOp::OrMore,
        BinOp::OrLess,
    ];
    for op in all {
        assert_eq!(operator(op.tag_text()).unwrap(), op);
    }
    assert_eq!(show(&binary_by_name("more_than", id("a"), 3).unwrap()), "a<3");
    match operator("power") {
        Err(ModelError::UnknownOperator(tag)) => assert_eq!(tag, "power"),
        other => panic!("unexpected: {:?}", other),
    }
    match binary_by_name("Add", 1, 2) {
        Err(e) => assert_eq!(e.message(), "No correspond syntax : error operator -- Add"),
        Ok(_) => panic!("unexpected"),
    }
}
