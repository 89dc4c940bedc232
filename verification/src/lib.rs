//! A builder for models of synchronous digital circuits and a renderer that
//! turns a finished model into hardware-description text.
//!
//! A host program declares ports, wires and registers on a unit
//! ([`module`]), builds expressions and statements ([`builder`], [`ops`],
//! [`stmt`]), groups them into continuous assignments, clocked processes and
//! functions ([`process`]), describes state machines ([`fsm`]) and bus
//! adapters ([`axi`], [`bus`]), and renders the unit once it is complete.
//!
//! Every executable type is viewed as a value of a mathematical model
//! ([`ast`] and the model types beside each executable type), and the text
//! that a value renders to is a function of its model ([`render`],
//! [`text`], [`template`], [`width`]). The contracts of the executable
//! functions are stated over these models, and the laws that hold of the
//! rendered text ([`precedence`], and the lemmas in [`fsm`], [`stmt`] and
//! [`module`]) are proved from them.
#![allow(non_snake_case)]
#![allow(non_camel_case_types)]

pub mod ast;
pub mod axi;
pub mod builder;
pub mod bus;
pub mod error;
pub mod expr;
pub mod fsm;
pub mod module;
pub mod ops;
pub mod precedence;
pub mod process;
pub mod render;
pub mod signal;
pub mod stmt;
pub mod template;
pub mod text;
pub mod width;
