//! The target-instruction syntax tree, architecture-specific enough to be
//! emitted as text directly, with its mathematical value.

use vstd::prelude::*;

verus! {

/// Assembly Instructions AST.
#[derive(Debug)]
pub enum Instr {
    /// Represents an assembly program.
    Program { body: Box<Instr> },
    /// Represents a function definition.
    FuncDef { name: Box<Instr>, instructions: Vec<Box<Instr>> },
    /// Represents a move operation.
    Mov { src: Box<Instr>, dst: Box<Instr> },
    /// Represents a return instruction.
    Ret,
    /// Represents an immediate value.
    Imm { value: i32 },
    /// Represents a single register: the 32-bit return-value register.
    Register,
    /// Represents an identifier.
    Identifier { value: String },
    /// Represents a series of instructions: a flattening device, not an
    /// addressable construct.
    Series { instructions: Vec<Box<Instr>> },
}

/// The mathematical value of an instruction tree.
#[verifier::ext_equal]
pub enum InstrV {
    Program { body: Box<InstrV> },
    FuncDef { name: Box<InstrV>, instructions: Seq<InstrV> },
    Mov { src: Box<InstrV>, dst: Box<InstrV> },
    Ret,
    Imm { value: int },
    Register,
    Identifier { name: Seq<char> },
    Series { instructions: Seq<InstrV> },
}

/// The mathematical value of an instruction tree.
pub open spec fn instr_view(i: Instr) -> InstrV
    decreases i,
{
    match i {
        Instr::Program { body } => InstrV::Program { body: Box::new(instr_view(*body)) },
        Instr::FuncDef { name, instructions } => InstrV::FuncDef {
            name: Box::new(instr_view(*name)),
            instructions: instr_list_view(instructions@),
        },
        Instr::Mov { src, dst } => InstrV::Mov {
            src: Box::new(instr_view(*src)),
            dst: Box::new(instr_view(*dst)),
        },
        Instr::Ret => InstrV::Ret,
        Instr::Imm { value } => InstrV::Imm { value: value as int },
        Instr::Register => InstrV::Register,
        Instr::Identifier { value } => InstrV::Identifier { name: value@ },
        Instr::Series { instructions } => InstrV::Series {
            instructions: instr_list_view(instructions@),
        },
    }
}

/// The values of a list of instruction trees.
pub open spec fn instr_list_view(l: Seq<Box<Instr>>) -> Seq<InstrV>
    decreases l,
{
    if l.len() == 0 {
        Seq::empty()
    } else {
        seq![instr_view(*l[0])] + instr_list_view(l.drop_first())
    }
}

impl View for Instr {
    type V = InstrV;

    open spec fn view(&self) -> InstrV {
        instr_view(*self)
    }
}

/// The value of a list is the values of its elements, in order.
pub proof fn lemma_instr_list_view(l: Seq<Box<Instr>>)
    ensures
        instr_list_view(l).len() == l.len(),
        forall|i: int| 0 <= i < l.len() ==> instr_list_view(l)[i] == instr_view(*l[i]),
    decreases l.len(),
{
    if l.len() > 0 {
        lemma_instr_list_view(l.drop_first());
    }
}

} // verus!
