//! The emitter: serializes the target-instruction tree into the textual
//! assembly syntax expected by the external assembler. A program carries a
//! global-symbol directive for the entry function and ends with a GNU-stack
//! note section directive; a function definition emits its label and then
//! every instruction in order; output accumulates into one buffer.

use vstd::prelude::*;

use crate::assembly_ast::Instr;
use crate::assembly_ast::InstrV;
use crate::assembly_ast::instr_list_view;
use crate::assembly_ast::instr_view;
use crate::decimal::int_digits;
use crate::decimal::push_decimal_i32;

verus! {

/// Failure of emission.
#[derive(Clone, Copy, Debug, PartialEq, Eq, Structural)]
pub enum EmitError {
    /// Writing the emitted text to its file failed.
    FileError,
    /// A function's name node is not an identifier.
    InvalidFunctionName,
}

/// The text of an instruction tree, or nothing when some function-definition
/// node's name is not an identifier.
pub open spec fn spec_emit_instr(iv: InstrV) -> Option<Seq<char>>
    decreases iv,
{
    match iv {
        InstrV::Program { body } => match spec_emit_instr(*body) {
            Some(b) => Some(
                "    .globl main\n"@ + b + "    .section .note.GNU-stack,\"\",@progbits"@,
            ),
            None => None,
        },
        InstrV::FuncDef { name, instructions } => match *name {
            InstrV::Identifier { name: n } => match spec_emit_list(instructions) {
                Some(body) => Some(n + ":\n"@ + body),
                None => None,
            },
            _ => None,
        },
        InstrV::Mov { src, dst } => match (spec_emit_instr(*src), spec_emit_instr(*dst)) {
            (Some(s), Some(d)) => Some("    movl"@ + "    "@ + s + ", "@ + d + "\n"@),
            _ => None,
        },
        InstrV::Ret => Some("    ret\n"@),
        InstrV::Imm { value } => Some("$"@ + int_digits(value)),
        InstrV::Register => Some("%eax"@),
        InstrV::Identifier { name } => Some(name),
        InstrV::Series { instructions } => spec_emit_list(instructions),
    }
}

/// The text of a list of instruction trees: each one's text in order.
pub open spec fn spec_emit_list(l: Seq<InstrV>) -> Option<Seq<char>>
    decreases l,
{
    if l.len() == 0 {
        Some(Seq::empty())
    } else {
        match (spec_emit_instr(l[0]), spec_emit_list(l.drop_first())) {
            (Some(h), Some(t)) => Some(h + t),
            _ => None,
        }
    }
}

/// A sequence is a prefix of itself extended by anything.
pub proof fn lemma_prefix_of_append(a: Seq<char>, b: Seq<char>)
    ensures
        a.is_prefix_of(a + b),
{
    assert(a =~= (a + b).subrange(0, a.len() as int));
}

/// Being a prefix carries across a middle sequence.
pub proof fn lemma_prefix_of_trans(a: Seq<char>, b: Seq<char>, c: Seq<char>)
    requires
        a.is_prefix_of(b),
        b.is_prefix_of(c),
    ensures
        a.is_prefix_of(c),
{
    assert forall|i: int| 0 <= i < a.len() implies a[i] == c[i] by {
        assert(a[i] == b.subrange(0, a.len() as int)[i]);
        assert(b[i] == c.subrange(0, b.len() as int)[i]);
    }
    assert(a =~= c.subrange(0, a.len() as int));
}

/// The emitter. It accumulates the serialized text into one buffer, which is
/// persisted only once fully built.
pub struct Emitter {
    pub output: String,
}

impl Emitter {
    pub fn new() -> (e: Emitter)
        ensures
            e.output@ =~= Seq::<char>::empty(),
    {
        Emitter { output: String::new() }
    }

    /// Serializes an instruction tree and returns the whole buffer's text.
    pub fn emit_str(&mut self, instr: Box<Instr>) -> (r: Result<String, EmitError>)
        ensures
            match spec_emit_instr((*instr)@) {
                Some(t) => r matches Ok(s) && s@ == old(self).output@ + t && final(self).output@
                    == old(self).output@ + t,
                None => r == Err::<String, EmitError>(EmitError::InvalidFunctionName) && old(
                    self,
                ).output@.is_prefix_of(final(self).output@),
            },
    {
        match self.emit_instr(instr) {
            Ok(_) => {},
            Err(e) => {
                return Err(e);
            },
        }
        Ok(self.output.clone())
    }

    /// Appends the serialization of one instruction tree to the buffer.
    /// Fails, leaving whatever was appended before the failing node in the
    /// buffer, when a function definition's name is not an identifier.
    #[verifier::loop_isolation(false)]
    #[verifier::rlimit(100)]
    pub fn emit_instr(&mut self, instr: Box<Instr>) -> (r: Result<(), EmitError>)
        ensures
            match spec_emit_instr((*instr)@) {
                Some(t) => r is Ok && final(self).output@ == old(self).output@ + t,
                None => r == Err::<(), EmitError>(EmitError::InvalidFunctionName) && old(
                    self,
                ).output@.is_prefix_of(final(self).output@),
            },
        decreases instr,
    {
        proof {
            reveal_with_fuel(crate::assembly_ast::instr_view, 3);
        }
        let ghost old_out = self.output@;
        match *instr {
            Instr::Program { body } => {
                self.output.append("    .globl main\n");
                let ghost out_pre = self.output@;
                match self.emit_instr(body) {
                    Ok(_) => {},
                    Err(e) => {
                        proof {
                            lemma_prefix_of_append(old_out, "    .globl main\n"@);
                            lemma_prefix_of_trans(old_out, out_pre, self.output@);
                        }
                        return Err(e);
                    },
                }
                self.output.append("    .section .note.GNU-stack,\"\",@progbits");
                proof {
                    let b = spec_emit_instr(instr_view(*body))->Some_0;
                    assert(self.output@ =~= old_out + ("    .globl main\n"@ + b
                        + "    .section .note.GNU-stack,\"\",@progbits"@));
                }
                Ok(())
            },
            Instr::FuncDef { name, instructions } => {
                let func_name = match *name {
                    Instr::Identifier { value } => value,
                    _ => {
                        proof {
                            assert(old_out.is_prefix_of(self.output@)) by {
                                assert(old_out =~= self.output@.subrange(
                                    0,
                                    old_out.len() as int,
                                ));
                            }
                        }
                        return Err(EmitError::InvalidFunctionName);
                    },
                };
                proof {
                    assert(decreases_to!(instr => instructions));
                }
                self.output.append(func_name.as_str());
                self.output.append(":\n");
                let ghost base = self.output@;
                let ghost gv = instructions;
                let ghost mut k: int = 0;
                let mut rest = instructions;
                proof {
                    assert(rest@ =~= gv@.subrange(0, gv@.len() as int));
                    assert(base.is_prefix_of(self.output@)) by {
                        assert(base =~= self.output@.subrange(0, base.len() as int));
                    }
                    lemma_prefix_of_append(old_out, func_name@);
                    lemma_prefix_of_append(old_out + func_name@, ":\n"@);
                    lemma_prefix_of_trans(old_out, old_out + func_name@, base);
                }
                while rest.len() > 0
                    invariant
                        0 <= k <= gv@.len(),
                        rest@ =~= gv@.subrange(k, gv@.len() as int),
                        base.is_prefix_of(self.output@),
                        match spec_emit_list(instr_list_view(rest@)) {
                            Some(t) => spec_emit_list(instr_list_view(gv@)) == Some(
                                self.output@.skip(base.len() as int) + t,
                            ),
                            None => spec_emit_list(instr_list_view(gv@)) is None,
                        },
                    decreases rest@.len(),
                {
                    let ghost rest_pre = rest@;
                    let head = rest.remove(0);
                    proof {
                        assert(head == gv@[k]);
                        assert(decreases_to!(gv => gv@));
                        assert(decreases_to!(gv@ => gv@[k]));
                        assert(decreases_to!(instr => head));
                        assert(rest@ =~= gv@.subrange(k + 1, gv@.len() as int));
                    }
                    let ghost out_pre = self.output@;
                    match self.emit_instr(head) {
                        Ok(_) => {},
                        Err(e) => {
                            proof {
                                lemma_prefix_of_trans(old_out, base, out_pre);
                                lemma_prefix_of_trans(old_out, out_pre, self.output@);
                            }
                            return Err(e);
                        },
                    }
                    proof {
                        k = k + 1;
                        let hv = instr_view(*rest_pre[0]);
                        assert(instr_list_view(rest_pre) =~= seq![hv] + instr_list_view(
                            rest_pre.drop_first(),
                        ));
                        assert((seq![hv] + instr_list_view(rest_pre.drop_first()))[0] == hv);
                        assert((seq![hv] + instr_list_view(rest_pre.drop_first())).drop_first()
                            =~= instr_list_view(rest_pre.drop_first()));
                        assert(rest@ =~= rest_pre.drop_first());
                        let h = spec_emit_instr(hv)->Some_0;
                        assert(self.output@.skip(base.len() as int) =~= out_pre.skip(
                            base.len() as int,
                        ) + h);
                        if spec_emit_list(instr_list_view(rest@)) is Some {
                            let t = spec_emit_list(instr_list_view(rest@))->Some_0;
                            assert((out_pre.skip(base.len() as int) + h) + t =~= out_pre.skip(
                                base.len() as int,
                            ) + (h + t));
                        }
                        lemma_prefix_of_append(out_pre, h);
                        lemma_prefix_of_trans(base, out_pre, self.output@);
                    }
                }
                proof {
                    assert(instr_list_view(rest@) =~= Seq::<InstrV>::empty());
                    let body_text = spec_emit_list(instr_list_view(gv@))->Some_0;
                    assert(self.output@.skip(base.len() as int) + Seq::<char>::empty()
                        =~= self.output@.skip(base.len() as int));
                    assert(self.output@ =~= base + self.output@.skip(base.len() as int));
                    assert(self.output@ =~= old_out + (func_name@ + ":\n"@ + body_text));
                }
                Ok(())
            },
            Instr::Mov { src, dst } => {
                self.output.append("    movl");
                self.output.append("    ");
                let ghost out_pre = self.output@;
                proof {
                    lemma_prefix_of_append(old_out, "    movl"@);
                    lemma_prefix_of_append(old_out + "    movl"@, "    "@);
                    lemma_prefix_of_trans(old_out, old_out + "    movl"@, out_pre);
                }
                match self.emit_instr(src) {
                    Ok(_) => {},
                    Err(e) => {
                        proof {
                            lemma_prefix_of_trans(old_out, out_pre, self.output@);
                        }
                        return Err(e);
                    },
                }
                let ghost out_src = self.output@;
                self.output.append(", ");
                let ghost out_mid = self.output@;
                match self.emit_instr(dst) {
                    Ok(_) => {},
                    Err(e) => {
                        proof {
                            let s = spec_emit_instr(instr_view(*src))->Some_0;
                            lemma_prefix_of_append(out_pre, s);
                            lemma_prefix_of_trans(old_out, out_pre, out_src);
                            lemma_prefix_of_append(out_src, ", "@);
                            lemma_prefix_of_trans(old_out, out_src, out_mid);
                            lemma_prefix_of_trans(old_out, out_mid, self.output@);
                        }
                        return Err(e);
                    },
                }
                self.output.append("\n");
                proof {
                    let s = spec_emit_instr(instr_view(*src))->Some_0;
                    let d = spec_emit_instr(instr_view(*dst))->Some_0;
                    assert(self.output@ =~= old_out + ("    movl"@ + "    "@ + s + ", "@ + d
                        + "\n"@));
                }
                Ok(())
            },
            Instr::Ret => {
                self.output.append("    ret\n");
                Ok(())
            },
            Instr::Imm { value } => {
                self.output.append("$");
                push_decimal_i32(&mut self.output, value);
                proof {
                    assert(self.output@ =~= old_out + ("$"@ + int_digits(value as int)));
                }
                Ok(())
            },
            Instr::Register => {
                self.output.append("%eax");
                Ok(())
            },
            Instr::Identifier { value } => {
                self.output.append(value.as_str());
                Ok(())
            },
            Instr::Series { instructions } => {
                proof {
                    assert(decreases_to!(instr => instructions));
                }
                let ghost base = self.output@;
                let ghost gv = instructions;
                let ghost mut k: int = 0;
                let mut rest = instructions;
                proof {
                    assert(rest@ =~= gv@.subrange(0, gv@.len() as int));
                    assert(base.is_prefix_of(self.output@)) by {
                        assert(base =~= self.output@.subrange(0, base.len() as int));
                    }
                }
                while rest.len() > 0
                    invariant
                        0 <= k <= gv@.len(),
                        rest@ =~= gv@.subrange(k, gv@.len() as int),
                        base.is_prefix_of(self.output@),
                        match spec_emit_list(instr_list_view(rest@)) {
                            Some(t) => spec_emit_list(instr_list_view(gv@)) == Some(
                                self.output@.skip(base.len() as int) + t,
                            ),
                            None => spec_emit_list(instr_list_view(gv@)) is None,
                        },
                    decreases rest@.len(),
                {
                    let ghost rest_pre = rest@;
                    let head = rest.remove(0);
                    proof {
                        assert(head == gv@[k]);
                        assert(decreases_to!(gv => gv@));
                        assert(decreases_to!(gv@ => gv@[k]));
                        assert(decreases_to!(instr => head));
                        assert(rest@ =~= gv@.subrange(k + 1, gv@.len() as int));
                    }
                    let ghost out_pre = self.output@;
                    match self.emit_instr(head) {
                        Ok(_) => {},
                        Err(e) => {
                            proof {
                                lemma_prefix_of_trans(old_out, base, out_pre);
                                lemma_prefix_of_trans(old_out, out_pre, self.output@);
                            }
                            return Err(e);
                        },
                    }
                    proof {
                        k = k + 1;
                        let hv = instr_view(*rest_pre[0]);
                        assert(instr_list_view(rest_pre) =~= seq![hv] + instr_list_view(
                            rest_pre.drop_first(),
                        ));
                        assert((seq![hv] + instr_list_view(rest_pre.drop_first()))[0] == hv);
                        assert((seq![hv] + instr_list_view(rest_pre.drop_first())).drop_first()
                            =~= instr_list_view(rest_pre.drop_first()));
                        assert(rest@ =~= rest_pre.drop_first());
                        let h = spec_emit_instr(hv)->Some_0;
                        assert(self.output@.skip(base.len() as int) =~= out_pre.skip(
                            base.len() as int,
                        ) + h);
                        if spec_emit_list(instr_list_view(rest@)) is Some {
                            let t = spec_emit_list(instr_list_view(rest@))->Some_0;
                            assert((out_pre.skip(base.len() as int) + h) + t =~= out_pre.skip(
                                base.len() as int,
                            ) + (h + t));
                        }
                        lemma_prefix_of_append(out_pre, h);
                        lemma_prefix_of_trans(base, out_pre, self.output@);
                    }
                }
                proof {
                    assert(instr_list_view(rest@) =~= Seq::<InstrV>::empty());
                    assert(self.output@.skip(base.len() as int) + Seq::<char>::empty()
                        =~= self.output@.skip(base.len() as int));
                    assert(self.output@ =~= base + self.output@.skip(base.len() as int));
                }
                Ok(())
            },
        }
    }
}

} // verus!
