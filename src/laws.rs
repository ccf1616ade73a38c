use vstd::prelude::*;

use crate::engine::{
    arg1, arg2, arg3, cell, opcode, state_wf, step_error, step_spec, wrap, EngineError, MachineState,
    CMP, DIV, GOTO, INST, PRINT, READ, SKIP, SYNC, ADD, SUB, MUL, BAND, XOR,
};

verus! {

/// After a step without error the instruction pointer is at the next
/// instruction: 4 words further on, unless a GOTO or SKIP whose condition
/// cell is zero moved it to its own target.
pub proof fn lemma_ip_update(s: MachineState)
    requires
        state_wf(s),
        step_error(s) is None,
    ensures
        opcode(s) == GOTO && cell(s, arg3(s)) == 0 ==> step_spec(s).ip == wrap(
            cell(s, arg1(s)) + arg2(s),
        ),
        opcode(s) == SKIP && cell(s, arg3(s)) == 0 ==> step_spec(s).ip == wrap(
            s.ip + 4 * arg1(s) - 4 * arg2(s),
        ),
        !((opcode(s) == GOTO || opcode(s) == SKIP) && cell(s, arg3(s)) == 0) ==> (step_spec(s).ip
            - s.ip) % 0x10000 == 4,
{
}

/// ADD, SUB, MUL, BAND and XOR store in cell `a3` the result of
/// the operation on `@a1` and `@a2`, arithmetic taken modulo 2^16.
pub proof fn lemma_alu(s: MachineState)
    requires
        state_wf(s),
    ensures
        ({
            let x = cell(s, arg1(s));
            let y = cell(s, arg2(s));
            let r = step_spec(s).memory[arg3(s) as int];
            &&& opcode(s) == ADD ==> r == (x + y) % 0x10000
            &&& opcode(s) == SUB ==> r == (x - y) % 0x10000
            &&& opcode(s) == MUL ==> r == (x * y) % 0x10000
            &&& opcode(s) == BAND ==> r == x & y
            &&& opcode(s) == XOR ==> r == x ^ y
        }),
{
}

/// DIV by a non-zero `@a2` stores the floor of the quotient in cell `a3`;
/// by zero it raises `ZeroDivision` (and `step` then leaves the state as it was).
pub proof fn lemma_div(s: MachineState)
    requires
        state_wf(s),
        opcode(s) == DIV,
    ensures
        cell(s, arg2(s)) != 0 ==> step_error(s) is None && step_spec(s).memory[arg3(s) as int]
            == cell(s, arg1(s)) / cell(s, arg2(s)),
        cell(s, arg2(s)) == 0 ==> step_error(s) == Some(EngineError::ZeroDivision),
{
}

/// CMP stores 0 or 1 in cell `a3`, and 1 exactly when `@a1 < @a2`.
pub proof fn lemma_cmp(s: MachineState)
    requires
        state_wf(s),
        opcode(s) == CMP,
    ensures
        step_spec(s).memory[arg3(s) as int] == 0 || step_spec(s).memory[arg3(s) as int] == 1,
        step_spec(s).memory[arg3(s) as int] == 1 <==> cell(s, arg1(s)) < cell(s, arg2(s)),
{
}

/// A READ of the screen cell that the previous PRINT wrote gets back the
/// printed word.
pub proof fn lemma_print_read(s: MachineState)
    requires
        state_wf(s),
        opcode(s) == PRINT,
        opcode(step_spec(s)) == READ,
        cell(step_spec(s), arg1(step_spec(s))) == cell(s, arg2(s)),
    ensures
        ({
            let t = step_spec(s);
            step_spec(t).memory[arg2(t) as int] == cell(s, arg1(s))
        }),
{
}

/// Two SYNCs in a row, with no host servicing between them, store the same
/// latched pointer and key codes.
pub proof fn lemma_sync_latch(s: MachineState)
    requires
        state_wf(s),
        opcode(s) == SYNC,
        opcode(step_spec(s)) == SYNC,
    ensures
        ({
            let t = step_spec(s);
            let u = step_spec(t);
            &&& t.sync_called && u.sync_called
            &&& t.pos_code == s.pos_code && t.key_code == s.key_code
            &&& t.memory[arg2(s) as int] == s.key_code
            &&& arg1(s) != arg2(s) ==> t.memory[arg1(s) as int] == s.pos_code
            &&& u.memory[arg2(t) as int] == s.key_code
            &&& arg1(t) != arg2(t) ==> u.memory[arg1(t) as int] == s.pos_code
        }),
{
}

/// INST stores the address of the INST instruction itself in cell `a1`.
pub proof fn lemma_inst(s: MachineState)
    requires
        state_wf(s),
        opcode(s) == INST,
    ensures
        step_spec(s).memory[arg1(s) as int] == s.ip,
{
}

/// A SKIP whose condition cell is zero moves the instruction pointer by
/// `4 * (a1 - a2)` words, modulo 2^16.
pub proof fn lemma_skip(s: MachineState)
    requires
        state_wf(s),
        opcode(s) == SKIP,
        cell(s, arg3(s)) == 0,
    ensures
        step_spec(s).ip == (s.ip + 4 * (arg1(s) - arg2(s))) % 0x10000,
{
}

} // verus!
