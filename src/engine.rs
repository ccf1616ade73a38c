use vstd::prelude::*;

verus! {

/// Number of words in main memory and in screen memory.
pub const MEMSIZE: usize = 65536;

pub const SET: u16 = 0;
pub const GOTO: u16 = 1;
pub const SKIP: u16 = 2;
pub const ADD: u16 = 3;
pub const SUB: u16 = 4;
pub const MUL: u16 = 5;
pub const DIV: u16 = 6;
pub const CMP: u16 = 7;
pub const DEREF: u16 = 8;
pub const REF: u16 = 9;
pub const INST: u16 = 10;
pub const PRINT: u16 = 11;
pub const READ: u16 = 12;
pub const BAND: u16 = 13;
pub const XOR: u16 = 14;
pub const SYNC: u16 = 15;

/// The abstract machine state: both memories, the instruction pointer,
/// the latched inputs and the sync-requested flag.
pub ghost struct MachineState {
    pub memory: Seq<u16>,
    pub screen: Seq<u16>,
    pub ip: u16,
    pub pos_code: u16,
    pub key_code: u16,
    pub sync_called: bool,
}

/// Reduces an integer to a 16-bit word (arithmetic modulo 2^16).
pub open spec fn wrap(x: int) -> u16 {
    (x % 0x10000) as u16
}

/// Word `o` of the instruction at the instruction pointer.
pub open spec fn fetch(s: MachineState, o: int) -> u16 {
    s.memory[wrap(s.ip + o) as int]
}

pub open spec fn opcode(s: MachineState) -> u16 {
    fetch(s, 0)
}

pub open spec fn arg1(s: MachineState) -> u16 {
    fetch(s, 1)
}

pub open spec fn arg2(s: MachineState) -> u16 {
    fetch(s, 2)
}

pub open spec fn arg3(s: MachineState) -> u16 {
    fetch(s, 3)
}

/// `@a`: the main-memory cell at address `a`.
pub open spec fn cell(s: MachineState, a: u16) -> u16 {
    s.memory[a as int]
}

/// Writes `v` to main memory at `a` and moves to the next instruction.
pub open spec fn store_next(s: MachineState, a: u16, v: u16) -> MachineState {
    MachineState { memory: s.memory.update(a as int, v), ip: wrap(s.ip + 4), ..s }
}

/// Moves the instruction pointer to `target`.
pub open spec fn jump(s: MachineState, target: u16) -> MachineState {
    MachineState { ip: target, ..s }
}

/// The error, if any, that executing the current instruction raises.
pub open spec fn step_error(s: MachineState) -> Option<EngineError> {
    if opcode(s) > SYNC {
        Some(EngineError::InvalidInstruction)
    } else if opcode(s) == DIV && cell(s, arg2(s)) == 0 {
        Some(EngineError::ZeroDivision)
    } else {
        None
    }
}

/// The state after executing the current instruction, where it raises no error.
pub open spec fn step_spec(s: MachineState) -> MachineState {
    let op = opcode(s);
    let a1 = arg1(s);
    let a2 = arg2(s);
    let a3 = arg3(s);
    let x = cell(s, a1);
    let y = cell(s, a2);
    if op == SET {
        store_next(s, a1, a2)
    } else if op == GOTO {
        if cell(s, a3) == 0 {
            jump(s, wrap(x + a2))
        } else {
            jump(s, wrap(s.ip + 4))
        }
    } else if op == SKIP {
        if cell(s, a3) == 0 {
            jump(s, wrap(s.ip + 4 * a1 - 4 * a2))
        } else {
            jump(s, wrap(s.ip + 4))
        }
    } else if op == ADD {
        store_next(s, a3, wrap(x + y))
    } else if op == SUB {
        store_next(s, a3, wrap(x - y))
    } else if op == MUL {
        store_next(s, a3, wrap(x * y))
    } else if op == DIV {
        store_next(s, a3, (x / y) as u16)
    } else if op == CMP {
        store_next(s, a3, if x < y { 1 } else { 0 })
    } else if op == DEREF {
        store_next(s, a2, cell(s, wrap(x + a3)))
    } else if op == REF {
        store_next(s, wrap(x + a3), y)
    } else if op == INST {
        store_next(s, a1, s.ip)
    } else if op == PRINT {
        MachineState { screen: s.screen.update(y as int, x), ip: wrap(s.ip + 4), ..s }
    } else if op == READ {
        store_next(s, a2, s.screen[x as int])
    } else if op == BAND {
        store_next(s, a3, x & y)
    } else if op == XOR {
        store_next(s, a3, x ^ y)
    } else {
        let t = MachineState { sync_called: true, ..s };
        let t = MachineState { memory: t.memory.update(a1 as int, s.pos_code), ..t };
        store_next(t, a2, s.key_code)
    }
}

/// The state after `n` error-free steps from `s`.
pub open spec fn run_steps(s: MachineState, n: nat) -> MachineState
    decreases n,
{
    if n == 0 {
        s
    } else {
        step_spec(run_steps(s, (n - 1) as nat))
    }
}

/// None of the first `n` steps from `s` starts with a sync request pending
/// or raises an error.
pub open spec fn runs_clear(s: MachineState, n: nat) -> bool {
    forall|k: nat|
        k < n ==> !(#[trigger] run_steps(s, k)).sync_called && step_error(run_steps(s, k)) is None
}

/// The fatal errors of a step.
#[derive(Debug, Clone, Copy, PartialEq, Eq, Structural)]
pub enum EngineError {
    ZeroDivision,
    InvalidInstruction,
}

impl EngineError {
    /// A human-readable description of the error.
    pub fn message(&self) -> (r: String)
        ensures
            *self == EngineError::ZeroDivision ==> r@ == "Division by zero"@,
            *self == EngineError::InvalidInstruction ==> r@ == "Invalid instruction"@,
    {
        match self {
            EngineError::ZeroDivision => String::from_str("Division by zero"),
            EngineError::InvalidInstruction => String::from_str("Invalid instruction"),
        }
    }
}

/// The virtual machine.
pub struct Engine {
    memory: Vec<u16>,
    screen: Vec<u16>,
    instruction_pointer: u16,
    pos_code: u16,
    key_code: u16,
    sync_called: bool,
}

impl View for Engine {
    type V = MachineState;

    closed spec fn view(&self) -> MachineState {
        MachineState {
            memory: self.memory@,
            screen: self.screen@,
            ip: self.instruction_pointer,
            pos_code: self.pos_code,
            key_code: self.key_code,
            sync_called: self.sync_called,
        }
    }
}

/// Both memories hold exactly 65536 words.
pub open spec fn state_wf(s: MachineState) -> bool {
    s.memory.len() == MEMSIZE && s.screen.len() == MEMSIZE
}

impl Engine {
    pub open spec fn wf(&self) -> bool {
        state_wf(self@)
    }

    /// A machine whose main memory starts with `state` (words past 65536 are
    /// dropped) and is zero elsewhere; the screen, the instruction pointer
    /// and the latched inputs are zero and no sync is requested.
    pub fn new(state: Vec<u16>) -> (r: Self)
        ensures
            r.wf(),
            forall|a: int|
                0 <= a < MEMSIZE ==> r@.memory[a] == (if a < state@.len() {
                    state@[a]
                } else {
                    0u16
                }),
            forall|a: int| 0 <= a < MEMSIZE ==> r@.screen[a] == 0,
            r@.ip == 0,
            r@.pos_code == 0,
            r@.key_code == 0,
            !r@.sync_called,
    {
        let mut memory: Vec<u16> = Vec::new();
        let mut screen: Vec<u16> = Vec::new();
        let mut i: usize = 0;
        while i < MEMSIZE
            invariant
                i <= MEMSIZE,
                memory@.len() == i,
                screen@.len() == i,
                forall|a: int|
                    0 <= a < i ==> memory@[a] == (if a < state@.len() {
                        state@[a]
                    } else {
                        0u16
                    }),
                forall|a: int| 0 <= a < i ==> screen@[a] == 0,
            decreases MEMSIZE - i,
        {
            if i < state.len() {
                memory.push(state[i]);
            } else {
                memory.push(0);
            }
            screen.push(0);
            i = i + 1;
        }
        Self {
            memory,
            screen,
            instruction_pointer: 0,
            pos_code: 0,
            key_code: 0,
            sync_called: false,
        }
    }

    /// Whether the program has executed SYNC since the last host servicing.
    pub fn wants_to_sync(&self) -> (r: bool)
        ensures
            r == self@.sync_called,
    {
        return self.sync_called;
    }

    pub fn get_instruction_pointer(&self) -> (r: u16)
        ensures
            r == self@.ip,
    {
        self.instruction_pointer
    }

    /// Latches new pointer and key codes; nothing else changes.
    pub fn set_input(&mut self, pos_code: u16, key_code: u16)
        ensures
            final(self)@ == (MachineState { pos_code, key_code, ..old(self)@ }),
    {
        self.pos_code = pos_code;
        self.key_code = key_code;
    }

    /// Host servicing: latches the inputs, clears the sync request and
    /// returns a copy of the screen.
    pub fn perform_sync(&mut self, pos_code: u16, key_code: u16) -> (r: Vec<u16>)
        ensures
            final(self)@ == (MachineState {
                pos_code,
                key_code,
                sync_called: false,
                ..old(self)@
            }),
            r@ == old(self)@.screen,
    {
        self.set_input(pos_code, key_code);
        self.sync_called = false;
        return self.screen.clone();
    }

    /// The main-memory cell at `index`.
    pub fn get(&self, index: u16) -> (r: u16)
        requires
            self.wf(),
        ensures
            r == self@.memory[index as int],
    {
        return self.memory[index as usize];
    }

    fn set(&mut self, index: u16, value: u16)
        requires
            old(self).wf(),
        ensures
            final(self)@ == (MachineState {
                memory: old(self)@.memory.update(index as int, value),
                ..old(self)@
            }),
    {
        self.memory.set(index as usize, value);
    }

    fn get_screen(&self, index: u16) -> (r: u16)
        requires
            self.wf(),
        ensures
            r == self@.screen[index as int],
    {
        return self.screen[index as usize];
    }

    fn set_screen(&mut self, index: u16, value: u16)
        requires
            old(self).wf(),
        ensures
            final(self)@ == (MachineState {
                screen: old(self)@.screen.update(index as int, value),
                ..old(self)@
            }),
    {
        self.screen.set(index as usize, value);
    }

    /// The four words at the instruction pointer, with wrap-around.
    pub fn read_instruction(&self) -> (r: [u16; 4])
        requires
            self.wf(),
        ensures
            r@ == seq![opcode(self@), arg1(self@), arg2(self@), arg3(self@)],
    {
        let ip = self.instruction_pointer;
        return [
            self.get(ip),
            self.get(ip.wrapping_add(1)),
            self.get(ip.wrapping_add(2)),
            self.get(ip.wrapping_add(3)),
        ];
    }

    fn advance_inst_ptr(&mut self)
        ensures
            final(self)@ == (MachineState { ip: wrap(old(self)@.ip + 4), ..old(self)@ }),
    {
        self.instruction_pointer = self.instruction_pointer.wrapping_add(4);
    }
    /// Executes the instruction at the instruction pointer.
    pub fn step(&mut self) -> (r: Result<(), EngineError>)
        requires
            old(self).wf(),
        ensures
            final(self).wf(),
            step_error(old(self)@) is None ==> r is Ok && final(self)@ == step_spec(old(self)@),
            step_error(old(self)@) is Some ==> r == Err::<(), EngineError>(
                step_error(old(self)@)->Some_0,
            ) && final(self)@ == old(self)@,
    {
        let instruction = self.read_instruction();
        let opcode = instruction[0];
        let arg1 = instruction[1];
        let arg2 = instruction[2];
        let arg3 = instruction[3];
        if opcode == SET {
            self.set(arg1, arg2);
            self.advance_inst_ptr();
        } else if opcode == GOTO {
            if self.get(arg3) == 0 {
                self.instruction_pointer = self.get(arg1).wrapping_add(arg2);
            } else {
                self.advance_inst_ptr();
            }
        } else if opcode == SKIP {
            if self.get(arg3) == 0 {
                let ip = self.instruction_pointer;
                let offset = arg1.wrapping_mul(4).wrapping_sub(arg2.wrapping_mul(4));
                proof {
                    lemma_skip_target(ip, arg1, arg2);
                }
                self.instruction_pointer = ip.wrapping_add(offset);
            } else {
                self.advance_inst_ptr();
            }
        } else if opcode == ADD {
            let value = self.get(arg1).wrapping_add(self.get(arg2));
            self.set(arg3, value);
            self.advance_inst_ptr();
        } else if opcode == SUB {
            let value = self.get(arg1).wrapping_sub(self.get(arg2));
            self.set(arg3, value);
            self.advance_inst_ptr();
        } else if opcode == MUL {
            let value = self.get(arg1).wrapping_mul(self.get(arg2));
            self.set(arg3, value);
            self.advance_inst_ptr();
        } else if opcode == DIV {
            let divisor = self.get(arg2);
            if divisor == 0 {
                return Err(EngineError::ZeroDivision);
            } else {
                let value = self.get(arg1) / divisor;
                self.set(arg3, value);
                self.advance_inst_ptr();
            }
        } else if opcode == CMP {
            if self.get(arg1) < self.get(arg2) {
                self.set(arg3, 1);
            } else {
                self.set(arg3, 0);
            }
            self.advance_inst_ptr();
        } else if opcode == DEREF {
            let value = self.get(self.get(arg1).wrapping_add(arg3));
            self.set(arg2, value);
            self.advance_inst_ptr();
        } else if opcode == REF {
            let value = self.get(arg2);
            let target = self.get(arg1).wrapping_add(arg3);
            self.set(target, value);
            self.advance_inst_ptr();
        } else if opcode == INST {
            let value = self.instruction_pointer;
            self.set(arg1, value);
            self.advance_inst_ptr();
        } else if opcode == PRINT {
            let target = self.get(arg2);
            let value = self.get(arg1);
            self.set_screen(target, value);
            self.advance_inst_ptr();
        } else if opcode == READ {
            let value = self.get_screen(self.get(arg1));
            self.set(arg2, value);
            self.advance_inst_ptr();
        } else if opcode == BAND {
            let band = self.get(arg1) & self.get(arg2);
            self.set(arg3, band);
            self.advance_inst_ptr();
        } else if opcode == XOR {
            let xor = self.get(arg1) ^ self.get(arg2);
            self.set(arg3, xor);
            self.advance_inst_ptr();
        } else if opcode == SYNC {
            self.sync_called = true;
            let pos_code = self.pos_code;
            let key_code = self.key_code;
            self.set(arg1, pos_code);
            self.set(arg2, key_code);
            self.advance_inst_ptr();
        } else {
            return Err(EngineError::InvalidInstruction);
        }
        Ok(())
    }

    /// Runs one frame: steps until the program requests a sync, a step
    /// fails, or `max_ipf` instructions have run. Returns how many
    /// instructions ran.
    pub fn run_frame(&mut self, max_ipf: usize) -> (r: Result<usize, EngineError>)
        requires
            old(self).wf(),
        ensures
            final(self).wf(),
            r is Ok ==> {
                let n = r->Ok_0;
                &&& n <= max_ipf
                &&& runs_clear(old(self)@, n as nat)
                &&& final(self)@ == run_steps(old(self)@, n as nat)
                &&& final(self)@.sync_called || n == max_ipf
            },
            r is Err ==> exists|n: nat|
                {
                    &&& n < max_ipf
                    &&& runs_clear(old(self)@, n)
                    &&& final(self)@ == #[trigger] run_steps(old(self)@, n)
                    &&& !final(self)@.sync_called
                    &&& step_error(final(self)@) == Some(r->Err_0)
                },
    {
        let ghost start = self@;
        let mut ipf: usize = 0;
        while ipf < max_ipf && !self.sync_called
            invariant
                self.wf(),
                start == old(self)@,
                ipf <= max_ipf,
                runs_clear(start, ipf as nat),
                self@ == run_steps(start, ipf as nat),
            decreases max_ipf - ipf,
        {
            match self.step() {
                Err(e) => {
                    assert(self@ == run_steps(start, ipf as nat));
                    return Err(e);
                },
                Ok(_) => {},
            }
            proof {
                assert forall|k: nat| k < ipf + 1 implies !(#[trigger] run_steps(start, k)).sync_called
                    && step_error(run_steps(start, k)) is None by {
                    if k < ipf {
                    }
                }
            }
            ipf = ipf + 1;
        }
        Ok(ipf)
    }
}

/// The wrapping computation of a SKIP target equals the displacement taken
/// modulo 2^16.
proof fn lemma_skip_target(ip: u16, a1: u16, a2: u16)
    ensures
        ip.wrapping_add(a1.wrapping_mul(4).wrapping_sub(a2.wrapping_mul(4))) == wrap(
            ip + 4 * a1 - 4 * a2,
        ),
{
    let m1 = a1.wrapping_mul(4);
    let m2 = a2.wrapping_mul(4);
    assert(m1 == (4 * a1) % 0x10000);
    assert(m2 == (4 * a2) % 0x10000);
    let d = m1.wrapping_sub(m2);
    assert(d == (m1 - m2) % 0x10000);
    assert((ip + d) % 0x10000 == (ip + 4 * a1 - 4 * a2) % 0x10000) by (nonlinear_arith)
        requires
            m1 == (4 * a1) % 0x10000,
            m2 == (4 * a2) % 0x10000,
            d == (m1 - m2) % 0x10000,
    ;
}

} // verus!
