use svc16::engine::{Engine, EngineError, MEMSIZE};

fn image(words: &[u16], extra: &[(usize, u16)]) -> Vec<u16> {
    let mut len = words.len();
    for &(a, _) in extra {
        if a + 1 > len {
            len = a + 1;
        }
    }
    let mut v = vec![0u16; len];
    v[..words.len()].copy_from_slice(words);
    for &(a, w) in extra {
        v[a] = w;
    }
    v
}

fn run(engine: &mut Engine, steps: usize) {
    for _ in 0..steps {
        engine.step().unwrap();
    }
}

#[test]
fn new_loads_image_and_zeroes_rest() {
    let e = Engine::new(vec![7, 8, 9]);
    assert_eq!(e.get(0), 7);
    assert_eq!(e.get(1), 8);
    assert_eq!(e.get(2), 9);
    assert_eq!(e.get(3), 0);
    assert_eq!(e.get(0xFFFF), 0);
    assert_eq!(e.get_instruction_pointer(), 0);
    assert!(!e.wants_to_sync());
}

#[test]
fn new_drops_words_past_memory() {
    let mut words = vec![1u16; MEMSIZE + 10];
    words[MEMSIZE - 1] = 42;
    let e = Engine::new(words);
    assert_eq!(e.get(0xFFFF), 42);
}

#[test]
fn new_screen_is_zero() {
    let mut e = Engine::new(vec![]);
    let snap = e.perform_sync(0, 0);
    assert_eq!(snap.len(), MEMSIZE);
    assert!(snap.iter().all(|&w| w == 0));
}

#[test]
fn simple_set_add_sync() {
    let mut e = Engine::new(vec![0, 100, 5, 0, 0, 101, 7, 0, 3, 100, 101, 102, 15, 103, 104, 0]);
    e.set_input(0x0102, 0x0003);
    run(&mut e, 4);
    assert_eq!(e.get(100), 5);
    assert_eq!(e.get(101), 7);
    assert_eq!(e.get(102), 12);
    assert!(e.wants_to_sync());
    assert_eq!(e.get(103), 0x0102);
    assert_eq!(e.get(104), 0x0003);
    assert_eq!(e.get_instruction_pointer(), 16);
}

#[test]
fn division_by_zero() {
    let mut e = Engine::new(image(&[6, 100, 101, 102], &[(100, 9), (101, 0), (102, 33)]));
    assert_eq!(e.step(), Err(EngineError::ZeroDivision));
    assert_eq!(e.get_instruction_pointer(), 0);
    assert_eq!(e.get(102), 33);
}

#[test]
fn invalid_opcode() {
    let mut e = Engine::new(vec![17, 0, 0, 0]);
    assert_eq!(e.step(), Err(EngineError::InvalidInstruction));
    assert_eq!(e.get_instruction_pointer(), 0);
    assert_eq!(e.get(0), 17);
}

#[test]
fn goto_falls_through_on_nonzero_counter() {
    // GOTO jumps only when its condition cell is zero: after one decrement
    // the counter is 4, so execution falls through to SYNC.
    let mut e = Engine::new(image(
        &[0, 50, 5, 0, 4, 50, 100, 50, 1, 101, 0, 50, 15, 200, 201, 0],
        &[(100, 1), (101, 0)],
    ));
    run(&mut e, 4);
    assert!(e.wants_to_sync());
    assert_eq!(e.get(50), 4);
}

#[test]
fn goto_loop_with_counter() {
    // SET counter 5; loop: SUB 1; SKIP to SYNC when zero; GOTO back to the SUB.
    let mut e = Engine::new(image(
        &[0, 50, 5, 0, 4, 50, 100, 50, 2, 2, 0, 50, 1, 101, 4, 102, 15, 200, 201, 0],
        &[(100, 1), (101, 0), (102, 0)],
    ));
    let n = e.run_frame(1000).unwrap();
    assert!(e.wants_to_sync());
    assert_eq!(e.get(50), 0);
    assert_eq!(n, 1 + 5 * 2 + 4 * 1 + 1);
}

#[test]
fn skip_back_jump_wraps() {
    let mut e = Engine::new(image(&[2, 0, 1, 10], &[(10, 0)]));
    e.step().unwrap();
    assert_eq!(e.get_instruction_pointer(), 0xFFFC);
}

#[test]
fn skip_not_taken_advances() {
    let mut e = Engine::new(image(&[2, 3, 0, 10], &[(10, 1)]));
    e.step().unwrap();
    assert_eq!(e.get_instruction_pointer(), 4);
}

#[test]
fn skip_forward() {
    let mut e = Engine::new(image(&[2, 3, 1, 10], &[(10, 0)]));
    e.step().unwrap();
    assert_eq!(e.get_instruction_pointer(), 8);
}

#[test]
fn print_read_round_trip_across_frame() {
    let mut e = Engine::new(vec![
        0, 100, 0xABCD, 0, 0, 101, 0x1234, 0, 11, 100, 101, 0, 15, 102, 103, 0, 12, 101, 104, 0,
    ]);
    let n = e.run_frame(100).unwrap();
    assert_eq!(n, 4);
    assert!(e.wants_to_sync());
    let snap = e.perform_sync(5, 6);
    assert_eq!(snap[0x1234], 0xABCD);
    assert!(!e.wants_to_sync());
    e.step().unwrap();
    assert_eq!(e.get(104), 0xABCD);
}

#[test]
fn goto_target_wraps() {
    let mut e = Engine::new(image(&[1, 20, 10, 21], &[(20, 0xFFFA), (21, 0)]));
    e.step().unwrap();
    assert_eq!(e.get_instruction_pointer(), 4);
}

#[test]
fn arithmetic_wraps() {
    let mut e = Engine::new(image(
        &[3, 20, 21, 30, 4, 22, 23, 31, 5, 20, 24, 32, 13, 25, 26, 33, 14, 25, 26, 34],
        &[(20, 0xFFFF), (21, 2), (22, 1), (23, 3), (24, 0x8001), (25, 0xF0F0), (26, 0x3C3C)],
    ));
    run(&mut e, 5);
    assert_eq!(e.get(30), 1);
    assert_eq!(e.get(31), 0xFFFE);
    assert_eq!(e.get(32), 0x7FFF);
    assert_eq!(e.get(33), 0x3030);
    assert_eq!(e.get(34), 0xCCCC);
    assert_eq!(e.get_instruction_pointer(), 20);
}

#[test]
fn division_floors() {
    let mut e = Engine::new(image(&[6, 20, 21, 22], &[(20, 17), (21, 5)]));
    e.step().unwrap();
    assert_eq!(e.get(22), 3);
}

#[test]
fn compare_is_unsigned_strict() {
    let mut e = Engine::new(image(
        &[7, 20, 21, 30, 7, 21, 20, 31, 7, 20, 20, 32],
        &[(20, 1), (21, 0xFFFF), (32, 9)],
    ));
    run(&mut e, 3);
    assert_eq!(e.get(30), 1);
    assert_eq!(e.get(31), 0);
    assert_eq!(e.get(32), 0);
}

#[test]
fn deref_and_ref_offset_wraps() {
    let mut e = Engine::new(image(
        &[8, 20, 30, 5, 9, 20, 31, 6],
        &[(20, 0xFFFE), (31, 77)],
    ));
    // DEREF: M[30] <- M[(0xFFFE + 5) mod 2^16] = M[3]
    e.step().unwrap();
    assert_eq!(e.get(30), 5);
    // REF: M[(0xFFFE + 6) mod 2^16] = M[4] <- M[31]
    e.step().unwrap();
    assert_eq!(e.get(4), 77);
}

#[test]
fn inst_stores_own_address() {
    let mut e = Engine::new(vec![0, 50, 0, 0, 10, 60, 0, 0]);
    run(&mut e, 2);
    assert_eq!(e.get(60), 4);
    assert_eq!(e.get_instruction_pointer(), 8);
}

#[test]
fn consecutive_syncs_see_same_input() {
    let mut e = Engine::new(vec![15, 100, 101, 0, 15, 102, 103, 0]);
    e.set_input(300, 9);
    run(&mut e, 2);
    assert_eq!(e.get(100), 300);
    assert_eq!(e.get(101), 9);
    assert_eq!(e.get(102), 300);
    assert_eq!(e.get(103), 9);
}

#[test]
fn first_sync_sees_zero_input() {
    let mut e = Engine::new(vec![15, 100, 101, 0]);
    e.step().unwrap();
    assert_eq!(e.get(100), 0);
    assert_eq!(e.get(101), 0);
}

#[test]
fn sync_latches_values_from_perform_sync() {
    let mut e = Engine::new(vec![15, 100, 101, 0, 15, 102, 103, 0]);
    e.step().unwrap();
    e.perform_sync(0x1111, 0x22);
    e.step().unwrap();
    assert_eq!(e.get(102), 0x1111);
    assert_eq!(e.get(103), 0x22);
}

#[test]
fn read_instruction_wraps() {
    let mut e = Engine::new(image(&[2, 0, 1, 10], &[(10, 0), (0xFFFC, 5), (0xFFFD, 6), (0xFFFE, 7), (0xFFFF, 8)]));
    e.step().unwrap();
    assert_eq!(e.read_instruction(), [5, 6, 7, 8]);
}

#[test]
fn read_instruction_crosses_end_of_memory() {
    let mut e = Engine::new(image(&[1, 10, 0xFFFE, 11], &[(10, 0), (11, 0), (0xFFFE, 3), (0xFFFF, 4)]));
    e.step().unwrap();
    assert_eq!(e.get_instruction_pointer(), 0xFFFE);
    assert_eq!(e.read_instruction(), [3, 4, 1, 10]);
}

#[test]
fn run_frame_stops_at_cap() {
    // GOTO 0 forever: never syncs.
    let mut e = Engine::new(image(&[1, 10, 0, 11], &[(10, 0), (11, 0)]));
    assert_eq!(e.run_frame(25), Ok(25));
    assert!(!e.wants_to_sync());
    assert_eq!(e.run_frame(0), Ok(0));
}

#[test]
fn run_frame_reports_error() {
    let mut e = Engine::new(vec![0, 20, 1, 0, 17, 0, 0, 0]);
    assert_eq!(e.run_frame(10), Err(EngineError::InvalidInstruction));
    assert_eq!(e.get(20), 1);
    assert_eq!(e.get_instruction_pointer(), 4);
}

#[test]
fn run_frame_does_nothing_while_sync_pending() {
    let mut e = Engine::new(vec![15, 100, 101, 0, 0, 50, 1, 0]);
    assert_eq!(e.run_frame(10), Ok(1));
    assert_eq!(e.run_frame(10), Ok(0));
    assert_eq!(e.get(50), 0);
}

#[test]
fn error_messages() {
    assert_eq!(EngineError::ZeroDivision.message(), "Division by zero");
    assert_eq!(EngineError::InvalidInstruction.message(), "Invalid instruction");
}
