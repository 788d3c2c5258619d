use blue::machine::Effect;
use blue::machine::Op;
use blue::machine::RunStatus;
use blue::machine::State;
use blue::machine::decode;
use blue::machine::needs_operand;
use blue::tape::Tape;

fn machine(mem: Vec<u16>) -> State {
    State {
        pc: 0,
        ir: 0,
        cs: 0,
        acc: 0,
        mem,
    }
}

fn exec_one(ir: u16, acc: u16, mem: Vec<u16>) -> (State, Effect) {
    let mut s = machine(mem);
    s.ir = ir;
    s.acc = acc;
    let mut tape = Tape::new();
    let e = s.execute(&mut tape);
    (s, e)
}

#[test]
fn decode_splits_operation_and_address() {
    assert_eq!(decode(0x1234), (Op::Add, 0x234));
    assert_eq!(decode(0x0000), (Op::Hlt, 0x000));
    assert_eq!(decode(0x0FFF), (Op::Hlt, 0xFFF));
    assert_eq!(decode(0xFABC), (Op::Nop, 0xABC));
}

#[test]
fn decode_is_total_over_the_operation_field() {
    let ops = [
        Op::Hlt,
        Op::Add,
        Op::Xor,
        Op::And,
        Op::Or,
        Op::Not,
        Op::Lda,
        Op::Sta,
        Op::Srj,
        Op::Jma,
        Op::Jmp,
        Op::In,
        Op::Out,
        Op::Ral,
        Op::Csa,
        Op::Nop,
    ];
    for code in 0u16..16 {
        let (op, addr) = decode(code << 12);
        assert_eq!(op, ops[code as usize]);
        assert_eq!(addr, 0);
    }
}

#[test]
fn needs_operand_only_for_memory_operations() {
    for (op, expected) in [
        (Op::Hlt, false),
        (Op::Add, true),
        (Op::Xor, true),
        (Op::And, true),
        (Op::Or, true),
        (Op::Not, false),
        (Op::Lda, true),
        (Op::Sta, true),
        (Op::Srj, false),
        (Op::Jma, false),
        (Op::Jmp, false),
        (Op::In, false),
        (Op::Out, false),
        (Op::Ral, false),
        (Op::Csa, false),
        (Op::Nop, false),
    ] {
        assert_eq!(needs_operand(op), expected);
    }
}

#[test]
fn fetch_loads_ir_and_advances_pc() {
    let mut s = machine(vec![0xABCD, 0x1234]);
    s.fetch();
    assert_eq!(s.ir, 0xABCD);
    assert_eq!(s.pc, 1);
    s.fetch();
    assert_eq!(s.ir, 0x1234);
    assert_eq!(s.pc, 2);
}

#[test]
fn not_complements_and_wraps() {
    let (s, e) = exec_one(0x5000, 0xFFFF, vec![0]);
    assert_eq!(s.acc, 0x0000);
    assert_eq!(e, Effect::Quiet);
    let (s, _) = exec_one(0x5000, 0x00FF, vec![0]);
    assert_eq!(s.acc, 0xFF00);
}

#[test]
fn add_wraps_past_two_to_the_sixteenth() {
    let (s, e) = exec_one(0x1000, 0xFFFF, vec![0x0002]);
    assert_eq!(s.acc, 0x0001);
    assert_eq!(e, Effect::Quiet);
    let (s, _) = exec_one(0x1000, 0x1234, vec![0x0001]);
    assert_eq!(s.acc, 0x1235);
}

#[test]
fn xor_and_or_use_the_operand_word() {
    let (s, _) = exec_one(0x2000, 0b1100, vec![0b1010]);
    assert_eq!(s.acc, 0b0110);
    let (s, _) = exec_one(0x3000, 0b1100, vec![0b1010]);
    assert_eq!(s.acc, 0b1000);
    let (s, _) = exec_one(0x4000, 0b1100, vec![0b1010]);
    assert_eq!(s.acc, 0b1110);
}

#[test]
fn lda_loads_and_sta_stores() {
    let (s, _) = exec_one(0x6001, 0, vec![0, 0xBEEF]);
    assert_eq!(s.acc, 0xBEEF);
    let (s, _) = exec_one(0x7001, 0xCAFE, vec![0, 0]);
    assert_eq!(s.mem, vec![0, 0xCAFE]);
}

#[test]
fn ral_is_a_true_rotate() {
    let (s, _) = exec_one(0xD000, 0x8001, vec![0]);
    assert_eq!(s.acc, 0x0003);
    let (s, _) = exec_one(0xD000, 0x4000, vec![0]);
    assert_eq!(s.acc, 0x8000);
}

#[test]
fn jma_branches_iff_bit_fifteen_is_set() {
    let mut s = machine(vec![0]);
    s.pc = 5;
    s.ir = 0x9010;
    s.acc = 0x8000;
    let mut tape = Tape::new();
    s.execute(&mut tape);
    assert_eq!(s.pc, 0x010);

    let mut s = machine(vec![0]);
    s.pc = 5;
    s.ir = 0x9010;
    s.acc = 0x7FFF;
    s.execute(&mut tape);
    assert_eq!(s.pc, 5);
}

#[test]
fn srj_captures_the_return_address() {
    let mut s = machine(vec![0]);
    s.pc = 0x005;
    s.ir = 0x8100;
    let mut tape = Tape::new();
    s.execute(&mut tape);
    assert_eq!(s.acc, 0x005);
    assert_eq!(s.pc, 0x100);
}

#[test]
fn jmp_is_unconditional() {
    let mut s = machine(vec![0]);
    s.pc = 7;
    s.ir = 0xA123;
    let mut tape = Tape::new();
    s.execute(&mut tape);
    assert_eq!(s.pc, 0x123);
}

#[test]
fn csa_reads_the_status_register() {
    let mut s = machine(vec![0]);
    s.cs = 0x5A5A;
    s.ir = 0xE000;
    let mut tape = Tape::new();
    s.execute(&mut tape);
    assert_eq!(s.acc, 0x5A5A);
}

#[test]
fn out_emits_the_low_eight_bits() {
    let (_, e) = exec_one(0xC000, 0x0248, vec![0]);
    assert_eq!(e, Effect::Output(0x48));
}

#[test]
fn in_consumes_buffered_bytes_in_order() {
    let mut s = machine(vec![0]);
    s.ir = 0xB000;
    let mut tape = Tape::new();
    tape.refill(vec![0x41, 0x42]);
    assert_eq!(s.execute(&mut tape), Effect::Quiet);
    assert_eq!(s.acc, 0x41);
    assert_eq!(s.execute(&mut tape), Effect::Quiet);
    assert_eq!(s.acc, 0x42);
    assert_eq!(s.execute(&mut tape), Effect::NeedInput);
}

#[test]
fn in_end_of_input_sets_the_sentinel() {
    let mut s = machine(vec![0]);
    s.ir = 0xB000;
    s.acc = 0x1234;
    let mut tape = Tape::new();
    let e = s.execute(&mut tape);
    assert_eq!(e, Effect::NeedInput);
    assert_eq!(s.acc, 0x1234);
    s.resume_input(&mut tape, Vec::new());
    assert_eq!(s.acc, 0);
    assert!(tape.exhausted());
}

#[test]
fn resume_input_hands_over_the_first_byte() {
    let mut s = machine(vec![0]);
    let mut tape = Tape::new();
    s.resume_input(&mut tape, vec![0x68, 0x69]);
    assert_eq!(s.acc, 0x68);
    assert!(!tape.exhausted());
}

#[test]
fn refill_replaces_the_buffer_rather_than_extending_it() {
    let mut tape = Tape::new();
    tape.refill(vec![b'a', b'b', b'c']);
    assert_eq!(tape.next_byte(), Some(b'a'));
    tape.refill(vec![b'x', b'y']);
    assert_eq!(tape.next_byte(), Some(b'x'));
    assert_eq!(tape.next_byte(), Some(b'y'));
    assert_eq!(tape.next_byte(), None);
    assert!(tape.exhausted());
}

#[test]
fn zero_operation_with_nonzero_address_is_a_noop_not_a_halt() {
    let mut s = machine(vec![0x0001, 0x0000]);
    let mut tape = Tape::new();
    let (out, status) = s.run(&mut tape, 10);
    assert_eq!(status, RunStatus::Halted);
    assert_eq!(s.pc, 2);
    assert!(out.is_empty());
}

#[test]
fn run_halts_immediately_on_the_all_zero_word() {
    let mut s = machine(vec![0x0000, 0xA000]);
    let mut tape = Tape::new();
    let (out, status) = s.run(&mut tape, 100);
    assert_eq!(status, RunStatus::Halted);
    assert_eq!(s.pc, 1);
    assert_eq!(s.ir, 0);
    assert!(out.is_empty());
}

#[test]
fn run_faults_on_an_out_of_range_program_counter() {
    let mut s = machine(vec![0xA005]);
    let mut tape = Tape::new();
    let (_, status) = s.run(&mut tape, 100);
    assert_eq!(status, RunStatus::Fault);
}

#[test]
fn run_faults_on_an_out_of_range_operand_address() {
    let mut s = machine(vec![0x6FFF]);
    let mut tape = Tape::new();
    let (_, status) = s.run(&mut tape, 100);
    assert_eq!(status, RunStatus::Fault);
    assert_eq!(s.pc, 1);
}

#[test]
fn run_reports_an_exhausted_step_budget() {
    let mut s = machine(vec![0xF000, 0xA000]);
    let mut tape = Tape::new();
    let (_, status) = s.run(&mut tape, 0);
    assert_eq!(status, RunStatus::OutOfFuel);
    assert_eq!(s.pc, 0);
    let (_, status) = s.run(&mut tape, 7);
    assert_eq!(status, RunStatus::OutOfFuel);
}

#[test]
fn run_pauses_for_input_and_echoes_after_resuming() {
    // IN, OUT, JMP back to IN: an echo loop.
    let mut s = machine(vec![0xB000, 0xC000, 0xA000]);
    let mut tape = Tape::new();
    let (out, status) = s.run(&mut tape, 1000);
    assert_eq!(status, RunStatus::NeedsInput);
    assert!(out.is_empty());
    s.resume_input(&mut tape, vec![b'h', b'i']);
    let (out, status) = s.run(&mut tape, 1000);
    assert_eq!(status, RunStatus::NeedsInput);
    assert_eq!(out, vec![b'h', b'i']);
}

#[test]
fn hello_world_runs_to_termination() {
    let rom: Vec<u16> = vec![
        0x600C, 0x100B, 0x900A, 0x700C, 0x6007, 0x100B, 0x7007, 0x600C, 0xC000, 0xA000, 0x0000,
        0x0001,
    ];
    let data = "Hello World!\n";
    let mut mem = rom;
    mem.push((0x7FFF - data.len()) as u16);
    for b in data.bytes() {
        mem.push(b as u16);
    }
    let image_len = mem.len();
    let mut s = State::new(mem);
    let mut tape = Tape::new();
    let (out, status) = s.run(&mut tape, 100_000);
    assert_eq!(status, RunStatus::Halted);
    assert_eq!(String::from_utf8(out).unwrap(), "Hello World!\n");
    // the status register is never written and memory is never resized
    assert_eq!(s.cs, 0);
    assert_eq!(s.mem.len(), image_len);
}
