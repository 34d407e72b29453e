use wordvm::{words_from_bytes, Action, VirtualMachine, VmError};

#[test]
fn prints_hi_and_halts() {
    let mut vm = VirtualMachine::new(vec![19, 'h' as u16, 19, 'i' as u16, 0]);
    assert_eq!(vm.run(1000), Ok(Action::Halt));
    assert_eq!(vm.stdout(), b"hi".to_vec());
    assert_eq!(vm.pc(), 5);
}

#[test]
fn prints_hi_step_by_step() {
    let mut vm = VirtualMachine::new(vec![19, 'h' as u16, 19, 'i' as u16, 0]);
    assert_eq!(vm.step(), Ok(Action::Write(b'h')));
    assert_eq!(vm.stdout(), b"h".to_vec());
    assert_eq!(vm.step(), Ok(Action::Write(b'i')));
    assert_eq!(vm.step(), Ok(Action::Halt));
    assert_eq!(vm.stdout(), b"hi".to_vec());
}

#[test]
fn prints_hi_from_an_image_file() {
    let bytes: Vec<u8> = vec![19, 0, b'h', 0, 19, 0, b'i', 0, 0, 0];
    let mut vm = VirtualMachine::new(words_from_bytes(&bytes));
    assert_eq!(vm.run(u64::MAX), Ok(Action::Halt));
    assert_eq!(vm.stdout(), b"hi".to_vec());
}

#[test]
fn in_stores_the_byte_of_the_input_line() {
    let mut vm = VirtualMachine::new(vec![20, 32768, 0]);
    assert_eq!(vm.run(1000), Ok(Action::ReadLine));
    assert_eq!(vm.receive_line(Some(b"5\n".to_vec())), Ok(()));
    assert_eq!(vm.run(1000), Ok(Action::Halt));
    assert_eq!(vm.registers(), vec![53, 0, 0, 0, 0, 0, 0, 0]);
}

#[test]
fn in_stores_into_a_literal_destination() {
    let mut vm = VirtualMachine::new(vec![20, 1000, 0]);
    assert_eq!(vm.step(), Ok(Action::ReadLine));
    assert_eq!(vm.receive_line(Some(b"5\n".to_vec())), Ok(()));
    assert_eq!(vm.step(), Ok(Action::Continue));
    assert_eq!(vm.peek(1000), Some(53));
    assert_eq!(vm.step(), Ok(Action::Halt));
}

#[test]
fn echoes_a_line() {
    // loop: in r0; out r0; eq r1 r0 '\n'; jf r1 loop; halt
    let program = vec![20, 32768, 19, 32768, 4, 32769, 32768, 10, 8, 32769, 0, 0];
    let mut vm = VirtualMachine::new(program);
    assert_eq!(vm.run(1000), Ok(Action::ReadLine));
    assert_eq!(vm.receive_line(Some(b"hey\n".to_vec())), Ok(()));
    assert_eq!(vm.run(1000), Ok(Action::Halt));
    assert_eq!(vm.stdout(), b"hey\n".to_vec());
}

#[test]
fn run_stops_when_the_steps_are_used_up() {
    // jmp 0
    let mut vm = VirtualMachine::new(vec![6, 0]);
    assert_eq!(vm.run(0), Ok(Action::Continue));
    assert_eq!(vm.run(1), Ok(Action::Continue));
    assert_eq!(vm.run(10_000), Ok(Action::Continue));
    assert_eq!(vm.pc(), 0);
}

#[test]
fn run_counts_steps() {
    let mut vm = VirtualMachine::new(vec![21, 21, 21, 19, 65, 0]);
    assert_eq!(vm.run(2), Ok(Action::Continue));
    assert_eq!(vm.pc(), 2);
    assert_eq!(vm.run(2), Ok(Action::Continue));
    assert_eq!(vm.pc(), 5);
    assert_eq!(vm.stdout(), vec![65]);
    assert_eq!(vm.run(1), Ok(Action::Halt));
    assert_eq!(vm.pc(), 6);
}

#[test]
fn run_reports_the_error_of_the_failing_step() {
    let mut vm = VirtualMachine::new(vec![19, 65, 3, 32768]);
    assert_eq!(vm.run(100), Err(VmError::StackUnderflow));
    assert_eq!(vm.stdout(), vec![65]);
    let mut vm = VirtualMachine::new(vec![19, 65, 1, 5, 6]);
    assert_eq!(vm.run(100), Err(VmError::InvalidRegisterTarget));
    let mut vm = VirtualMachine::new(vec![19, 65, 30]);
    assert_eq!(vm.run(100), Err(VmError::InvalidOpcode { opcode: 30, position: 2 }));
    let mut vm = VirtualMachine::new(vec![19, 65, 2, 32776]);
    assert_eq!(vm.run(100), Err(VmError::InvalidAddress));
}

#[test]
fn counts_down_with_a_subroutine() {
    // r0 <- 3
    // loop: call print; add r0 r0 32767; jt r0 loop; halt
    // print: add r1 r0 '0'; out r1; ret
    let program = vec![
        1, 32768, 3, // 0
        17, 13, // 3
        9, 32768, 32768, 32767, // 5
        7, 32768, 3, // 9
        0, // 12
        9, 32769, 32768, 48, // 13
        19, 32769, // 17
        18, // 19
    ];
    let mut vm = VirtualMachine::new(program);
    assert_eq!(vm.run(1000), Ok(Action::Halt));
    assert_eq!(vm.stdout(), b"321".to_vec());
    assert_eq!(vm.stack(), Vec::<u16>::new());
    assert_eq!(vm.registers(), vec![0, 49, 0, 0, 0, 0, 0, 0]);
}

#[test]
fn machines_are_independent() {
    let mut first = VirtualMachine::new(vec![19, 65, 0]);
    let mut second = VirtualMachine::new(vec![19, 66, 0]);
    assert_eq!(first.run(10), Ok(Action::Halt));
    assert_eq!(second.stdout(), Vec::<u8>::new());
    assert_eq!(second.run(10), Ok(Action::Halt));
    assert_eq!(first.stdout(), vec![65]);
    assert_eq!(second.stdout(), vec![66]);
}
