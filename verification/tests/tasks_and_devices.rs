use armkernel::effect::{Effect, Operation, Script, SystemRegister};
use armkernel::gic::Gic;
use armkernel::programs::{
    idle_task, task_a, task_b, task_exit, task_trampoline, yield_now, TASK_A_START, TASK_B_START,
};
use armkernel::timer::Timer;
use armkernel::uart::{Uart, UART_BASE};

/// The effects of a script: a text without an operation, or an operation.
fn steps(script: &Script) -> Vec<(String, Option<Operation>)> {
    script
        .effects
        .iter()
        .map(|e| match e {
            Effect::Print(t) => (t.clone(), None),
            Effect::Perform(o) => (String::new(), Some(*o)),
        })
        .collect()
}

fn print(text: &str) -> (String, Option<Operation>) {
    (String::from(text), None)
}

fn perform(operation: Operation) -> (String, Option<Operation>) {
    (String::new(), Some(operation))
}

#[test]
fn uart_sends_each_byte() {
    let uart = Uart::new(UART_BASE);
    assert_eq!(uart.base, 0x0900_0000);
    assert_eq!(
        uart.put_byte(b'x'),
        Operation::Store8 {
            address: 0x0900_0000,
            value: b'x'
        }
    );
    let sent: Vec<u8> = Uart::new(0x1000)
        .write_bytes("A\u{e9}\r\n")
        .iter()
        .map(|o| match o {
            Operation::Store8 { address, value } => {
                assert_eq!(*address, 0x1000);
                *value
            }
            _ => panic!("not a byte store"),
        })
        .collect();
    assert_eq!(sent, "A\u{e9}\r\n".as_bytes());
    assert!(uart.write_bytes("").is_empty());
}

#[test]
fn text_may_be_sent_in_parts() {
    let uart = Uart::new(UART_BASE);
    let mut parts = uart.write_bytes("KERNEL ");
    parts.extend(uart.write_bytes("PANIC!"));
    assert_eq!(parts, uart.write_bytes("KERNEL PANIC!"));
}

#[test]
fn interrupt_controller_is_enabled_step_by_step() {
    let gic = Gic::new();
    let store = |address, value| perform(Operation::Store32 { address, value });
    assert_eq!(
        steps(&gic.enable()),
        vec![
            print("Enabling GIC distributor...\n"),
            store(0x0800_0000, 1),
            print("Enabling timer PPI...\n"),
            store(0x0800_0100, 0x4000_0000),
            print("Configuring CPU priority...\n"),
            store(0x0801_0004, 0xFF),
            print("Enabling GIC CPU interface...\n"),
            store(0x0801_0000, 1),
            print("GIC enabled! Returning to main...\n"),
        ]
    );
    assert_eq!(
        gic.write_dist(8, 9),
        Operation::Store32 {
            address: 0x0800_0008,
            value: 9
        }
    );
    assert_eq!(
        gic.write_cpu(8, 9),
        Operation::Store32 {
            address: 0x0801_0008,
            value: 9
        }
    );
}

#[test]
fn timer_is_armed_and_turned_on() {
    assert_eq!(Timer::period(62_500_000), 6_250_000);
    assert_eq!(Timer::period(9), 0);
    assert_eq!(
        Timer::set_timeout(123),
        Operation::WriteRegister {
            register: SystemRegister::CntpTvalEl0,
            value: 123
        }
    );
    assert_eq!(
        steps(&Timer::enable()),
        vec![
            perform(Operation::WriteRegister {
                register: SystemRegister::CntpCtlEl0,
                value: 1
            }),
            perform(Operation::InstructionBarrier),
        ]
    );
}

#[test]
fn tasks_enter_and_leave_through_supervisor_calls() {
    let call = Operation::SupervisorCall { number: 1 };
    assert_eq!(task_exit(), [call, Operation::SpinForever]);
    assert_eq!(
        task_trampoline(0x4000_4444),
        [
            Operation::Call {
                address: 0x4000_4444
            },
            call,
            Operation::SpinForever
        ]
    );
    assert_eq!(yield_now(), Operation::SupervisorCall { number: 2 });
    assert_eq!(idle_task(), Operation::WaitForever);
}

#[test]
fn counting_tasks_print_each_number() {
    let step = task_a(9);
    assert_eq!(step.value, 10);
    assert_eq!(
        steps(&step.script),
        vec![
            perform(Operation::Spin { rounds: 500_000 }),
            print("A value = 0xa\n"),
        ]
    );
    let step = task_b(1999);
    assert_eq!(step.value, 2000);
    assert_eq!(
        steps(&step.script),
        vec![
            perform(Operation::Spin { rounds: 500_000 }),
            print("B value = 0x7d0\n"),
            perform(Operation::SupervisorCall { number: 1 }),
            perform(Operation::SpinForever),
        ]
    );
    assert_eq!(task_a(u64::MAX).value, 0);
}

#[test]
fn counting_tasks_end_after_their_numbers() {
    let mut value = TASK_A_START;
    let mut taken = 0;
    loop {
        let step = task_a(value);
        value = step.value;
        taken += 1;
        if step.script.effects.len() > 2 {
            break;
        }
    }
    assert_eq!((value, taken), (100, 100));
    let mut value = TASK_B_START;
    let mut taken = 0;
    loop {
        let step = task_b(value);
        value = step.value;
        taken += 1;
        if step.script.effects.len() > 2 {
            break;
        }
    }
    assert_eq!((value, taken), (2000, 1000));
}
