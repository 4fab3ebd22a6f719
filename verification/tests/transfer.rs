use akafugu_twidisplay::command::code_of;
use akafugu_twidisplay::{Command, Error, TWIDisplay, TempUnits, Transfer, DEFAULT_ADDRESS};

/// Writes a transfer out the way a caller with a bus does: command by
/// command, handing back each answer. The bus fails at the write with the
/// index `fail_at`, if one is given. Returns every write that was tried.
fn write_out(
    mut transfer: Transfer,
    fail_at: Option<usize>,
) -> (Vec<(u8, Vec<u8>)>, Result<(), Error<&'static str>>) {
    let mut tried: Vec<(u8, Vec<u8>)> = Vec::new();
    while let Some(command) = transfer.next_command() {
        let answer = if fail_at == Some(tried.len()) {
            Err("no acknowledge")
        } else {
            Ok(())
        };
        tried.push((transfer.address(), command.encode()));
        if let Err(e) = transfer.complete(answer) {
            return (tried, Err(e));
        }
    }
    (tried, Ok(()))
}

#[test]
fn new_transfer_is_empty() {
    let transfer = Transfer::new(0x12);
    assert_eq!(transfer.address(), 0x12);
    assert_eq!(transfer.len(), 0);
    assert!(transfer.is_done());
    assert_eq!(transfer.next_command(), None);
    assert_eq!(transfer.remaining(), vec![]);
}

#[test]
fn push_queues_behind() {
    let mut transfer = Transfer::new(0x12);
    transfer.push(Command::ClearDisplay);
    transfer.push(Command::SetBrightness(9));
    assert_eq!(transfer.address(), 0x12);
    assert_eq!(transfer.len(), 2);
    assert!(!transfer.is_done());
    assert_eq!(transfer.next_command(), Some(Command::ClearDisplay));
    assert_eq!(
        transfer.remaining(),
        vec![Command::ClearDisplay, Command::SetBrightness(9)]
    );
}

#[test]
fn append_queues_behind_and_keeps_the_address() {
    let mut first = Transfer::new(0x12);
    first.push(Command::ClearDisplay);
    let mut second = Transfer::new(0x30);
    second.push(Command::Push(1));
    second.push(Command::Push(2));
    first.append(second);
    assert_eq!(first.address(), 0x12);
    assert_eq!(
        first.remaining(),
        vec![Command::ClearDisplay, Command::Push(1), Command::Push(2)]
    );
}

#[test]
fn a_write_that_went_through_leaves_the_queue() {
    let display = TWIDisplay::new((), DEFAULT_ADDRESS);
    let mut transfer = display.display_number::<u8>(1234).unwrap();
    assert_eq!(transfer.next_command(), Some(Command::SetCell(0, 1)));
    assert!(transfer.complete::<u8>(Ok(())).is_ok());
    assert_eq!(transfer.address(), 0x12);
    assert_eq!(transfer.next_command(), Some(Command::SetCell(1, 2)));
    assert_eq!(
        transfer.remaining(),
        vec![
            Command::SetCell(1, 2),
            Command::SetCell(2, 3),
            Command::SetCell(3, 4),
        ]
    );
}

#[test]
fn a_failed_write_empties_the_queue() {
    let display = TWIDisplay::new((), DEFAULT_ADDRESS);
    let mut transfer = display.display_number::<u8>(1234).unwrap();
    assert!(transfer.complete::<u8>(Ok(())).is_ok());
    let answer = transfer.complete(Err(42u8));
    assert!(matches!(answer, Err(Error::I2C(42))));
    assert_eq!(transfer.address(), 0x12);
    assert!(transfer.is_done());
    assert_eq!(transfer.next_command(), None);
}

#[test]
fn the_bus_error_is_handed_back_unchanged() {
    let mut transfer = Transfer::new(0x12);
    transfer.push(Command::ClearDisplay);
    match transfer.complete(Err(String::from("arbitration lost"))) {
        Err(Error::I2C(cause)) => assert_eq!(cause, "arbitration lost"),
        _ => panic!("a failed write is a bus error"),
    }
}

#[test]
fn an_answer_to_nothing_changes_nothing() {
    let mut transfer = Transfer::new(0x12);
    assert!(transfer.complete::<u8>(Ok(())).is_ok());
    assert!(transfer.is_done());
    assert_eq!(transfer.address(), 0x12);
    assert!(matches!(transfer.complete(Err(1u8)), Err(Error::I2C(1))));
    assert!(transfer.is_done());
}

#[test]
fn writing_out_a_number() {
    let display = TWIDisplay::new((), DEFAULT_ADDRESS);
    let (tried, answer) = write_out(display.display_number::<&'static str>(1234).unwrap(), None);
    assert!(answer.is_ok());
    assert_eq!(
        tried,
        vec![
            (0x12, vec![0x89, 0, 1]),
            (0x12, vec![0x89, 1, 2]),
            (0x12, vec![0x89, 2, 3]),
            (0x12, vec![0x89, 3, 4]),
        ]
    );
}

#[test]
fn a_failure_at_the_second_cell_stops_the_rest() {
    let display = TWIDisplay::new((), DEFAULT_ADDRESS);
    let transfer = display
        .display_temperature::<&'static str>(77, TempUnits::Celsius, Some(-50), Some(199))
        .unwrap();
    let (tried, answer) = write_out(transfer, Some(1));
    assert!(matches!(answer, Err(Error::I2C("no acknowledge"))));
    assert_eq!(
        tried,
        vec![(0x12, vec![0x89, 0, 0x20]), (0x12, vec![0x89, 1, 7])]
    );
}

#[test]
fn a_failure_at_the_first_write_stops_everything() {
    let display = TWIDisplay::new((), 0x20);
    let transfer = display.display_time::<&'static str>(12, 30, true).unwrap();
    let (tried, answer) = write_out(transfer, Some(0));
    assert!(matches!(answer, Err(Error::I2C("no acknowledge"))));
    assert_eq!(tried, vec![(0x20, vec![0x89, 0, 1])]);
}

#[test]
fn a_failure_at_the_dot_comes_after_the_digits() {
    let display = TWIDisplay::new((), DEFAULT_ADDRESS);
    let transfer = display.display_time::<&'static str>(12, 30, true).unwrap();
    let (tried, answer) = write_out(transfer, Some(4));
    assert!(matches!(answer, Err(Error::I2C("no acknowledge"))));
    assert_eq!(
        tried,
        vec![
            (0x12, vec![0x89, 0, 1]),
            (0x12, vec![0x89, 1, 2]),
            (0x12, vec![0x89, 2, 3]),
            (0x12, vec![0x89, 3, 0]),
            (0x12, vec![0x85, 0x04]),
        ]
    );
}

#[test]
fn a_rejected_number_writes_nothing() {
    let display = TWIDisplay::new((), DEFAULT_ADDRESS);
    let mut tried: Vec<(u8, Vec<u8>)> = Vec::new();
    let answer = match display.display_number::<&'static str>(10000) {
        Ok(transfer) => {
            let (writes, answer) = write_out(transfer, None);
            tried = writes;
            answer
        }
        Err(e) => Err(e),
    };
    assert!(matches!(answer, Err(Error::InvalidInputData)));
    assert!(tried.is_empty());
}

#[test]
fn writing_out_text() {
    let display = TWIDisplay::new((), DEFAULT_ADDRESS);
    let (tried, answer) = write_out(display.send_text::<&'static str>("ABCD").unwrap(), None);
    assert!(answer.is_ok());
    assert_eq!(
        tried,
        vec![
            (0x12, vec![0x41]),
            (0x12, vec![0x42]),
            (0x12, vec![0x43]),
            (0x12, vec![0x44]),
        ]
    );
}

#[test]
fn character_codes() {
    assert_eq!(code_of('A'), 0x41);
    assert_eq!(code_of(' '), 0x20);
    assert_eq!(code_of('-'), 0x2d);
    assert_eq!(code_of('\u{0}'), 0);
    assert_eq!(code_of('\u{ff}'), 0xff);
    assert_eq!(code_of('\u{100}'), 0);
    assert_eq!(code_of('\u{10ffff}'), 0xff);
}
