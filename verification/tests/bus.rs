use firmware::flag::Flag;
use firmware::i2c::{
    fits_fifo, i2c0_isr, read_commands, write_commands, BaudRate, Command, Divider, Error, Master,
    Opcode, RegisterWrite, ALL_INTERRUPTS, FIFO_DEPTH,
};

const START: u16 = 0x0100;
const STOP: u16 = 0x1900;

fn control(opcode: Opcode) -> Command {
    Command { opcode, ack_check: true, operand: 0 }
}

fn transfer(opcode: Opcode, operand: u8) -> Command {
    Command { opcode, ack_check: true, operand }
}

fn fresh_master() -> Master {
    let mut master = Master::new();
    master.take_writes();
    master
}

#[test]
fn command_words_follow_the_bit_layout() {
    assert_eq!(control(Opcode::Start).encode(), (0 << 11) | (1 << 8));
    assert_eq!(control(Opcode::Restart).encode(), (0 << 11) | (1 << 8));
    assert_eq!(control(Opcode::Stop).encode(), (3 << 11) | (1 << 8));
    assert_eq!(transfer(Opcode::Write, 3).encode(), (1 << 11) | (1 << 8) | 3);
    assert_eq!(transfer(Opcode::Read, 32).encode(), (1 << 11) | (1 << 8) | 32);
    assert_eq!(transfer(Opcode::Write, 3).encode(), 2307);
    assert_eq!(control(Opcode::Stop).encode(), 6400);
    let unchecked = Command { opcode: Opcode::Write, ack_check: false, operand: 0xff };
    assert_eq!(unchecked.encode(), 0x08ff);
}

#[test]
fn opcode_numbers() {
    assert_eq!(Opcode::Start.number(), 0);
    assert_eq!(Opcode::Write.number(), 1);
    assert_eq!(Opcode::Read.number(), 1);
    assert_eq!(Opcode::Restart.number(), 0);
    assert_eq!(Opcode::Stop.number(), 3);
}

#[test]
fn baud_options_give_their_divider_triples() {
    assert_eq!(
        BaudRate::Standard.divider(),
        Divider { factor: 100, compensation_b: 255, compensation_a: 0 }
    );
    assert_eq!(
        BaudRate::Fast.divider(),
        Divider { factor: 40, compensation_b: 255, compensation_a: 0 }
    );
}

#[test]
fn set_baudrate_stages_one_divider_write() {
    let mut master = fresh_master();
    master.set_baudrate(BaudRate::Standard);
    master.set_baudrate(BaudRate::Fast);
    let writes = master.take_writes();
    assert_eq!(
        writes,
        vec![
            RegisterWrite::ClockDivider {
                divider: Divider { factor: 100, compensation_b: 255, compensation_a: 0 }
            },
            RegisterWrite::ClockDivider {
                divider: Divider { factor: 40, compensation_b: 255, compensation_a: 0 }
            },
        ]
    );
}

#[test]
fn construction_selects_crystal_then_master_mode_then_commits() {
    let mut master = Master::new();
    assert_eq!(
        master.take_writes(),
        vec![
            RegisterWrite::ClockSource { select: false, active: true },
            RegisterWrite::MasterMode,
            RegisterWrite::ConfigUpdate,
        ]
    );
    assert_eq!(master.take_writes(), vec![]);
}

#[test]
fn write_of_two_bytes() {
    assert_eq!(
        write_commands(2),
        vec![control(Opcode::Start), transfer(Opcode::Write, 3), control(Opcode::Stop)]
    );
    let mut master = fresh_master();
    master.write(0x50, 0x00, &[0xAA, 0xBB]);
    assert_eq!(
        master.take_writes(),
        vec![
            RegisterWrite::CommandSlot { index: 0, word: START },
            RegisterWrite::CommandSlot { index: 1, word: 0x0903 },
            RegisterWrite::CommandSlot { index: 2, word: STOP },
            RegisterWrite::SlaveAddress { address: 0x50 },
            RegisterWrite::FifoData { byte: 0x00 },
            RegisterWrite::FifoData { byte: 0xAA },
            RegisterWrite::FifoData { byte: 0xBB },
            RegisterWrite::ConfigUpdate,
            RegisterWrite::TransactionStart,
        ]
    );
}

#[test]
fn read_of_four_bytes_completes() {
    assert_eq!(
        read_commands(4),
        vec![
            control(Opcode::Start),
            transfer(Opcode::Write, 1),
            control(Opcode::Restart),
            transfer(Opcode::Read, 4),
            control(Opcode::Stop),
        ]
    );
    let mut master = fresh_master();
    let buffer = [0u8; 4];
    master.read(0x50, 0x10, &buffer);
    assert_eq!(
        master.take_writes(),
        vec![
            RegisterWrite::CommandSlot { index: 0, word: START },
            RegisterWrite::CommandSlot { index: 1, word: 0x0901 },
            RegisterWrite::CommandSlot { index: 2, word: START },
            RegisterWrite::CommandSlot { index: 3, word: 0x0904 },
            RegisterWrite::CommandSlot { index: 4, word: STOP },
            RegisterWrite::SlaveAddress { address: 0x50 },
            RegisterWrite::FifoData { byte: 0x10 },
            RegisterWrite::ConfigUpdate,
            RegisterWrite::TransactionStart,
        ]
    );
    let mut latch = Flag::new();
    assert_eq!(master.complete(&mut latch, true), None);
    assert_eq!(master.take_writes(), vec![]);
    i2c0_isr(&mut latch);
    assert_eq!(master.complete(&mut latch, true), Some(Ok(())));
    assert_eq!(
        master.take_writes(),
        vec![RegisterWrite::InterruptClear { mask: 0xFFFF_FFFF }]
    );
    assert!(!latch.take());
}

#[test]
fn read_does_not_send_the_buffer() {
    let mut master = fresh_master();
    master.read(0x68, 0x3B, &[1, 2, 3]);
    let pushed: Vec<RegisterWrite> = master
        .take_writes()
        .into_iter()
        .filter(|w| matches!(w, RegisterWrite::FifoData { .. }))
        .collect();
    assert_eq!(pushed, vec![RegisterWrite::FifoData { byte: 0x3B }]);
}

#[test]
fn sequences_for_every_length_that_fits() {
    for len in 0..=FIFO_DEPTH {
        let count = len as u8;
        assert_eq!(
            write_commands(len),
            vec![control(Opcode::Start), transfer(Opcode::Write, count + 1), control(Opcode::Stop)]
        );
        assert_eq!(
            read_commands(len),
            vec![
                control(Opcode::Start),
                transfer(Opcode::Write, 1),
                control(Opcode::Restart),
                transfer(Opcode::Read, count),
                control(Opcode::Stop),
            ]
        );
    }
}

#[test]
fn full_buffers_and_empty_buffers() {
    let mut master = fresh_master();
    let data = [0x5Au8; 32];
    master.write(0x21, 0x07, &data);
    let writes = master.take_writes();
    assert_eq!(writes.len(), 3 + 1 + 33 + 2);
    assert_eq!(writes[1], RegisterWrite::CommandSlot { index: 1, word: (1 << 11) | (1 << 8) | 33 });
    assert_eq!(writes[4], RegisterWrite::FifoData { byte: 0x07 });
    assert_eq!(writes[5], RegisterWrite::FifoData { byte: 0x5A });
    assert_eq!(writes[36], RegisterWrite::FifoData { byte: 0x5A });
    assert_eq!(writes[37], RegisterWrite::ConfigUpdate);
    assert_eq!(writes[38], RegisterWrite::TransactionStart);

    master.write(0x21, 0x07, &[]);
    let writes = master.take_writes();
    assert_eq!(writes.len(), 3 + 1 + 1 + 2);
    assert_eq!(writes[1], RegisterWrite::CommandSlot { index: 1, word: 0x0901 });

    master.read(0x21, 0x07, &[]);
    let writes = master.take_writes();
    assert_eq!(writes[3], RegisterWrite::CommandSlot { index: 3, word: 0x0900 });
}

#[test]
fn outcome_follows_the_status_bit() {
    let mut master = fresh_master();
    let mut latch = Flag::new();
    master.write(0x50, 0x01, &[0x00]);
    master.take_writes();
    i2c0_isr(&mut latch);
    assert_eq!(master.complete(&mut latch, true), Some(Ok(())));
    master.write(0x50, 0x01, &[0x00]);
    master.take_writes();
    i2c0_isr(&mut latch);
    assert_eq!(master.complete(&mut latch, false), Some(Err(Error::BusError)));
    master.read(0x50, 0x01, &[0x00]);
    master.take_writes();
    i2c0_isr(&mut latch);
    assert_eq!(master.complete(&mut latch, false), Some(Err(Error::BusError)));
}

#[test]
fn no_outcome_before_the_interrupt() {
    let mut master = fresh_master();
    let mut latch = Flag::new();
    master.write(0x50, 0x01, &[0x00]);
    master.take_writes();
    for _ in 0..5 {
        assert_eq!(master.complete(&mut latch, true), None);
        assert_eq!(master.complete(&mut latch, false), None);
    }
    assert_eq!(master.take_writes(), vec![]);
    i2c0_isr(&mut latch);
    i2c0_isr(&mut latch);
    assert_eq!(master.complete(&mut latch, true), Some(Ok(())));
    assert_eq!(master.complete(&mut latch, true), None);
}

#[test]
fn every_interrupt_is_acknowledged_whatever_the_outcome() {
    let mut master = fresh_master();
    let mut latch = Flag::new();
    i2c0_isr(&mut latch);
    assert_eq!(master.complete(&mut latch, false), Some(Err(Error::BusError)));
    assert_eq!(
        master.take_writes(),
        vec![RegisterWrite::InterruptClear { mask: ALL_INTERRUPTS }]
    );
    i2c0_isr(&mut latch);
    assert_eq!(master.complete(&mut latch, true), Some(Ok(())));
    assert_eq!(
        master.take_writes(),
        vec![RegisterWrite::InterruptClear { mask: ALL_INTERRUPTS }]
    );
    assert_eq!(ALL_INTERRUPTS, u32::MAX);
}

#[test]
fn thirty_three_bytes_do_not_fit() {
    assert!(fits_fifo(0));
    assert!(fits_fifo(32));
    assert!(!fits_fifo(33));
    assert!(!fits_fifo(usize::MAX));
    assert_eq!(FIFO_DEPTH, 32);
}

#[test]
fn writes_pile_up_until_taken() {
    let mut master = Master::new();
    master.set_baudrate(BaudRate::Fast);
    let writes = master.take_writes();
    assert_eq!(writes.len(), 4);
    assert_eq!(
        writes[3],
        RegisterWrite::ClockDivider {
            divider: Divider { factor: 40, compensation_b: 255, compensation_a: 0 }
        }
    );
}
