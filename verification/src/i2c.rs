//! The register-write protocol of a blocking serial-bus master.
//!
//! The master owns no hardware. Each operation stages the register writes
//! that it stands for, in the order in which they have to reach the
//! peripheral; the owner of the register block performs them, waits for the
//! completion interrupt, and hands back what the status register showed.

use crate::flag::Flag;
use vstd::prelude::*;

verus! {

/// Depth of the peripheral's transmit and receive buffer, in bytes. No
/// transaction moves more data than this.
pub const FIFO_DEPTH: usize = 32;

/// Value written to the interrupt-clear register: every source at once.
pub const ALL_INTERRUPTS: u32 = 0xFFFF_FFFF;

/// Why a transaction failed.
#[derive(Debug, Clone, Copy, PartialEq, Eq)]
#[non_exhaustive]
pub enum Error {
    /// The peripheral raised its interrupt without reporting the
    /// transaction as complete.
    BusError,
}

/// The bus speeds on offer.
#[derive(Debug, Clone, Copy, PartialEq, Eq)]
pub enum BaudRate {
    Standard,
    Fast,
}

/// Settings of the fractional clock divider.
#[derive(Debug, Clone, Copy, PartialEq, Eq)]
pub struct Divider {
    /// Integral division factor.
    pub factor: u8,
    /// First compensation term (numerator field of the divider).
    pub compensation_b: u8,
    /// Second compensation term (denominator field of the divider).
    pub compensation_a: u8,
}

/// What a command slot tells the peripheral to do.
#[derive(Debug, Clone, Copy, PartialEq, Eq)]
pub enum Opcode {
    Start,
    Write,
    Read,
    Restart,
    Stop,
}

/// The contents of one command slot.
#[derive(Debug, Clone, Copy, PartialEq, Eq)]
pub struct Command {
    pub opcode: Opcode,
    /// Whether the peripheral checks the acknowledge bit.
    pub ack_check: bool,
    /// Number of bytes to move; zero for commands that move none.
    pub operand: u8,
}

/// One write to a register of the peripheral.
#[derive(Debug, Clone, Copy, PartialEq, Eq)]
pub enum RegisterWrite {
    /// Clock configuration, written whole: the source-select bit (clear
    /// selects the external crystal) and the enable bit.
    ClockSource { select: bool, active: bool },
    /// Clock configuration, divider fields only.
    ClockDivider { divider: Divider },
    /// Control register, written whole, with the master-mode bit set.
    MasterMode,
    /// Control register: strobe that commits staged configuration into the
    /// clock domain of the data path.
    ConfigUpdate,
    /// Control register: start the transaction.
    TransactionStart,
    /// One of the command slots.
    CommandSlot { index: u8, word: u16 },
    /// Address of the device spoken to.
    SlaveAddress { address: u16 },
    /// One byte pushed into the transmit buffer.
    FifoData { byte: u8 },
    /// Interrupt-clear register.
    InterruptClear { mask: u32 },
}

/// The 16-bit word of a command slot: the opcode from bit 11 up, the
/// acknowledge check in bit 8, the byte count in the low byte.
pub open spec fn command_word(opcode: u16, ack_check: bool, operand: u8) -> u16 {
    (opcode << 11) | ((if ack_check { 1u16 } else { 0u16 }) << 8) | (operand as u16)
}

/// The fields of a command word do not overlap: the word is the sum of its
/// shifted fields, and each field can be read back from it.
pub proof fn command_word_layout(opcode: u16, ack_check: bool, operand: u8)
    requires
        opcode <= 3,
    ensures
        command_word(opcode, ack_check, operand) == opcode * 2048 + (if ack_check { 256int } else { 0int })
            + operand,
        command_word(opcode, ack_check, operand) >> 11 == opcode,
        (command_word(opcode, ack_check, operand) >> 8) & 1 == (if ack_check { 1u16 } else { 0u16 }),
        command_word(opcode, ack_check, operand) & 0xff == operand,
{
    let ack: u16 = if ack_check { 1 } else { 0 };
    let low: u16 = operand as u16;
    let word: u16 = (opcode << 11) | (ack << 8) | low;
    assert(word == opcode * 2048 + ack * 256 + low && word >> 11 == opcode && (word >> 8) & 1
        == ack && word & 0xff == low) by (bit_vector)
        requires
            word == (opcode << 11) | (ack << 8) | low,
            opcode <= 3,
            ack <= 1,
            low <= 255,
    ;
}

impl Opcode {
    /// The number that stands for this command in a slot. Reads and writes
    /// share one number, as do start and restart: the peripheral tells them
    /// apart by their place in the sequence.
    pub open spec fn code(self) -> u16 {
        match self {
            Opcode::Start => 0,
            Opcode::Write => 1,
            Opcode::Read => 1,
            Opcode::Restart => 0,
            Opcode::Stop => 3,
        }
    }

    /// Computes `code`.
    pub fn number(&self) -> (code: u16)
        ensures
            code == self.code(),
            code <= 3,
    {
        match self {
            Opcode::Start => 0,
            Opcode::Write => 1,
            Opcode::Read => 1,
            Opcode::Restart => 0,
            Opcode::Stop => 3,
        }
    }
}

impl Command {
    /// The word that this command is written to its slot as.
    pub open spec fn word(self) -> u16 {
        command_word(self.opcode.code(), self.ack_check, self.operand)
    }

    /// Computes `word`.
    pub fn encode(&self) -> (word: u16)
        ensures
            word == self.word(),
    {
        let ack: u16 = if self.ack_check { 1 } else { 0 };
        (self.opcode.number() << 11) | (ack << 8) | (self.operand as u16)
    }
}

/// A command that moves no data. The acknowledge check is switched on in
/// every slot.
pub open spec fn control(opcode: Opcode) -> Command {
    Command { opcode, ack_check: true, operand: 0 }
}

/// A command that moves `count` bytes.
pub open spec fn transfer(opcode: Opcode, count: nat) -> Command {
    Command { opcode, ack_check: true, operand: count as u8 }
}

/// The commands of a register read of `len` bytes: address the device and
/// send the register address, then turn the bus round and read.
pub open spec fn read_sequence(len: nat) -> Seq<Command> {
    seq![
        control(Opcode::Start),
        transfer(Opcode::Write, 1),
        control(Opcode::Restart),
        transfer(Opcode::Read, len),
        control(Opcode::Stop),
    ]
}

/// The commands of a register write of `len` bytes: the register address and
/// the data go out as one write of `len + 1` bytes.
pub open spec fn write_sequence(len: nat) -> Seq<Command> {
    seq![control(Opcode::Start), transfer(Opcode::Write, len + 1), control(Opcode::Stop)]
}

/// For every buffer that fits the transmit buffer, a read takes five
/// commands and asks for exactly the buffer's length, and a write takes
/// three and sends one byte more than the data, the register address.
pub proof fn sequence_shapes(len: nat)
    requires
        len <= FIFO_DEPTH,
    ensures
        read_sequence(len).len() == 5,
        read_sequence(len)[0] == control(Opcode::Start),
        read_sequence(len)[1].opcode == Opcode::Write && read_sequence(len)[1].operand == 1,
        read_sequence(len)[2] == control(Opcode::Restart),
        read_sequence(len)[3].opcode == Opcode::Read && read_sequence(len)[3].operand == len,
        read_sequence(len)[4] == control(Opcode::Stop),
        write_sequence(len).len() == 3,
        write_sequence(len)[0] == control(Opcode::Start),
        write_sequence(len)[1].opcode == Opcode::Write && write_sequence(len)[1].operand == len + 1,
        write_sequence(len)[2] == control(Opcode::Stop),
{
}

/// The words that the commands of a transaction are written as, as
/// numbers: start and restart are 0x0100, stop is 0x1900, and a transfer of
/// `count` bytes is 0x0900 plus `count`.
pub proof fn slot_words(count: nat)
    requires
        count <= 255,
    ensures
        control(Opcode::Start).word() == 0x0100,
        control(Opcode::Restart).word() == 0x0100,
        control(Opcode::Stop).word() == 0x1900,
        transfer(Opcode::Write, count).word() == 0x0900 + count,
        transfer(Opcode::Read, count).word() == 0x0900 + count,
{
    command_word_layout(0, true, 0);
    command_word_layout(3, true, 0);
    command_word_layout(1, true, count as u8);
}

impl BaudRate {
    /// The divider settings that give this speed.
    pub open spec fn divider_spec(self) -> Divider {
        match self {
            BaudRate::Standard => Divider { factor: 100, compensation_b: 255, compensation_a: 0 },
            BaudRate::Fast => Divider { factor: 40, compensation_b: 255, compensation_a: 0 },
        }
    }

    /// Computes `divider_spec`.
    pub fn divider(&self) -> (divider: Divider)
        ensures
            divider == self.divider_spec(),
    {
        match self {
            BaudRate::Standard => Divider { factor: 100, compensation_b: 255, compensation_a: 0 },
            BaudRate::Fast => Divider { factor: 40, compensation_b: 255, compensation_a: 0 },
        }
    }
}

/// Whether a buffer of `len` bytes fits a single transaction.
pub fn fits_fifo(len: usize) -> (fits: bool)
    ensures
        fits == (len <= FIFO_DEPTH),
{
    len <= FIFO_DEPTH
}

/// Builds `read_sequence(len)`.
pub fn read_commands(len: usize) -> (commands: Vec<Command>)
    requires
        len <= FIFO_DEPTH,
    ensures
        commands@ == read_sequence(len as nat),
        commands@.len() == 5,
{
    let mut commands: Vec<Command> = Vec::new();
    commands.push(Command { opcode: Opcode::Start, ack_check: true, operand: 0 });
    commands.push(Command { opcode: Opcode::Write, ack_check: true, operand: 1 });
    commands.push(Command { opcode: Opcode::Restart, ack_check: true, operand: 0 });
    commands.push(Command { opcode: Opcode::Read, ack_check: true, operand: len as u8 });
    commands.push(Command { opcode: Opcode::Stop, ack_check: true, operand: 0 });
    assert(commands@ =~= read_sequence(len as nat));
    commands
}

/// Builds `write_sequence(len)`.
pub fn write_commands(len: usize) -> (commands: Vec<Command>)
    requires
        len <= FIFO_DEPTH,
    ensures
        commands@ == write_sequence(len as nat),
        commands@.len() == 3,
{
    let mut commands: Vec<Command> = Vec::new();
    commands.push(Command { opcode: Opcode::Start, ack_check: true, operand: 0 });
    commands.push(Command { opcode: Opcode::Write, ack_check: true, operand: (len + 1) as u8 });
    commands.push(Command { opcode: Opcode::Stop, ack_check: true, operand: 0 });
    assert(commands@ =~= write_sequence(len as nat));
    commands
}

/// The writes that load `commands` into the command slots, first slot first.
pub open spec fn command_loads(commands: Seq<Command>) -> Seq<RegisterWrite> {
    Seq::new(
        commands.len(),
        |i: int| RegisterWrite::CommandSlot { index: i as u8, word: commands[i].word() },
    )
}

/// The writes that push `bytes` into the transmit buffer, in order.
pub open spec fn fifo_pushes(bytes: Seq<u8>) -> Seq<RegisterWrite> {
    Seq::new(bytes.len(), |i: int| RegisterWrite::FifoData { byte: bytes[i] })
}

/// The writes that every transaction consists of: load the command slots,
/// name the device, fill the transmit buffer, commit the configuration, and
/// only then start.
pub open spec fn transaction_writes(commands: Seq<Command>, device_id: u8, fifo: Seq<u8>) -> Seq<
    RegisterWrite,
> {
    command_loads(commands) + seq![RegisterWrite::SlaveAddress { address: device_id as u16 }]
        + fifo_pushes(fifo) + seq![RegisterWrite::ConfigUpdate, RegisterWrite::TransactionStart]
}

/// In every transaction the start is the last write and the strobe that
/// commits the configuration the last but one: the command slots, the
/// device address and every byte of the transmit buffer are written before
/// either, the bytes in the order given.
pub proof fn start_comes_last(commands: Seq<Command>, device_id: u8, fifo: Seq<u8>)
    ensures
        ({
            let writes = transaction_writes(commands, device_id, fifo);
            let loaded = commands.len() as int;
            let filled = loaded + 1 + fifo.len();
            &&& writes.len() == filled + 2
            &&& writes[filled + 1] == RegisterWrite::TransactionStart
            &&& writes[filled] == RegisterWrite::ConfigUpdate
            &&& forall|i: int|
                0 <= i < loaded ==> #[trigger] writes[i] == (RegisterWrite::CommandSlot {
                    index: i as u8,
                    word: commands[i].word(),
                })
            &&& writes[loaded] == (RegisterWrite::SlaveAddress { address: device_id as u16 })
            &&& forall|i: int|
                0 <= i < fifo.len() ==> #[trigger] writes[loaded + 1 + i] == (RegisterWrite::FifoData {
                    byte: fifo[i],
                })
        }),
{
}

/// The writes of a register read into a buffer of `len` bytes.
pub open spec fn read_writes(device_id: u8, address: u8, len: nat) -> Seq<RegisterWrite> {
    transaction_writes(read_sequence(len), device_id, seq![address])
}

/// The writes of a register write of `data`.
pub open spec fn write_writes(device_id: u8, address: u8, data: Seq<u8>) -> Seq<RegisterWrite> {
    transaction_writes(write_sequence(data.len()), device_id, seq![address] + data)
}

/// A register read of `len` bytes, write by write: five command slots with
/// the count of the read in the fourth, the device, the register address as
/// the only byte sent, the commit, the start.
pub proof fn read_layout(device_id: u8, address: u8, len: nat)
    requires
        len <= FIFO_DEPTH,
    ensures
        read_writes(device_id, address, len) == seq![
            RegisterWrite::CommandSlot { index: 0, word: 0x0100 },
            RegisterWrite::CommandSlot { index: 1, word: 0x0901 },
            RegisterWrite::CommandSlot { index: 2, word: 0x0100 },
            RegisterWrite::CommandSlot { index: 3, word: (0x0900 + len) as u16 },
            RegisterWrite::CommandSlot { index: 4, word: 0x1900 },
            RegisterWrite::SlaveAddress { address: device_id as u16 },
            RegisterWrite::FifoData { byte: address },
            RegisterWrite::ConfigUpdate,
            RegisterWrite::TransactionStart,
        ],
{
    slot_words(1);
    slot_words(len);
    start_comes_last(read_sequence(len), device_id, seq![address]);
    assert(read_writes(device_id, address, len) =~= seq![
        RegisterWrite::CommandSlot { index: 0, word: 0x0100 },
        RegisterWrite::CommandSlot { index: 1, word: 0x0901 },
        RegisterWrite::CommandSlot { index: 2, word: 0x0100 },
        RegisterWrite::CommandSlot { index: 3, word: (0x0900 + len) as u16 },
        RegisterWrite::CommandSlot { index: 4, word: 0x1900 },
        RegisterWrite::SlaveAddress { address: device_id as u16 },
        RegisterWrite::FifoData { byte: address },
        RegisterWrite::ConfigUpdate,
        RegisterWrite::TransactionStart,
    ]);
}

/// A register write of `data`, write by write: three command slots with one
/// more than the length of `data` in the second, the device, the register
/// address and then each byte of `data` in order, the commit, the start.
pub proof fn write_layout(device_id: u8, address: u8, data: Seq<u8>)
    requires
        data.len() <= FIFO_DEPTH,
    ensures
        write_writes(device_id, address, data) == seq![
            RegisterWrite::CommandSlot { index: 0, word: 0x0100 },
            RegisterWrite::CommandSlot { index: 1, word: (0x0901 + data.len()) as u16 },
            RegisterWrite::CommandSlot { index: 2, word: 0x1900 },
            RegisterWrite::SlaveAddress { address: device_id as u16 },
            RegisterWrite::FifoData { byte: address },
        ] + fifo_pushes(data) + seq![RegisterWrite::ConfigUpdate, RegisterWrite::TransactionStart],
{
    slot_words(data.len() + 1);
    start_comes_last(write_sequence(data.len()), device_id, seq![address] + data);
    assert(write_writes(device_id, address, data) =~= seq![
        RegisterWrite::CommandSlot { index: 0, word: 0x0100 },
        RegisterWrite::CommandSlot { index: 1, word: (0x0901 + data.len()) as u16 },
        RegisterWrite::CommandSlot { index: 2, word: 0x1900 },
        RegisterWrite::SlaveAddress { address: device_id as u16 },
        RegisterWrite::FifoData { byte: address },
    ] + fifo_pushes(data) + seq![RegisterWrite::ConfigUpdate, RegisterWrite::TransactionStart]);
}

/// The writes that bring the peripheral up as a master clocked from the
/// external crystal.
pub open spec fn setup_writes() -> Seq<RegisterWrite> {
    seq![
        RegisterWrite::ClockSource { select: false, active: true },
        RegisterWrite::MasterMode,
        RegisterWrite::ConfigUpdate,
    ]
}

/// What a transaction came to, given whether the status register showed it
/// as complete when the completion interrupt had been seen. Nothing else is
/// told apart.
pub open spec fn outcome_of(transaction_complete: bool) -> Result<(), Error> {
    if transaction_complete {
        Ok(())
    } else {
        Err(Error::BusError)
    }
}

/// What one look at the completion latch yields: nothing while the latch is
/// clear, and the outcome of the transaction once it has been set.
pub open spec fn completion_of(latched: bool, transaction_complete: bool) -> Option<
    Result<(), Error>,
> {
    if latched {
        Some(outcome_of(transaction_complete))
    } else {
        None
    }
}

/// Handler of the bus-completion interrupt: sets the completion latch and
/// does nothing else.
pub fn i2c0_isr(latch: &mut Flag)
    ensures
        final(latch)@ == true,
{
    latch.signal();
}

/// Bus master. Holds the register writes that its operations have asked for
/// and that have not been handed out yet.
pub struct Master {
    staged: Vec<RegisterWrite>,
}

impl View for Master {
    type V = Seq<RegisterWrite>;

    /// The staged writes, oldest first.
    closed spec fn view(&self) -> Seq<RegisterWrite> {
        self.staged@
    }
}

impl Master {
    /// A master whose first staged writes configure the peripheral. Pin
    /// configuration is expected to be in place already.
    pub fn new() -> (master: Self)
        ensures
            master@ == setup_writes(),
    {
        let mut staged: Vec<RegisterWrite> = Vec::new();
        staged.push(RegisterWrite::ClockSource { select: false, active: true });
        staged.push(RegisterWrite::MasterMode);
        staged.push(RegisterWrite::ConfigUpdate);
        assert(staged@ =~= setup_writes());
        Self { staged }
    }

    /// Hands out the staged writes, oldest first, and forgets them.
    pub fn take_writes(&mut self) -> (writes: Vec<RegisterWrite>)
        ensures
            writes@ == old(self)@,
            final(self)@ == Seq::<RegisterWrite>::empty(),
    {
        let mut writes: Vec<RegisterWrite> = Vec::new();
        core::mem::swap(&mut self.staged, &mut writes);
        writes
    }

    /// Stages the divider settings of `baud`.
    pub fn set_baudrate(&mut self, baud: BaudRate)
        ensures
            final(self)@ == old(self)@.push(
                RegisterWrite::ClockDivider { divider: baud.divider_spec() },
            ),
    {
        self.staged.push(RegisterWrite::ClockDivider { divider: baud.divider() });
    }

    fn stage_commands(&mut self, commands: &Vec<Command>)
        requires
            commands@.len() <= 5,
        ensures
            final(self)@ == old(self)@ + command_loads(commands@),
    {
        let mut i: usize = 0;
        while i < commands.len()
            invariant
                i <= commands@.len() <= 5,
                self@ == old(self)@ + command_loads(commands@).take(i as int),
            decreases commands@.len() - i,
        {
            let word: u16 = commands[i].encode();
            self.staged.push(RegisterWrite::CommandSlot { index: i as u8, word });
            i += 1;
            assert(self@ =~= old(self)@ + command_loads(commands@).take(i as int));
        }
        assert(command_loads(commands@).take(i as int) =~= command_loads(commands@));
    }

    fn stage_fifo(&mut self, bytes: &[u8])
        ensures
            final(self)@ == old(self)@ + fifo_pushes(bytes@),
    {
        let mut i: usize = 0;
        while i < bytes.len()
            invariant
                i <= bytes@.len(),
                self@ == old(self)@ + fifo_pushes(bytes@).take(i as int),
            decreases bytes@.len() - i,
        {
            self.staged.push(RegisterWrite::FifoData { byte: bytes[i] });
            i += 1;
            assert(self@ =~= old(self)@ + fifo_pushes(bytes@).take(i as int));
        }
        assert(fifo_pushes(bytes@).take(i as int) =~= fifo_pushes(bytes@));
    }

    fn stage_transaction(&mut self, commands: &Vec<Command>, device_id: u8, address: u8, payload: &[u8])
        requires
            commands@.len() <= 5,
        ensures
            final(self)@ == old(self)@ + transaction_writes(
                commands@,
                device_id,
                seq![address] + payload@,
            ),
    {
        self.stage_commands(commands);
        self.staged.push(RegisterWrite::SlaveAddress { address: device_id as u16 });
        self.staged.push(RegisterWrite::FifoData { byte: address });
        self.stage_fifo(payload);
        self.staged.push(RegisterWrite::ConfigUpdate);
        self.staged.push(RegisterWrite::TransactionStart);
        assert(fifo_pushes(seq![address] + payload@) =~= seq![
            RegisterWrite::FifoData { byte: address },
        ] + fifo_pushes(payload@));
        assert(self@ =~= old(self)@ + transaction_writes(
            commands@,
            device_id,
            seq![address] + payload@,
        ));
    }

    /// Stages a read of `data.len()` bytes from register `address` of the
    /// device `device_id`. Only the register address goes into the transmit
    /// buffer. The transaction is under way once the staged writes have been
    /// performed; `complete` tells how it ended.
    pub fn read(&mut self, device_id: u8, address: u8, data: &[u8])
        requires
            data@.len() <= FIFO_DEPTH,
        ensures
            final(self)@ == old(self)@ + read_writes(device_id, address, data@.len()),
    {
        let commands = read_commands(data.len());
        let payload: Vec<u8> = Vec::new();
        self.stage_transaction(&commands, device_id, address, payload.as_slice());
        assert(seq![address] + payload@ =~= seq![address]);
    }

    /// Stages a write of `data` to register `address` of the device
    /// `device_id`. The register address and then each byte of `data` go into
    /// the transmit buffer before the transaction starts.
    pub fn write(&mut self, device_id: u8, address: u8, data: &[u8])
        requires
            data@.len() <= FIFO_DEPTH,
        ensures
            final(self)@ == old(self)@ + write_writes(device_id, address, data@),
    {
        let commands = write_commands(data.len());
        self.stage_transaction(&commands, device_id, address, data);
    }

    /// Looks at the completion latch of a transaction that is under way,
    /// and consumes it. While the latch is clear there is no outcome yet and
    /// nothing is staged: the caller looks again. Once it is set the
    /// transaction is over: it succeeded if `transaction_complete`, the
    /// status register's bit of that name as read after the interrupt, is
    /// set, and failed otherwise. Whichever it is, the write that
    /// acknowledges every interrupt source is staged with it.
    pub fn complete(&mut self, latch: &mut Flag, transaction_complete: bool) -> (outcome: Option<
        Result<(), Error>,
    >)
        ensures
            outcome == completion_of(old(latch)@, transaction_complete),
            final(latch)@ == false,
            final(self)@ == if old(latch)@ {
                old(self)@.push(RegisterWrite::InterruptClear { mask: ALL_INTERRUPTS })
            } else {
                old(self)@
            },
    {
        if latch.take() {
            self.staged.push(RegisterWrite::InterruptClear { mask: ALL_INTERRUPTS });
            if transaction_complete {
                Some(Ok(()))
            } else {
                Some(Err(Error::BusError))
            }
        } else {
            None
        }
    }
}

} // verus!
