//! The bus that the sensors sit on, and register access over it.
//!
//! The driver does not know how bytes reach the chip. Whoever owns the bus
//! implements [`Transport`]; nothing is assumed of an implementation, and the
//! driver is verified for every reply that it may give. [`Bus`] keeps a
//! journal, in ghost state, of each transfer that the driver has asked for
//! with the reply that came back. The contracts of the driver say which
//! transfers an operation makes, in which order, and what it returns for each
//! reply.

use vstd::prelude::*;

use crate::errors::{Error, ErrorKind};
use crate::registers::modified;

verus! {

/// A synchronous byte bus to one chip. Every call blocks until the transfer is
/// done or has failed; nothing is retried.
pub trait Transport {
    /// What the bus reports when a transfer fails.
    type Fault;

    /// Reads the byte in `register`.
    fn read_byte(&mut self, register: u8) -> Result<u8, Self::Fault>;

    /// Writes `value` to `register`.
    fn write_byte(&mut self, register: u8, value: u8) -> Result<(), Self::Fault>;

    /// Reads `length` bytes starting at `register`. The bus may hand back
    /// fewer bytes than were asked for without failing.
    fn read_block(&mut self, register: u8, length: u8) -> Result<Vec<u8>, Self::Fault>;
}

/// One transfer on the bus: what was asked for and what came back.
pub enum Exchange<F> {
    /// A read of the byte in `register`, and the byte or the fault.
    ReadByte { register: u8, byte: Result<u8, F> },
    /// A write of `value` to `register`, and whether it went through.
    WriteByte { register: u8, value: u8, outcome: Result<(), F> },
    /// A read of `length` bytes starting at `register`, and the bytes that
    /// came, however many, or the fault.
    ReadBlock { register: u8, length: u8, block: Result<Seq<u8>, F> },
}

impl<F> Exchange<F> {
    /// What the transfer has failed with, if it has failed: a single-byte
    /// read with `FailedToReadRegister`, a single-byte write with
    /// `FailedToWriteRegister`, a block read with `I2C`, each with the fault
    /// of the bus.
    pub open spec fn failure(self) -> Option<Error<F>> {
        match self {
            Exchange::ReadByte { byte: Err(fault), .. } => Some(
                Error::caused_by(ErrorKind::FailedToReadRegister, fault),
            ),
            Exchange::WriteByte { outcome: Err(fault), .. } => Some(
                Error::caused_by(ErrorKind::FailedToWriteRegister, fault),
            ),
            Exchange::ReadBlock { block: Err(fault), .. } => Some(
                Error::caused_by(ErrorKind::I2C, fault),
            ),
            _ => None,
        }
    }

    /// The transfer went through.
    pub open spec fn went_through(self) -> bool {
        self.failure() is None
    }
}

/// What a register read comes to: the byte, or `FailedToReadRegister` with
/// the fault of the bus.
pub open spec fn spec_read_outcome<F>(reply: Result<u8, F>) -> Result<u8, Error<F>> {
    match reply {
        Ok(byte) => Ok(byte),
        Err(fault) => Err(Error::caused_by(ErrorKind::FailedToReadRegister, fault)),
    }
}

/// What a register write comes to: done, or `FailedToWriteRegister` with the
/// fault of the bus.
pub open spec fn spec_write_outcome<F>(reply: Result<(), F>) -> Result<(), Error<F>> {
    match reply {
        Ok(()) => Ok(()),
        Err(fault) => Err(Error::caused_by(ErrorKind::FailedToWriteRegister, fault)),
    }
}

/// What a block read comes to: the bytes, however many, or the fault of the
/// bus handed on as `I2C`.
pub open spec fn spec_block_outcome<F>(reply: Result<Seq<u8>, F>) -> Result<Seq<u8>, Error<F>> {
    match reply {
        Ok(bytes) => Ok(bytes),
        Err(fault) => Err(Error::caused_by(ErrorKind::I2C, fault)),
    }
}

/// What a register read comes to, given the reply of the bus.
#[verifier::when_used_as_spec(spec_read_outcome)]
pub fn read_outcome<F>(reply: Result<u8, F>) -> (result: Result<u8, Error<F>>)
    ensures
        result == spec_read_outcome(reply),
{
    match reply {
        Ok(byte) => Ok(byte),
        Err(fault) => Err(Error::caused_by(ErrorKind::FailedToReadRegister, fault)),
    }
}

/// What a register write comes to, given the reply of the bus.
#[verifier::when_used_as_spec(spec_write_outcome)]
pub fn write_outcome<F>(reply: Result<(), F>) -> (result: Result<(), Error<F>>)
    ensures
        result == spec_write_outcome(reply),
{
    match reply {
        Ok(()) => Ok(()),
        Err(fault) => Err(Error::caused_by(ErrorKind::FailedToWriteRegister, fault)),
    }
}

/// The bytes of a reply to a block read, as a sequence.
pub open spec fn block_view<F>(reply: Result<Vec<u8>, F>) -> Result<Seq<u8>, F> {
    match reply {
        Ok(bytes) => Ok(bytes@),
        Err(fault) => Err(fault),
    }
}

/// What a block read comes to, given the reply of the bus.
pub fn block_outcome<F>(reply: Result<Vec<u8>, F>) -> (result: Result<Vec<u8>, Error<F>>)
    ensures
        block_result_view(result) == spec_block_outcome(block_view(reply)),
{
    match reply {
        Ok(bytes) => Ok(bytes),
        Err(fault) => Err(Error::caused_by(ErrorKind::I2C, fault)),
    }
}

/// The bytes of the result of a block read, as a sequence.
pub open spec fn block_result_view<F>(result: Result<Vec<u8>, Error<F>>) -> Result<
    Seq<u8>,
    Error<F>,
> {
    match result {
        Ok(bytes) => Ok(bytes@),
        Err(error) => Err(error),
    }
}

/// The transfers `added` are one read of the register at `address`, and
/// `result` is what that read comes to.
pub open spec fn is_register_read<F>(
    added: Seq<Exchange<F>>,
    address: u8,
    result: Result<u8, Error<F>>,
) -> bool {
    &&& added.len() == 1
    &&& added[0] matches Exchange::ReadByte { register, byte }
    &&& register == address
    &&& result == read_outcome(byte)
}

/// The transfers `added` are one write of `byte` to the register at
/// `address`, and `result` is what that write comes to.
pub open spec fn is_register_write<F>(
    added: Seq<Exchange<F>>,
    address: u8,
    byte: u8,
    result: Result<(), Error<F>>,
) -> bool {
    &&& added.len() == 1
    &&& added[0] matches Exchange::WriteByte { register, value, outcome }
    &&& register == address
    &&& value == byte
    &&& result == write_outcome(outcome)
}

/// The transfers `added` are one read-modify-write of the register at
/// `address`: a read and, if it succeeded, a write of the byte read without
/// the bits of `clear` and with the bits of `set`. `result` is the failure of
/// the read, or else what the write comes to.
pub open spec fn is_register_update<F>(
    added: Seq<Exchange<F>>,
    address: u8,
    clear: u8,
    set: u8,
    result: Result<(), Error<F>>,
) -> bool {
    &&& added.len() >= 1
    &&& added[0] matches Exchange::ReadByte { register, byte }
    &&& register == address
    &&& match byte {
        Ok(current) => is_register_write(
            added.skip(1),
            address,
            modified(current, clear, set),
            result,
        ),
        Err(fault) => {
            &&& added.len() == 1
            &&& result == Err::<(), Error<F>>(
                Error::caused_by(ErrorKind::FailedToReadRegister, fault),
            )
        },
    }
}

/// A read-modify-write that got as far as its write ends as the write ends:
/// if the write fails, so does the whole, with `FailedToWriteRegister`. One
/// that made no write has failed with `FailedToReadRegister`.
pub proof fn lemma_update_ends_as_its_write<F>(
    added: Seq<Exchange<F>>,
    address: u8,
    clear: u8,
    set: u8,
    result: Result<(), Error<F>>,
)
    requires
        is_register_update(added, address, clear, set, result),
    ensures
        added.len() == 1 || added.len() == 2,
        added.len() == 2 ==> (added[1] matches Exchange::WriteByte { outcome, .. } && result
            == write_outcome(outcome)),
        added.len() == 1 ==> (result matches Err(error) && error.kind
            == ErrorKind::FailedToReadRegister),
        result matches Err(error) ==> error.kind == ErrorKind::FailedToReadRegister || error.kind
            == ErrorKind::FailedToWriteRegister,
{
    if added[0] matches Exchange::ReadByte { byte: Ok(current), .. } {
        assert(added.skip(1)[0] == added[1]);
    }
}

/// The transfers `added` are one read of `length` bytes starting at
/// `address`, and `result` is what that read comes to.
pub open spec fn is_block_read<F>(
    added: Seq<Exchange<F>>,
    address: u8,
    length: u8,
    result: Result<Seq<u8>, Error<F>>,
) -> bool {
    &&& added.len() == 1
    &&& added[0] matches Exchange::ReadBlock { register, length: asked, block }
    &&& register == address
    &&& asked == length
    &&& result == spec_block_outcome(block)
}

/// `exchange` is a write to `register` that went through.
pub open spec fn is_write_done<F>(exchange: Exchange<F>, register: u8) -> bool {
    exchange matches Exchange::WriteByte { register: written, outcome, .. } && written == register
        && outcome is Ok
}

/// The byte that `register` was given by the last write to it in `journal`
/// that went through, if there is one.
pub open spec fn last_written<F>(journal: Seq<Exchange<F>>, register: u8) -> Option<u8>
    decreases journal.len(),
{
    if journal.len() == 0 {
        None
    } else if is_write_done(journal.last(), register) {
        Some(journal.last()->value)
    } else {
        last_written(journal.drop_last(), register)
    }
}

/// The last write that went through is looked for among the later transfers
/// first, and among the earlier ones only if the later ones hold none.
pub proof fn lemma_last_written_append<F>(
    earlier: Seq<Exchange<F>>,
    later: Seq<Exchange<F>>,
    register: u8,
)
    ensures
        last_written(earlier + later, register) == match last_written(later, register) {
            Some(byte) => Some(byte),
            None => last_written(earlier, register),
        },
    decreases later.len(),
{
    if later.len() == 0 {
        assert(earlier + later =~= earlier);
    } else {
        assert((earlier + later).last() == later.last());
        assert((earlier + later).drop_last() =~= earlier + later.drop_last());
        lemma_last_written_append(earlier, later.drop_last(), register);
    }
}

/// A read-modify-write that went through has written to its register the
/// byte that it read, without the bits of `clear` and with the bits of `set`.
/// One that failed has written nothing, and neither has written to any other
/// register.
pub proof fn lemma_last_written_by_update<F>(
    added: Seq<Exchange<F>>,
    address: u8,
    clear: u8,
    set: u8,
    result: Result<(), Error<F>>,
    register: u8,
)
    requires
        is_register_update(added, address, clear, set, result),
    ensures
        result is Ok && register == address ==> (added[0] matches Exchange::ReadByte {
            byte: Ok(current),
            ..
        } && last_written(added, register) == Some(modified(current, clear, set))),
        result is Err || register != address ==> last_written(added, register) is None,
{
    reveal_with_fuel(last_written, 3);
    if added.len() == 2 {
        assert(added.skip(1)[0] == added[1]);
        assert(added.drop_last().last() == added[0]);
    }
}

/// A bus together with the journal of what the driver has done on it.
pub struct Bus<Dev: Transport> {
    device: Dev,
    journal: Ghost<Seq<Exchange<Dev::Fault>>>,
}

impl<Dev: Transport> Bus<Dev> {
    /// Every transfer made through this value so far, oldest first.
    pub closed spec fn journal(&self) -> Seq<Exchange<Dev::Fault>> {
        self.journal@
    }

    /// The bus handle.
    pub closed spec fn spec_device(&self) -> Dev {
        self.device
    }

    /// The journal of `self` starts with that of `before`: nothing that was
    /// recorded has been changed or dropped.
    pub open spec fn continues(&self, before: &Self) -> bool {
        before.journal().is_prefix_of(self.journal())
    }

    /// The transfers that `self` has recorded beyond those of `before`.
    pub open spec fn since(&self, before: &Self) -> Seq<Exchange<Dev::Fault>> {
        self.journal().skip(before.journal().len() as int)
    }

    /// A journal that continues another is that other with the transfers
    /// made since put behind it.
    pub proof fn lemma_continues(&self, before: &Self)
        requires
            self.continues(before),
        ensures
            self.journal() == before.journal() + self.since(before),
    {
        assert(self.journal() =~= before.journal() + self.since(before));
    }

    /// Takes over the bus handle `device`, with an empty journal.
    pub fn new(device: Dev) -> (bus: Self)
        ensures
            bus.journal() == Seq::<Exchange<Dev::Fault>>::empty(),
            bus.spec_device() == device,
    {
        Bus { device, journal: Ghost(Seq::empty()) }
    }

    /// The bus handle.
    pub fn device(&self) -> (device: &Dev)
        ensures
            *device == self.spec_device(),
    {
        &self.device
    }

    /// The bus handle, for transfers of the caller's own. The journal does not
    /// see them.
    pub fn device_mut(&mut self) -> (device: &mut Dev)
        ensures
            *device == old(self).spec_device(),
            final(self).spec_device() == *final(device),
            final(self).journal() == old(self).journal(),
    {
        &mut self.device
    }

    /// Gives the bus handle back.
    pub fn into_device(self) -> (device: Dev)
        ensures
            device == self.spec_device(),
    {
        self.device
    }

    /// Reads the register at `address`: one single-byte read on the bus.
    pub fn read_register(&mut self, address: u8) -> (result: Result<u8, Error<Dev::Fault>>)
        ensures
            final(self).continues(old(self)),
            is_register_read(final(self).since(old(self)), address, result),
    {
        let reply = self.device.read_byte(address);
        proof {
            let entry = Exchange::ReadByte { register: address, byte: reply };
            self.journal@ = self.journal@.push(entry);
        }
        read_outcome(reply)
    }

    /// Writes `byte` to the register at `address`: one single-byte write on
    /// the bus.
    pub fn write_register(&mut self, address: u8, byte: u8) -> (result: Result<
        (),
        Error<Dev::Fault>,
    >)
        ensures
            final(self).continues(old(self)),
            is_register_write(final(self).since(old(self)), address, byte, result),
    {
        let reply = self.device.write_byte(address, byte);
        proof {
            let entry = Exchange::WriteByte { register: address, value: byte, outcome: reply };
            self.journal@ = self.journal@.push(entry);
        }
        write_outcome(reply)
    }

    /// Reads the register at `address`, takes the bits of `clear` out of the
    /// byte, puts the bits of `set` in, and writes the byte back. If the read
    /// fails nothing is written.
    pub fn modify_register(&mut self, address: u8, clear: u8, set: u8) -> (result: Result<
        (),
        Error<Dev::Fault>,
    >)
        ensures
            final(self).continues(old(self)),
            is_register_update(final(self).since(old(self)), address, clear, set, result),
    {
        match self.read_register(address) {
            Ok(current) => self.write_register(address, modified(current, clear, set)),
            Err(error) => Err(error),
        }
    }

    /// Reads `length` bytes starting at `address`: one block read on the bus.
    /// The block may be shorter than `length`.
    pub fn read_block(&mut self, address: u8, length: u8) -> (result: Result<
        Vec<u8>,
        Error<Dev::Fault>,
    >)
        ensures
            final(self).continues(old(self)),
            is_block_read(final(self).since(old(self)), address, length, block_result_view(result)),
    {
        let reply = self.device.read_block(address, length);
        proof {
            let entry = Exchange::ReadBlock {
                register: address,
                length,
                block: block_view(reply),
            };
            self.journal@ = self.journal@.push(entry);
        }
        block_outcome(reply)
    }
}

} // verus!
