//! The register accessor: one register address, one open per-CPU device,
//! and an 8-byte staging buffer.

use vstd::prelude::*;

use crate::codec::bytes_of;
use crate::codec::lemma_word_of_bytes_of;
use crate::codec::store_word;
use crate::codec::word_of;
use crate::device::Device;
use crate::error::MsrError;
use crate::path::device_path;
use crate::path::msr_node_path;

verus! {

/// An accessor for one model-specific register on one logical CPU. It owns
/// the open device handle and an 8-byte staging buffer; the register
/// address is fixed at construction.
pub struct Msr<D: Device> {
    /// The model-specific register address to read and write. The device's
    /// offset space equals the register address space, so this is also the
    /// file offset of every operation.
    pub reg: u32,
    fh: D,
    buffer: [u8; 8],
}

impl<D: Device> Msr<D> {
    /// The register address the accessor is bound to.
    pub closed spec fn register(&self) -> u32 {
        self.reg
    }

    /// The 8-byte staging buffer, as a byte sequence.
    pub closed spec fn staged(&self) -> Seq<u8> {
        self.buffer@
    }

    /// The bytes the owned device serves.
    pub closed spec fn dev_bytes(&self) -> Seq<u8> {
        self.fh.bytes()
    }

    /// The owned device's cursor.
    pub closed spec fn dev_pos(&self) -> int {
        self.fh.pos()
    }

    /// Construct an accessor for the given register and CPU: derive the
    /// canonical device path, report the missing kernel module if the node
    /// is absent (without attempting an open), otherwise open the node for
    /// reading and writing. A fresh accessor has a zeroed buffer.
    pub fn new(reg: u32, cpu: u16) -> (r: Result<Self, MsrError>)
        ensures
            !D::present(msr_node_path(cpu as nat)) ==> r == Err::<Self, MsrError>(
                MsrError::MissingKernelModule,
            ),
            r matches Ok(m) ==> D::present(msr_node_path(cpu as nat)) && m.register() == reg && m.staged()
                == bytes_of(0) && m.dev_pos() == 0,
            r matches Err(e) ==> (e == MsrError::MissingKernelModule <==> !D::present(
                msr_node_path(cpu as nat),
            )),
            r matches Err(e) ==> (e matches MsrError::IoError(_) <==> D::present(
                msr_node_path(cpu as nat),
            )),
            D::reliable() && D::present(msr_node_path(cpu as nat)) ==> r is Ok,
    {
        let cpu_msr_path = device_path(cpu);
        if !D::probe(cpu_msr_path.as_str()) {
            return Err(MsrError::MissingKernelModule);
        }
        match D::open(cpu_msr_path.as_str()) {
            Ok(fh) => {
                let m = Msr { reg, fh, buffer: [0u8; 8] };
                proof {
                    assert(0u64 & 0xff == 0 && (0u64 >> 8) & 0xff == 0 && (0u64 >> 16) & 0xff == 0
                        && (0u64 >> 24) & 0xff == 0 && (0u64 >> 32) & 0xff == 0 && (0u64 >> 40)
                        & 0xff == 0 && (0u64 >> 48) & 0xff == 0 && (0u64 >> 56) & 0xff == 0)
                        by (bit_vector);
                    assert(m.staged() =~= bytes_of(0));
                }
                Ok(m)
            },
            Err(e) => Err(MsrError::from(e)),
        }
    }

    /// Returns the 64-bit value the bytes buffer holds. Pure: nothing is
    /// read from the device and nothing changes.
    pub fn read_value(&mut self) -> (r: u64)
        ensures
            *final(self) == *old(self),
            r == word_of(old(self).staged()),
    {
        (self.buffer[0] as u64) | ((self.buffer[1] as u64) << 8) | ((self.buffer[2] as u64) << 16)
            | ((self.buffer[3] as u64) << 24) | ((self.buffer[4] as u64) << 32) | ((
        self.buffer[5] as u64) << 40) | ((self.buffer[6] as u64) << 48) | ((self.buffer[7] as u64)
            << 56)
    }

    /// Overwrites the bytes buffer with the given value, staging it for a
    /// later `write`. Pure on the device: nothing is communicated to it.
    pub fn set_value(&mut self, value: u64)
        ensures
            final(self).register() == old(self).register(),
            final(self).dev_bytes() == old(self).dev_bytes(),
            final(self).dev_pos() == old(self).dev_pos(),
            final(self).staged() == bytes_of(value),
            word_of(final(self).staged()) == value,
    {
        self.buffer = [
            (value & 0xff) as u8,
            ((value >> 8) & 0xff) as u8,
            ((value >> 16) & 0xff) as u8,
            ((value >> 24) & 0xff) as u8,
            ((value >> 32) & 0xff) as u8,
            ((value >> 40) & 0xff) as u8,
            ((value >> 48) & 0xff) as u8,
            ((value >> 56) & 0xff) as u8,
        ];
        proof {
            assert(self.staged() =~= bytes_of(value));
            lemma_word_of_bytes_of(value);
        }
    }
}

/// The accessor's two device operations.
pub trait Accessor {
    /// Fetch the target register's current value.
    fn read(&mut self) -> Result<u64, MsrError>;

    /// Push the staged buffer to the target register.
    fn write(&mut self) -> Result<(), MsrError>;
}

impl<D: Device> Accessor for Msr<D> {
    /// Read the register: seek the cursor to the register offset, read
    /// exactly eight bytes into the buffer, and decode them. Requires no
    /// prior staging, and fully overwrites the buffer on success. Fewer
    /// than eight bytes before end-of-stream is a failure, not a short
    /// read; on failure the buffer is unspecified and no value is
    /// returned.
    fn read(&mut self) -> (r: Result<u64, MsrError>)
        ensures
            final(self).register() == old(self).register(),
            final(self).dev_bytes() == old(self).dev_bytes(),
            r matches Ok(v) ==> old(self).register() + 8 <= old(self).dev_bytes().len()
                && final(self).staged() == old(self).dev_bytes().subrange(
                old(self).register() as int,
                old(self).register() as int + 8,
            ) && v == word_of(final(self).staged())
                && final(self).dev_pos() == old(self).register() as int + 8,
            old(self).register() + 8 > old(self).dev_bytes().len() ==> r is Err,
            r matches Err(e) ==> e matches MsrError::IoError(_),
            D::reliable() && old(self).register() + 8 <= old(self).dev_bytes().len() ==> r is Ok,
    {
        let reg = self.reg;
        if let Err(e) = self.fh.seek_start(reg as u64) {
            return Err(MsrError::from(e));
        }
        let mut word: [u8; 8] = [0u8; 8];
        if let Err(e) = self.fh.read_exact8(&mut word) {
            return Err(MsrError::from(e));
        }
        self.buffer = word;
        Ok(self.read_value())
    }

    /// Write the staged buffer to the register with one positioned write
    /// at the register offset: the cursor is neither read nor moved, and
    /// the buffer is not consumed.
    fn write(&mut self) -> (r: Result<(), MsrError>)
        ensures
            final(self).register() == old(self).register(),
            final(self).staged() == old(self).staged(),
            final(self).dev_pos() == old(self).dev_pos(),
            r is Ok ==> old(self).register() + 8 <= old(self).dev_bytes().len() && final(self).dev_bytes()
                == store_word(
                old(self).dev_bytes(),
                old(self).register() as int,
                old(self).staged(),
            ),
            r is Err ==> final(self).dev_bytes() == old(self).dev_bytes(),
            r matches Err(e) ==> e matches MsrError::IoError(_),
            D::reliable() && old(self).register() + 8 <= old(self).dev_bytes().len() ==> r is Ok,
    {
        let reg = self.reg;
        let staged = self.buffer;
        match self.fh.write_at8(&staged, reg as u64) {
            Ok(()) => Ok(()),
            Err(e) => Err(MsrError::from(e)),
        }
    }
}

/// A positioned write's outcome ignores the cursor: two accessors that
/// agree on device contents, staged buffer, and register — their cursors
/// may differ arbitrarily, say because one of them has read in between —
/// agree on whether an in-range write is possible and on the contents it
/// leaves, as given by `write`'s contract.
pub proof fn lemma_write_ignores_position<D: Device>(a: Msr<D>, b: Msr<D>)
    requires
        a.dev_bytes() == b.dev_bytes(),
        a.staged() == b.staged(),
        a.register() == b.register(),
    ensures
        (a.register() + 8 <= a.dev_bytes().len()) == (b.register() + 8 <= b.dev_bytes().len()),
        store_word(a.dev_bytes(), a.register() as int, a.staged()) == store_word(
            b.dev_bytes(),
            b.register() as int,
            b.staged(),
        ),
{
}

} // verus!
