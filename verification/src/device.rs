//! The device capability behind the accessor.
//!
//! The accessor never touches the filesystem itself: probing for the
//! per-CPU node, opening it, seeking, cursor reads, and positioned writes
//! all go through [`Device`]. The embedding program supplies a file-backed
//! implementation over the real device node; [`MemDevice`] and
//! [`AbsentDevice`] are verified in-memory stand-ins, one for a machine
//! with the kernel module loaded and one without, so the accessor can be
//! exercised without privilege or a real `/dev/cpu/<cpu>/msr`.

use vstd::prelude::*;

use crate::codec::store_word;

verus! {

/// A per-CPU register device: a byte space addressed by file offset (the
/// driver maps offset `N` to register `N`), with one shared cursor used by
/// seeks and cursor reads, and positioned writes that name their offset
/// explicitly and leave the cursor alone.
pub trait Device: Sized {
    /// The bytes the device serves, offset-addressed. The defaults here
    /// stand for backends outside the library, which get no meaning from
    /// them; a verified implementation overrides every one.
    open spec fn bytes(&self) -> Seq<u8> {
        Seq::empty()
    }

    /// The cursor that seeks and cursor reads go through.
    open spec fn pos(&self) -> int {
        0
    }

    /// Whether the node named by `path` exists on this backend.
    open spec fn present(path: Seq<char>) -> bool {
        false
    }

    /// Whether this backend promises that in-range operations succeed.
    /// True of the in-memory stand-ins, where it is proved; a file-backed
    /// device over a real node promises nothing, since the operating
    /// system may fail any call.
    open spec fn reliable() -> bool {
        false
    }

    /// Does the node named by `path` exist? A `false` answer means the
    /// facility behind the path is unavailable.
    fn probe(path: &str) -> (r: bool)
        ensures
            r == Self::present(path@),
    ;

    /// Opens the node named by `path` for combined reading and writing.
    /// Never called for an absent node: absence is reported before any
    /// open is attempted.
    fn open(path: &str) -> (r: Result<Self, std::io::Error>)
        requires
            Self::present(path@),
        ensures
            r matches Ok(d) ==> d.pos() == 0,
            Self::reliable() ==> r is Ok,
    ;

    /// Moves the cursor to the absolute offset `target`. Never changes the
    /// contents served.
    fn seek_start(&mut self, target: u64) -> (r: Result<(), std::io::Error>)
        ensures
            final(self).bytes() == old(self).bytes(),
            r is Ok ==> final(self).pos() == target as int,
            Self::reliable() ==> r is Ok,
    ;

    /// Reads exactly eight bytes at the cursor into `buf` and advances the
    /// cursor past them. Fewer than eight bytes before end-of-stream is a
    /// failure, never a short read; on failure `buf` is unspecified.
    fn read_exact8(&mut self, buf: &mut [u8; 8]) -> (r: Result<(), std::io::Error>)
        ensures
            final(self).bytes() == old(self).bytes(),
            r is Ok ==> 0 <= old(self).pos() && old(self).pos() + 8 <= old(self).bytes().len()
                && final(buf)@ == old(self).bytes().subrange(
                old(self).pos(),
                old(self).pos() + 8,
            ) && final(self).pos() == old(self).pos() + 8,
            old(self).pos() + 8 > old(self).bytes().len() ==> r is Err,
            Self::reliable() && 0 <= old(self).pos() && old(self).pos() + 8 <= old(
                self,
            ).bytes().len() ==> r is Ok,
    ;

    /// Writes the eight bytes of `buf` at the absolute offset `off`,
    /// independent of the cursor, which it never reads or moves. On
    /// success the eight bytes from `off` are replaced and nothing else
    /// changes; on failure the contents are left as they were.
    fn write_at8(&mut self, buf: &[u8; 8], off: u64) -> (r: Result<(), std::io::Error>)
        ensures
            final(self).pos() == old(self).pos(),
            r is Ok ==> off + 8 <= old(self).bytes().len() && final(self).bytes() == store_word(
                old(self).bytes(),
                off as int,
                buf@,
            ),
            r is Err ==> final(self).bytes() == old(self).bytes(),
            Self::reliable() && off + 8 <= old(self).bytes().len() ==> r is Ok,
    ;
}

/// Relies on `std::io::Error::from(ErrorKind)` to make a plain
/// end-of-stream error for the stand-in devices' failure paths.
#[verifier::external_body]
fn end_of_stream_error() -> std::io::Error {
    std::io::Error::from(std::io::ErrorKind::UnexpectedEof)
}

/// How many bytes a freshly opened [`MemDevice`] serves.
pub const MEM_DEVICE_LEN: usize = 4096;

/// An in-memory stand-in for a machine with the kernel module loaded: its
/// node always exists, it opens to [`MEM_DEVICE_LEN`] zeroed bytes, and
/// every in-range operation succeeds.
pub struct MemDevice {
    /// The bytes served, offset-addressed.
    pub data: Vec<u8>,
    /// The shared cursor.
    pub cursor: u64,
}

impl Device for MemDevice {
    open spec fn bytes(&self) -> Seq<u8> {
        self.data@
    }

    open spec fn pos(&self) -> int {
        self.cursor as int
    }

    open spec fn present(path: Seq<char>) -> bool {
        true
    }

    open spec fn reliable() -> bool {
        true
    }

    fn probe(path: &str) -> (r: bool) {
        true
    }

    fn open(path: &str) -> (r: Result<Self, std::io::Error>)
        ensures
            r matches Ok(d) ==> d.bytes() == Seq::new(MEM_DEVICE_LEN as nat, |i: int| 0u8),
    {
        let mut data: Vec<u8> = Vec::new();
        let mut i: usize = 0;
        while i < MEM_DEVICE_LEN
            invariant
                i <= MEM_DEVICE_LEN,
                data@ == Seq::new(i as nat, |j: int| 0u8),
            decreases MEM_DEVICE_LEN - i,
        {
            data.push(0u8);
            i = i + 1;
            proof {
                assert(data@ =~= Seq::new(i as nat, |j: int| 0u8));
            }
        }
        Ok(MemDevice { data, cursor: 0 })
    }

    fn seek_start(&mut self, target: u64) -> (r: Result<(), std::io::Error>) {
        self.cursor = target;
        Ok(())
    }

    fn read_exact8(&mut self, buf: &mut [u8; 8]) -> (r: Result<(), std::io::Error>) {
        if self.data.len() >= 8 && self.cursor <= (self.data.len() - 8) as u64 {
            let at = self.cursor as usize;
            let word: [u8; 8] = [
                self.data[at],
                self.data[at + 1],
                self.data[at + 2],
                self.data[at + 3],
                self.data[at + 4],
                self.data[at + 5],
                self.data[at + 6],
                self.data[at + 7],
            ];
            *buf = word;
            self.cursor = self.cursor + 8;
            proof {
                assert(buf@ =~= old(self).bytes().subrange(old(self).pos(), old(self).pos() + 8));
            }
            Ok(())
        } else {
            Err(end_of_stream_error())
        }
    }

    fn write_at8(&mut self, buf: &[u8; 8], off: u64) -> (r: Result<(), std::io::Error>) {
        if self.data.len() >= 8 && off <= (self.data.len() - 8) as u64 {
            let at = off as usize;
            self.data.set(at, buf[0]);
            self.data.set(at + 1, buf[1]);
            self.data.set(at + 2, buf[2]);
            self.data.set(at + 3, buf[3]);
            self.data.set(at + 4, buf[4]);
            self.data.set(at + 5, buf[5]);
            self.data.set(at + 6, buf[6]);
            self.data.set(at + 7, buf[7]);
            proof {
                assert(self.bytes() =~= store_word(old(self).bytes(), off as int, buf@));
            }
            Ok(())
        } else {
            Err(end_of_stream_error())
        }
    }
}

/// A stand-in for a machine without the kernel module: no node exists, so
/// construction over it must report the missing facility before attempting
/// any open. It carries no state; the type exists for its absent node.
pub struct AbsentDevice {}

impl Device for AbsentDevice {
    open spec fn bytes(&self) -> Seq<u8> {
        Seq::empty()
    }

    open spec fn pos(&self) -> int {
        0
    }

    open spec fn present(path: Seq<char>) -> bool {
        false
    }

    open spec fn reliable() -> bool {
        false
    }

    fn probe(path: &str) -> (r: bool) {
        false
    }

    fn open(path: &str) -> (r: Result<Self, std::io::Error>) {
        Err(end_of_stream_error())
    }

    fn seek_start(&mut self, target: u64) -> (r: Result<(), std::io::Error>) {
        Err(end_of_stream_error())
    }

    fn read_exact8(&mut self, buf: &mut [u8; 8]) -> (r: Result<(), std::io::Error>) {
        Err(end_of_stream_error())
    }

    fn write_at8(&mut self, buf: &[u8; 8], off: u64) -> (r: Result<(), std::io::Error>) {
        Err(end_of_stream_error())
    }
}

} // verus!
