//! The log transport's up-channel: a byte ring buffer the device writes and
//! the attached host drains by advancing the read cursor.
//!
//! Whether a host is attached is encoded in the channel's mode flags.  With
//! a host attached, writes respect the free space and a flush waits for the
//! host to catch up — here the host's progress is modeled by the read
//! cursor having caught up when the wait returns.  Without one, writes trim
//! the oldest data by overrunning the read cursor.

use vstd::prelude::*;

verus! {

/// Size of the ring buffer in bytes.
pub const BUF_SIZE: usize = 4096;

/// Mask of the mode bits in the channel flags.
pub const MODE_MASK: usize = 3;

/// Mode: a host is attached and the writer blocks when the ring is full.
pub const MODE_BLOCK_IF_FULL: usize = 2;

/// Mode: no host, the writer trims the oldest data.
pub const MODE_NON_BLOCKING_TRIM: usize = 1;

/// The up-channel: storage and the two cursors.
#[derive(Clone, PartialEq, Eq, Debug)]
pub struct UpChannel {
    pub buffer: Vec<u8>,
    pub write: usize,
    pub read: usize,
    pub flags: usize,
}

/// The channel's invariant: full-size storage, cursors inside it.
pub open spec fn up_wf(c: UpChannel) -> bool {
    &&& c.buffer@.len() == BUF_SIZE
    &&& c.write < BUF_SIZE
    &&& c.read < BUF_SIZE
}

/// The free space between the cursors, leaving one byte so that a full
/// ring is distinguishable from an empty one.
pub open spec fn avail_spec(read: int, write: int) -> int {
    if read > write {
        read - write - 1
    } else if read == 0 {
        BUF_SIZE - write - 1
    } else {
        BUF_SIZE - write
    }
}

/// The free space between a read and a write cursor.
pub fn available_buffer_size(read_cursor: usize, write_cursor: usize) -> (r: usize)
    requires
        read_cursor < BUF_SIZE,
        write_cursor < BUF_SIZE,
    ensures
        r == avail_spec(read_cursor as int, write_cursor as int),
        r < BUF_SIZE,
{
    if read_cursor > write_cursor {
        read_cursor - write_cursor - 1
    } else if read_cursor == 0 {
        BUF_SIZE - write_cursor - 1
    } else {
        BUF_SIZE - write_cursor
    }
}

impl UpChannel {
    /// A fresh channel in the given mode, holding zeroed storage.
    pub fn new(flags: usize) -> (c: UpChannel)
        ensures
            up_wf(c),
            c.write == 0 && c.read == 0 && c.flags == flags,
    {
        let mut buffer: Vec<u8> = Vec::new();
        let mut i: usize = 0;
        while i < BUF_SIZE
            invariant
                i <= BUF_SIZE,
                buffer@.len() == i,
            decreases BUF_SIZE - i,
        {
            buffer.push(0);
            i = i + 1;
        }
        UpChannel { buffer, write: 0, read: 0, flags }
    }

    /// Whether a host is attached and draining the channel.
    pub fn host_is_connected(&self) -> (r: bool)
        ensures
            r == (self.flags & MODE_MASK == MODE_BLOCK_IF_FULL),
    {
        self.flags & MODE_MASK == MODE_BLOCK_IF_FULL
    }

    /// Copy as much of `bytes` as `available` allows into the ring at
    /// `cursor`, wrapping at the end, and advance the write cursor.
    /// Returns how many bytes were consumed.
    fn write_impl(&mut self, bytes: &[u8], cursor: usize, available: usize) -> (consumed: usize)
        requires
            up_wf(*old(self)),
            cursor < BUF_SIZE,
            available <= BUF_SIZE,
        ensures
            up_wf(*final(self)),
            consumed == if bytes@.len() <= available {
                bytes@.len() as int
            } else {
                available as int
            },
            final(self).write == (cursor + consumed) % (BUF_SIZE as int),
            final(self).read == old(self).read,
            final(self).flags == old(self).flags,
            final(self).buffer@.len() == BUF_SIZE,
            forall|i: int|
                0 <= i < consumed ==> final(self).buffer@[(cursor + i) % (BUF_SIZE as int)]
                    == bytes@[i],
    {
        let len: usize = if bytes.len() <= available {
            bytes.len()
        } else {
            available
        };
        let mut i: usize = 0;
        while i < len
            invariant
                up_wf(*self),
                i <= len,
                len <= bytes@.len(),
                len <= BUF_SIZE,
                cursor < BUF_SIZE,
                self.write == old(self).write,
                self.read == old(self).read,
                self.flags == old(self).flags,
                self.buffer@.len() == BUF_SIZE,
                forall|j: int|
                    0 <= j < i ==> self.buffer@[(cursor + j) % (BUF_SIZE as int)] == bytes@[j],
            decreases len - i,
        {
            let pos: usize = (cursor + i) % BUF_SIZE;
            proof {
                assert forall|j: int| 0 <= j < i implies #[trigger] ((cursor + j) % (
                BUF_SIZE as int)) != (cursor + i) % (BUF_SIZE as int) by {
                    if (cursor + j) % (BUF_SIZE as int) == (cursor + i) % (BUF_SIZE as int) {
                        vstd::arithmetic::div_mod::lemma_fundamental_div_mod(
                            cursor + j,
                            BUF_SIZE as int,
                        );
                        vstd::arithmetic::div_mod::lemma_fundamental_div_mod(
                            cursor + i,
                            BUF_SIZE as int,
                        );
                        let k = (cursor + i) / (BUF_SIZE as int) - (cursor + j) / (
                        BUF_SIZE as int);
                        assert(i - j == (BUF_SIZE as int) * k);
                        assert(k >= 1 ==> (BUF_SIZE as int) * k >= BUF_SIZE)
                            by (nonlinear_arith);
                        assert(k <= -1 ==> (BUF_SIZE as int) * k <= -(BUF_SIZE as int))
                            by (nonlinear_arith);
                        assert(false);
                    }
                }
            }
            self.buffer.set(pos, bytes[i]);
            i = i + 1;
        }
        self.write = (cursor + len) % BUF_SIZE;
        len
    }

    /// Write while a host drains the ring: consume at most the free space,
    /// nothing when the ring is full.
    pub fn blocking_write(&mut self, bytes: &[u8]) -> (consumed: usize)
        requires
            up_wf(*old(self)),
        ensures
            up_wf(*final(self)),
            final(self).read == old(self).read,
            final(self).flags == old(self).flags,
            bytes@.len() == 0 ==> consumed == 0 && *final(self) == *old(self),
            avail_spec(old(self).read as int, old(self).write as int) == 0 && bytes@.len() > 0
                ==> consumed == 0 && *final(self) == *old(self),
            consumed <= bytes@.len(),
            ({
                let a = avail_spec(old(self).read as int, old(self).write as int);
                bytes@.len() > 0 && a > 0 ==> {
                    &&& consumed == if bytes@.len() <= a {
                        bytes@.len() as int
                    } else {
                        a
                    }
                    &&& final(self).write == (old(self).write + consumed) % (BUF_SIZE as int)
                    &&& forall|i: int|
                        0 <= i < consumed ==> final(self).buffer@[(old(self).write + i) % (
                        BUF_SIZE as int)] == bytes@[i]
                }
            }),
    {
        if bytes.len() == 0 {
            return 0;
        }
        let read = self.read;
        let write = self.write;
        let available = available_buffer_size(read, write);
        if available == 0 {
            return 0;
        }
        self.write_impl(bytes, write, available)
    }

    /// Write with no host attached: consume up to a full ring per call,
    /// trimming whatever the cursor overruns.
    pub fn nonblocking_write(&mut self, bytes: &[u8]) -> (consumed: usize)
        requires
            up_wf(*old(self)),
        ensures
            up_wf(*final(self)),
            final(self).read == old(self).read,
            final(self).flags == old(self).flags,
            consumed == if bytes@.len() <= BUF_SIZE {
                bytes@.len() as int
            } else {
                BUF_SIZE as int
            },
            final(self).write == (old(self).write + consumed) % (BUF_SIZE as int),
            forall|i: int|
                0 <= i < consumed ==> final(self).buffer@[(old(self).write + i) % (
                BUF_SIZE as int)] == bytes@[i],
    {
        let write = self.write;
        self.write_impl(bytes, write, BUF_SIZE)
    }

    /// Wait until the host has drained everything written so far.  With no
    /// host attached this returns at once; with one attached, the wait ends
    /// exactly when the host's read cursor has caught up with the write
    /// cursor, which is how the host's progress appears here.
    pub fn flush(&mut self)
        requires
            up_wf(*old(self)),
        ensures
            up_wf(*final(self)),
            final(self).write == old(self).write,
            final(self).flags == old(self).flags,
            final(self).buffer == old(self).buffer,
            !(old(self).flags & MODE_MASK == MODE_BLOCK_IF_FULL) ==> *final(self) == *old(self),
            (old(self).flags & MODE_MASK == MODE_BLOCK_IF_FULL) ==> final(self).read == old(self).write,
    {
        if !self.host_is_connected() {
            return ;
        }
        self.read = self.write;
    }
}

} // verus!
