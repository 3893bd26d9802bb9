//! One I2C transaction segment and the cursors by which an adapter walks its
//! buffer, one byte per bus cycle.

use vstd::prelude::*;
pub use crate::flags::I2cMsgFlags;
use crate::state::MsgState;

verus! {

/// An I2C transaction segment beginning with START.
///
/// The buffer belongs to the caller and is borrowed for as long as the
/// message lives; the message never allocates or copies it. What the contracts
/// say of a message they say of its view, a [`MsgState`].
#[derive(Debug)]
pub struct I2cMsg<'a> {
    /// Slave address, of seven or ten bits. A ten-bit address goes with
    /// `addr_ten` in the flags.
    pub addr: u16,
    /// The flags of the message.
    pub flags: I2cMsgFlags,
    /// The buffer into which data is read, or from which it is written.
    pub buf: &'a mut [u8],
    /// The logical length of the message, at most the length of `buf`.
    pub buf_len: usize,
    /// Where the next byte received is stored.
    pub write_idx: usize,
    /// From where the next byte to send is taken.
    pub read_idx: usize,
    /// How many read cycles were issued, counted for a read message.
    pub read_cmd_cnt: isize,
}

impl<'a> View for I2cMsg<'a> {
    type V = MsgState;

    open spec fn view(&self) -> MsgState {
        MsgState {
            addr: self.addr,
            flags: self.flags,
            buf: self.buf@,
            buf_len: self.buf_len as nat,
            write_idx: self.write_idx as nat,
            read_idx: self.read_idx as nat,
            read_cmd_cnt: self.read_cmd_cnt as int,
        }
    }
}

impl<'a> Default for I2cMsg<'a> {
    /// The message with address 0, no flag and an empty buffer.
    fn default() -> (m: Self)
        ensures
            m@ == MsgState::fresh(0, I2cMsgFlags::empty(), Seq::<u8>::empty(), 0),
    {
        let m = I2cMsg {
            addr: 0,
            flags: I2cMsgFlags::empty(),
            buf: &mut [],
            buf_len: 0,
            write_idx: 0,
            read_idx: 0,
            read_cmd_cnt: 0,
        };
        assert(m.buf@ =~= Seq::<u8>::empty());
        m
    }
}

impl<'a> I2cMsg<'a> {
    /// Makes a message over the first `buf_len` bytes of `buf`, with both
    /// cursors and the count of read cycles at 0. What the message stores in
    /// the buffer is what the caller finds in it afterwards.
    pub fn new(addr: u16, flags: I2cMsgFlags, buf: &'a mut [u8], buf_len: usize) -> (m: Self)
        requires
            buf_len <= old(buf)@.len(),
        ensures
            m@ == MsgState::fresh(addr, flags, old(buf)@, buf_len as nat),
            m@.wf(),
            final(m.buf)@ == final(buf)@,
    {
        I2cMsg { addr, flags, buf, buf_len, write_idx: 0, read_idx: 0, read_cmd_cnt: 0 }
    }

    /// A copy of the flags.
    pub fn flags(&self) -> (r: I2cMsgFlags)
        ensures
            r == self@.flags,
    {
        self.flags
    }

    /// Takes the flags of `flag` out of the message's flags. Nothing else
    /// changes.
    pub fn remove_flag(&mut self, flag: I2cMsgFlags)
        ensures
            final(self)@ == old(self)@.remove_flag(flag),
            final(self)@.flags@ == old(self)@.flags@.difference(flag@),
            final(final(self).buf)@ == final(old(self).buf)@,
    {
        self.flags.remove(flag);
    }

    /// The device address.
    pub fn addr(&self) -> (r: u16)
        ensures
            r == self@.addr,
    {
        self.addr
    }

    /// Sets the count of read cycles, once the device has reported how many
    /// bytes follow.
    pub fn modify_read_cmd_cnt(&mut self, read_cmd_cnt: isize)
        requires
            old(self)@.is_recv_len(),
            old(self)@.is_read(),
        ensures
            final(self)@ == old(self)@.modify_read_cmd_cnt(read_cmd_cnt as int),
            final(final(self).buf)@ == final(old(self).buf)@,
    {
        self.read_cmd_cnt = read_cmd_cnt;
    }

    /// Counts one more read cycle.
    pub fn inc_read_cmd_cnt(&mut self)
        requires
            old(self)@.is_read(),
            old(self)@.read_cmd_cnt < isize::MAX,
        ensures
            final(self)@ == old(self)@.inc_read_cmd_cnt(),
            final(final(self).buf)@ == final(old(self).buf)@,
    {
        self.read_cmd_cnt = self.read_cmd_cnt + 1;
    }

    /// Whether the active cursor stands on the last byte of the message.
    pub fn left_last(&self) -> (r: bool)
        ensures
            r == self@.left_last(),
    {
        let idx: usize = if self.flags.contains(I2cMsgFlags::master_read()) {
            self.write_idx
        } else {
            self.read_idx
        };
        idx < self.buf_len && self.buf_len - idx == 1
    }

    /// Whether all there is to read has been read: of a read message, whether
    /// as many read cycles were issued as the message has bytes; of a write
    /// message, whether the read cursor stands at the end.
    pub fn read_end(&self) -> (r: bool)
        ensures
            r == self@.read_end(),
    {
        if self.flags.contains(I2cMsgFlags::master_read()) {
            self.read_cmd_cnt >= 0 && self.read_cmd_cnt as usize == self.buf_len
        } else {
            self.read_idx == self.buf_len
        }
    }

    /// Whether the write cursor of a read message stands at the end.
    pub fn write_end(&self) -> (r: bool)
        requires
            self@.is_read(),
        ensures
            r == self@.write_end(),
    {
        self.write_idx == self.buf_len
    }

    /// Stores `byte` at the write cursor of a read message and moves the
    /// cursor on by one.
    pub fn write_byte(&mut self, byte: u8)
        requires
            old(self)@.wf(),
            old(self)@.is_read(),
            !old(self)@.write_end(),
        ensures
            final(self)@ == old(self)@.write_byte(byte),
            final(self)@.wf(),
            final(final(self).buf)@ == final(old(self).buf)@,
    {
        self.buf[self.write_idx] = byte;
        self.write_idx = self.write_idx + 1;
    }

    /// Hands out the byte under the read cursor of a write message and moves
    /// the cursor on by one.
    pub fn read_byte(&mut self) -> (byte: u8)
        requires
            old(self)@.wf(),
            !old(self)@.is_read(),
            !old(self)@.read_end(),
        ensures
            byte == old(self)@.next_byte(),
            final(self)@ == old(self)@.read_byte(),
            final(self)@.wf(),
            final(final(self).buf)@ == final(old(self).buf)@,
    {
        let byte = self.buf[self.read_idx];
        self.read_idx = self.read_idx + 1;
        byte
    }

    /// Sets the logical length, once the first byte received has told it.
    pub fn modify_buf_len(&mut self, buf_len: usize)
        requires
            old(self)@.is_recv_len(),
            old(self)@.write_idx <= buf_len,
            old(self)@.read_idx <= buf_len,
            buf_len <= old(self)@.buf.len(),
        ensures
            final(self)@ == old(self)@.modify_buf_len(buf_len as nat),
            final(self)@.wf(),
            final(final(self).buf)@ == final(old(self).buf)@,
    {
        self.buf_len = buf_len;
    }
}

} // verus!
