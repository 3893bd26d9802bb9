//! The state of a message as a mathematical value, and the steps that the
//! operations of a message take on it.

use vstd::prelude::*;
use crate::flags::I2cMsgFlags;

verus! {

/// What a message holds at one moment.
pub struct MsgState {
    /// The device address.
    pub addr: u16,
    /// The flags of the message.
    pub flags: I2cMsgFlags,
    /// The bytes of the whole buffer, those past `buf_len` included.
    pub buf: Seq<u8>,
    /// The logical length of the message.
    pub buf_len: nat,
    /// The position at which the next byte received is stored.
    pub write_idx: nat,
    /// The position from which the next byte to send is taken.
    pub read_idx: nat,
    /// The number of read cycles issued on the bus.
    pub read_cmd_cnt: int,
}

impl MsgState {
    /// The state of a message that has just been made.
    pub open spec fn fresh(addr: u16, flags: I2cMsgFlags, buf: Seq<u8>, buf_len: nat) -> MsgState {
        MsgState { addr, flags, buf, buf_len, write_idx: 0, read_idx: 0, read_cmd_cnt: 0 }
    }

    /// Both cursors lie within the logical length, and the logical length
    /// within the buffer.
    pub open spec fn wf(self) -> bool {
        &&& self.write_idx <= self.buf_len
        &&& self.read_idx <= self.buf_len
        &&& self.buf_len <= self.buf.len()
    }

    /// The master reads from the device: the adapter fills the buffer, and
    /// the write cursor is the active one.
    pub open spec fn is_read(self) -> bool {
        self.flags.contains(I2cMsgFlags::master_read())
    }

    /// The first byte received gives the length of the message.
    pub open spec fn is_recv_len(self) -> bool {
        self.flags.contains(I2cMsgFlags::master_recv_len())
    }

    /// The cursor in use: the write cursor of a read message, the read
    /// cursor of a write message.
    pub open spec fn cursor(self) -> nat {
        if self.is_read() {
            self.write_idx
        } else {
            self.read_idx
        }
    }

    /// The bytes of the message: the buffer up to the logical length.
    pub open spec fn data(self) -> Seq<u8> {
        self.buf.subrange(0, self.buf_len as int)
    }

    /// The active cursor stands on the last byte of the message.
    pub open spec fn left_last(self) -> bool {
        self.cursor() == self.buf_len - 1
    }

    /// Of a read message: as many read cycles were issued as the message has
    /// bytes. Of a write message: the read cursor stands at the end.
    pub open spec fn read_end(self) -> bool {
        if self.is_read() {
            self.read_cmd_cnt == self.buf_len
        } else {
            self.read_idx == self.buf_len
        }
    }

    /// The write cursor stands at the end.
    pub open spec fn write_end(self) -> bool {
        self.write_idx == self.buf_len
    }

    /// The state with the flags of `flag` taken out.
    pub open spec fn remove_flag(self, flag: I2cMsgFlags) -> MsgState {
        MsgState { flags: self.flags.difference(flag), ..self }
    }

    /// The state with the count of read cycles set to `n`.
    pub open spec fn modify_read_cmd_cnt(self, n: int) -> MsgState {
        MsgState { read_cmd_cnt: n, ..self }
    }

    /// The state with one more read cycle counted.
    pub open spec fn inc_read_cmd_cnt(self) -> MsgState {
        MsgState { read_cmd_cnt: self.read_cmd_cnt + 1, ..self }
    }

    /// The state with the logical length set to `n`.
    pub open spec fn modify_buf_len(self, n: nat) -> MsgState {
        MsgState { buf_len: n, ..self }
    }

    /// The state after `byte` was stored at the write cursor.
    pub open spec fn write_byte(self, byte: u8) -> MsgState {
        MsgState {
            buf: self.buf.update(self.write_idx as int, byte),
            write_idx: self.write_idx + 1,
            ..self
        }
    }

    /// The byte under the read cursor.
    pub open spec fn next_byte(self) -> u8 {
        self.buf[self.read_idx as int]
    }

    /// The state after the byte under the read cursor was taken.
    pub open spec fn read_byte(self) -> MsgState {
        MsgState { read_idx: self.read_idx + 1, ..self }
    }

    /// The state after the bytes of `bytes` were stored one after the other.
    pub open spec fn write_bytes(self, bytes: Seq<u8>) -> MsgState
        decreases bytes.len(),
    {
        if bytes.len() == 0 {
            self
        } else {
            self.write_bytes(bytes.drop_last()).write_byte(bytes.last())
        }
    }

    /// The state after `n` bytes were taken one after the other.
    pub open spec fn read_bytes(self, n: nat) -> MsgState
        decreases n,
    {
        if n == 0 {
            self
        } else {
            self.read_bytes((n - 1) as nat).read_byte()
        }
    }

    /// The bytes that `n` reads in a row hand out, in the order of the reads.
    pub open spec fn bytes_read(self, n: nat) -> Seq<u8> {
        Seq::new(n, |i: int| self.read_bytes(i as nat).next_byte())
    }

    /// Every step keeps a well-formed state well formed: the steps that leave
    /// cursors and length alone always, a byte written or read as long as its
    /// cursor is not at the end, and a new length that is not before a cursor
    /// nor past the buffer. No step moves a cursor back.
    pub proof fn lemma_steps_keep_wf(self, flag: I2cMsgFlags, n: int, len: nat, byte: u8)
        requires
            self.wf(),
        ensures
            self.remove_flag(flag).wf(),
            self.modify_read_cmd_cnt(n).wf(),
            self.inc_read_cmd_cnt().wf(),
            !self.write_end() ==> self.write_byte(byte).wf(),
            self.read_idx != self.buf_len ==> self.read_byte().wf(),
            self.write_idx <= len && self.read_idx <= len && len <= self.buf.len()
                ==> self.modify_buf_len(len).wf(),
            self.write_byte(byte).write_idx > self.write_idx,
            self.write_byte(byte).read_idx == self.read_idx,
            self.read_byte().read_idx > self.read_idx,
            self.read_byte().write_idx == self.write_idx,
    {
    }

    /// Draining a write message: as long as `n` more bytes lie before the
    /// end, `n` reads in a row are each allowed, hand out the bytes from the
    /// read cursor on in their order, and move nothing but the read cursor,
    /// by `n`. The message is at its end after them exactly when the `n` bytes
    /// were all that was left, so that no further read is allowed then.
    pub proof fn lemma_read_bytes(self, n: nat)
        requires
            self.wf(),
            !self.is_read(),
            self.read_idx + n <= self.buf_len,
        ensures
            self.read_bytes(n) == (MsgState { read_idx: self.read_idx + n, ..self }),
            self.read_bytes(n).wf(),
            forall|k: nat| k < n ==> !(#[trigger] self.read_bytes(k)).read_end(),
            self.bytes_read(n) == self.buf.subrange(
                self.read_idx as int,
                (self.read_idx + n) as int,
            ),
            self.read_bytes(n).read_end() <==> self.read_idx + n == self.buf_len,
        decreases n,
    {
        if n > 0 {
            self.lemma_read_bytes((n - 1) as nat);
        }
        assert forall|k: nat| k < n implies !(#[trigger] self.read_bytes(k)).read_end() by {
            self.lemma_read_bytes(k);
        }
        assert forall|i: int| 0 <= i < n implies self.bytes_read(n)[i] == self.buf[self.read_idx
            + i] by {
            self.lemma_read_bytes(i as nat);
        }
        assert(self.bytes_read(n) =~= self.buf.subrange(
            self.read_idx as int,
            (self.read_idx + n) as int,
        ));
    }

    /// A write message that has just been made hands out its bytes in order
    /// in as many reads as it has bytes, and is at its end after them.
    pub proof fn lemma_read_whole(self)
        requires
            self.wf(),
            !self.is_read(),
            self.read_idx == 0,
        ensures
            self.bytes_read(self.buf_len) == self.data(),
            self.read_bytes(self.buf_len).read_end(),
    {
        self.lemma_read_bytes(self.buf_len);
    }

    /// Filling a read message: as long as room for `bytes` is left before the
    /// end, the writes are each allowed, store the bytes from the write cursor
    /// on in their order, and change nothing else but the write cursor, which
    /// moves by their number. The message is full after them exactly when they
    /// took all the room that was left, so that no further write is allowed
    /// then.
    pub proof fn lemma_write_bytes(self, bytes: Seq<u8>)
        requires
            self.wf(),
            self.is_read(),
            self.write_idx + bytes.len() <= self.buf_len,
        ensures
            self.write_bytes(bytes) == (MsgState {
                buf: self.buf.subrange(0, self.write_idx as int) + bytes + self.buf.subrange(
                    (self.write_idx + bytes.len()) as int,
                    self.buf.len() as int,
                ),
                write_idx: self.write_idx + bytes.len(),
                ..self
            }),
            self.write_bytes(bytes).wf(),
            forall|k: int|
                0 <= k < bytes.len() ==> !(#[trigger] self.write_bytes(
                    bytes.subrange(0, k),
                )).write_end(),
            self.write_bytes(bytes).write_end() <==> self.write_idx + bytes.len() == self.buf_len,
        decreases bytes.len(),
    {
        let wi = self.write_idx as int;
        let n = bytes.len() as int;
        let filled = self.buf.subrange(0, wi) + bytes + self.buf.subrange(
            wi + n,
            self.buf.len() as int,
        );
        if n == 0 {
            assert(filled =~= self.buf);
        } else {
            let front = bytes.drop_last();
            self.lemma_write_bytes(front);
            let before = self.write_bytes(front);
            assert(before.buf.update(wi + n - 1, bytes.last()) =~= filled);
        }
        assert forall|k: int| 0 <= k < n implies !(#[trigger] self.write_bytes(
            bytes.subrange(0, k),
        )).write_end() by {
            self.lemma_write_bytes(bytes.subrange(0, k));
        }
    }

    /// A read message that has just been made holds, after as many writes as
    /// it has bytes, the bytes written in their order, and is full.
    pub proof fn lemma_write_whole(self, bytes: Seq<u8>)
        requires
            self.wf(),
            self.is_read(),
            self.write_idx == 0,
            bytes.len() == self.buf_len,
        ensures
            self.write_bytes(bytes).data() == bytes,
            self.write_bytes(bytes).write_end(),
    {
        self.lemma_write_bytes(bytes);
        assert(self.write_bytes(bytes).data() =~= bytes);
    }

    /// The active cursor stands on the last byte exactly when one more byte
    /// brings it to the end.
    pub proof fn lemma_left_last(self, byte: u8)
        requires
            self.wf(),
        ensures
            self.is_read() ==> (self.left_last() <==> self.write_byte(byte).write_end()),
            !self.is_read() ==> (self.left_last() <==> self.read_byte().read_end()),
    {
    }
}

} // verus!
