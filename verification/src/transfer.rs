//! What a bus adapter offers to run a batch of messages.

use vstd::prelude::*;
use crate::flags::I2cMsgFlags;
use crate::msg::I2cMsg;

verus! {

/// Every message of the batch is well formed.
pub open spec fn all_wf(msgs: Seq<I2cMsg<'_>>) -> bool {
    forall|i: int| 0 <= i < msgs.len() ==> (#[trigger] msgs[i])@.wf()
}

/// The operations of a bus adapter.
///
/// Only `master_xfer` must be there. Each of the others, where the adapter
/// does not define it, answers `None` and changes neither the adapter nor
/// what it was handed; the bus layer then makes do with `master_xfer`. An
/// adapter walks each message through its cursors, so a batch of well-formed
/// messages stays one, and what an adapter stores in a message reaches the
/// buffer that the message was made over.
pub trait I2cTransferAlgorithm {
    /// Runs the messages of the batch in order, blocking as it needs, and
    /// says how many of them were completed.
    fn master_xfer(&mut self, msgs: &mut [I2cMsg<'_>]) -> (done: usize)
        requires
            all_wf(old(msgs)@),
        ensures
            done <= old(msgs)@.len(),
            final(msgs)@.len() == old(msgs)@.len(),
            all_wf(final(msgs)@),
            forall|i: int|
                0 <= i < old(msgs)@.len() ==> final((#[trigger] final(msgs)@[i]).buf)@
                    == final(old(msgs)@[i].buf)@,
    ;

    /// As `master_xfer`, without ever blocking or sleeping: for interrupt
    /// context and late shutdown. `None` where the adapter has no such path.
    fn master_xfer_atomic(&mut self, msgs: &mut [I2cMsg<'_>]) -> (done: Option<usize>)
        requires
            all_wf(old(msgs)@),
        ensures
            done is Some ==> done.unwrap() <= old(msgs)@.len(),
            done is None ==> final(msgs)@ == old(msgs)@,
            final(msgs)@.len() == old(msgs)@.len(),
            all_wf(final(msgs)@),
            forall|i: int|
                0 <= i < old(msgs)@.len() ==> final((#[trigger] final(msgs)@[i]).buf)@
                    == final(old(msgs)@[i].buf)@,
        default_ensures
            done is None,
            &*final(self) == &*old(self),
            final(msgs)@ == old(msgs)@,
    {
        None
    }

    /// Runs one SMBus transaction with the device at `addr`: the command
    /// byte, then the bytes of `data`, received where `read` is true and sent
    /// where it is false. Says whether the transaction was completed; `None`
    /// where the adapter speaks no SMBus of its own.
    fn smbus_xfer(
        &mut self,
        addr: u16,
        flags: I2cMsgFlags,
        read: bool,
        command: u8,
        data: &mut [u8],
    ) -> (done: Option<bool>)
        ensures
            final(data)@.len() == old(data)@.len(),
            done is None ==> final(data)@ == old(data)@,
        default_ensures
            done is None,
            &*final(self) == &*old(self),
            final(data)@ == old(data)@,
    {
        None
    }

    /// As `smbus_xfer`, without ever blocking or sleeping. `None` where the
    /// adapter has no such path.
    fn smbus_xfer_atomic(
        &mut self,
        addr: u16,
        flags: I2cMsgFlags,
        read: bool,
        command: u8,
        data: &mut [u8],
    ) -> (done: Option<bool>)
        ensures
            final(data)@.len() == old(data)@.len(),
            done is None ==> final(data)@ == old(data)@,
        default_ensures
            done is None,
            &*final(self) == &*old(self),
            final(data)@ == old(data)@,
    {
        None
    }
}

} // verus!
