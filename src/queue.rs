use crate::envelope::ChannelMessage;
use crate::errors::ClientError;
use vstd::prelude::*;

verus! {

/// The ordered channel through which every producer reaches the transport.
/// Producers append; the single writer takes from the front, and puts an
/// envelope back at the front when writing it failed, so order is kept.
pub struct OutboundQueue {
    items: Vec<ChannelMessage>,
    open: bool,
}

impl OutboundQueue {
    /// The envelopes waiting to be written, oldest first.
    pub closed spec fn pending(&self) -> Seq<ChannelMessage> {
        self.items@
    }

    /// Whether producers may still enqueue.
    pub closed spec fn accepting(&self) -> bool {
        self.open
    }

    /// An open, empty queue.
    pub fn new() -> (r: OutboundQueue)
        ensures
            r.pending() == Seq::<ChannelMessage>::empty(),
            r.accepting(),
    {
        OutboundQueue { items: Vec::new(), open: true }
    }

    /// Append an envelope. Fails with `ChannelClosed`, leaving the queue as it
    /// was, once the queue has been closed.
    pub fn enqueue(&mut self, m: ChannelMessage) -> (r: Result<(), ClientError>)
        ensures
            final(self).accepting() == old(self).accepting(),
            old(self).accepting() ==> r is Ok && final(self).pending() == old(self).pending().push(m),
            !old(self).accepting() ==> (r matches Err(ClientError::ChannelClosed))
                && final(self).pending() == old(self).pending(),
    {
        if self.open {
            self.items.push(m);
            Ok(())
        } else {
            Err(ClientError::ChannelClosed)
        }
    }

    /// Take the oldest waiting envelope, for the writer.
    pub fn pop_front(&mut self) -> (r: Option<ChannelMessage>)
        ensures
            final(self).accepting() == old(self).accepting(),
            old(self).pending().len() == 0 ==> r is None && final(self).pending() == old(
                self,
            ).pending(),
            old(self).pending().len() > 0 ==> r == Some(old(self).pending()[0])
                && final(self).pending() == old(self).pending().drop_first(),
    {
        if self.items.len() == 0 {
            None
        } else {
            let m = self.items.remove(0);
            assert(self.items@ =~= old(self).items@.drop_first());
            Some(m)
        }
    }

    /// Put back, at the front, an envelope that could not be written.
    pub fn requeue_front(&mut self, m: ChannelMessage)
        ensures
            final(self).accepting() == old(self).accepting(),
            final(self).pending() == seq![m] + old(self).pending(),
    {
        self.items.insert(0, m);
        assert(self.items@ =~= seq![m] + old(self).items@);
    }

    /// Refuse all further producers. What is waiting stays for the writer.
    pub fn close(&mut self)
        ensures
            !final(self).accepting(),
            final(self).pending() == old(self).pending(),
    {
        self.open = false;
    }

    /// Number of envelopes waiting.
    pub fn len(&self) -> (r: usize)
        ensures
            r == self.pending().len(),
    {
        self.items.len()
    }

    pub fn is_open(&self) -> (r: bool)
        ensures
            r == self.accepting(),
    {
        self.open
    }
}

} // verus!
