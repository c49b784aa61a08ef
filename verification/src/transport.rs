//! What the driver asks of the two-wire bus it is handed.

use vstd::prelude::*;

verus! {

/// A byte-oriented two-wire bus, seen from the controller.
///
/// The driver only ever writes. Reading and writing-then-reading belong to
/// the capability a bus offers and are declared for that reason; no operation
/// of the driver calls them.
///
/// Nothing is asked of an implementation beyond these signatures: start and
/// stop conditions, addressing, acknowledgement and timing are its affair,
/// and so is whether a transaction succeeds.
pub trait Transport {
    /// What the transport reports when a transaction fails.
    type Error;

    /// Writes `bytes` to the device at `address` as one transaction.
    fn write(&mut self, address: u8, bytes: &[u8]) -> Result<(), Self::Error>;

    /// Reads from the device at `address` until `buffer` is full.
    fn read(&mut self, address: u8, buffer: &mut [u8]) -> Result<(), Self::Error>;

    /// Writes `bytes` to the device at `address`, then reads from it until
    /// `buffer` is full, in a single transaction.
    fn write_read(&mut self, address: u8, bytes: &[u8], buffer: &mut [u8]) -> Result<
        (),
        Self::Error,
    >;
}

/// One write that was asked of a transport, and how the transport ended it.
pub struct Transfer<E> {
    /// The bus address the write went to.
    pub address: u8,
    /// The bytes of the write, in the order they were handed over.
    pub bytes: Seq<u8>,
    /// What the transport answered.
    pub outcome: Result<(), E>,
}

/// A transport together with the list of the writes asked of it.
///
/// The transport is reachable through [`Recorded::write`] alone, and that
/// function notes each call it makes, so the list holds every write that
/// passed through here and nothing else. The list is ghost state: it costs
/// nothing at run time.
pub(crate) struct Recorded<T: Transport> {
    bus: T,
    sent: Ghost<Seq<Transfer<T::Error>>>,
}

impl<T: Transport> Recorded<T> {
    /// The writes asked of the transport since it was taken, oldest first.
    pub(crate) closed spec fn sent(&self) -> Seq<Transfer<T::Error>> {
        self.sent@
    }

    /// Takes `bus`, of which nothing has been asked yet through here.
    pub(crate) fn take(bus: T) -> (recorded: Self)
        ensures
            recorded.sent() == Seq::<Transfer<T::Error>>::empty(),
    {
        Recorded { bus, sent: Ghost(Seq::empty()) }
    }

    /// Asks the transport once for a write of `bytes` to `address`, notes the
    /// write with its outcome, and returns the outcome.
    pub(crate) fn write(&mut self, address: u8, bytes: &[u8]) -> (outcome: Result<(), T::Error>)
        ensures
            final(self).sent() == old(self).sent().push(
                Transfer { address, bytes: bytes@, outcome },
            ),
    {
        let outcome = self.bus.write(address, bytes);
        proof {
            self.sent@ = self.sent@.push(Transfer { address, bytes: bytes@, outcome });
        }
        outcome
    }
}

} // verus!
