//! Receiving what is captured, within bounds of size and time.
use vstd::prelude::*;

verus! {

/// The most transfers that run at a time.
pub const MAX_TRANSFERS: usize = 4;

/// The most bytes that are reserved for transfers at a time.
pub const TOTAL_BYTES: u64 = 134_217_728;

/// How long a transfer may stand still, in milliseconds.
pub const IDLE: u64 = 5_000;

/// How long a transfer may take in all, in milliseconds.
pub const TOTAL: u64 = 15_000;

/// The most bytes that are read at a time.
pub const CHUNK: u64 = 65_536;

/// How many bytes are reserved.
pub struct Budget {
    used: u64,
}

/// Bytes that are reserved until they are given back.
#[derive(Debug, PartialEq, Eq)]
pub struct Reservation {
    bytes: u64,
}

impl Reservation {
    /// How many bytes these are.
    pub closed spec fn bytes(self) -> u64 {
        self.bytes
    }
}

impl Budget {
    /// How many bytes are reserved.
    pub closed spec fn used(self) -> u64 {
        self.used
    }

    #[verifier::type_invariant]
    spec fn wf(self) -> bool {
        self.used <= TOTAL_BYTES
    }

    /// Reserves bytes, where they fit with those that are reserved already.
    pub fn reserve(&mut self, bytes: u64) -> (reservation: Option<Reservation>)
        ensures
            match reservation {
                Some(reservation) => old(self).used() + bytes <= TOTAL_BYTES && reservation.bytes()
                    == bytes && final(self).used() == old(self).used() + bytes,
                None => old(self).used() + bytes > TOTAL_BYTES && *final(self) == *old(self),
            },
            final(self).used() <= TOTAL_BYTES,
    {
        proof {
            use_type_invariant(&*self);
        }
        if bytes > TOTAL_BYTES - self.used {
            return None;
        }
        self.used = self.used + bytes;
        Some(Reservation { bytes })
    }

    /// Gives reserved bytes back.
    pub fn release(&mut self, reservation: Reservation)
        requires
            reservation.bytes() <= old(self).used(),
        ensures
            final(self).used() == old(self).used() - reservation.bytes(),
    {
        proof {
            use_type_invariant(&*self);
        }
        self.used = self.used - reservation.bytes;
    }
}

impl Default for Budget {
    fn default() -> (budget: Self)
        ensures
            budget.used() == 0,
    {
        Budget { used: 0 }
    }
}

/// What one read of the source gave.
pub enum ChunkRead {
    /// Nothing more.
    End,
    /// These bytes.
    Data(Vec<u8>),
    /// Nothing yet.
    NotReady,
    /// A failure.
    Failed,
}

/// Why a transfer was given up.
#[derive(Debug, Clone, Copy, PartialEq, Eq, Structural)]
pub enum TransferError {
    TimedOut,
    TooLarge,
    Failed,
}

/// One transfer under way. Times are milliseconds of a clock that never goes
/// back.
pub struct Transfer {
    data: Vec<u8>,
    length: u64,
    limit: u64,
    started: u64,
    progress: u64,
    reservation: Reservation,
}

/// What a transfer brought.
pub enum Received {
    /// Nothing but white space.
    Blank(Reservation),
    Complete(Vec<u8>, Reservation),
}

/// ASCII white space.
pub open spec fn blank_byte(byte: u8) -> bool {
    byte == 0x20 || byte == 0x09 || byte == 0x0a || byte == 0x0c || byte == 0x0d
}

/// Nothing but ASCII white space.
pub open spec fn blank(data: Seq<u8>) -> bool {
    forall|i: int| 0 <= i < data.len() ==> blank_byte(#[trigger] data[i])
}

fn is_blank(data: &[u8]) -> (result: bool)
    ensures
        result == blank(data@),
{
    for i in 0..data.len()
        invariant
            forall|j: int| 0 <= j < i ==> blank_byte(#[trigger] data@[j]),
    {
        let byte: u8 = data[i];
        if !(byte == 0x20 || byte == 0x09 || byte == 0x0a || byte == 0x0c || byte == 0x0d) {
            assert(!blank_byte(data@[i as int]));
            return false;
        }
    }
    true
}

/// The time from `from` to `to`, none if that is backwards.
pub open spec fn elapsed(from: u64, to: u64) -> int {
    if to >= from {
        to - from
    } else {
        0
    }
}

fn time_between(from: u64, to: u64) -> (time: u64)
    ensures
        time == elapsed(from, to),
{
    if to >= from {
        to - from
    } else {
        0
    }
}

impl Transfer {
    /// What has been received.
    pub closed spec fn data(self) -> Seq<u8> {
        self.data@
    }

    /// How many bytes have arrived, those included that were too many.
    pub closed spec fn length(self) -> u64 {
        self.length
    }

    /// The most bytes that are taken.
    pub closed spec fn limit(self) -> u64 {
        self.limit
    }

    pub closed spec fn started(self) -> u64 {
        self.started
    }

    /// When something last arrived.
    pub closed spec fn progress(self) -> u64 {
        self.progress
    }

    pub closed spec fn reservation(self) -> Reservation {
        self.reservation
    }

    /// The transfer has stood still, or taken, too long.
    pub open spec fn expired(self, now: u64) -> bool {
        elapsed(self.progress(), now) >= IDLE || elapsed(self.started(), now) >= TOTAL
    }

    /// The transfer is as before, but for what has been received and when.
    pub open spec fn continues(self, before: Self) -> bool {
        &&& self.limit() == before.limit()
        &&& self.started() == before.started()
        &&& self.reservation() == before.reservation()
    }

    /// Begins a transfer of at most `limit` bytes.
    pub fn new(limit: u64, reservation: Reservation, now: u64) -> (transfer: Self)
        ensures
            transfer.data() == Seq::<u8>::empty(),
            transfer.length() == 0,
            transfer.limit() == limit,
            transfer.started() == now,
            transfer.progress() == now,
            transfer.reservation() == reservation,
    {
        Transfer {
            data: Vec::new(),
            length: 0,
            limit,
            started: now,
            progress: now,
            reservation,
        }
    }

    /// Whether the transfer has to be given up.
    pub fn is_expired(&self, now: u64) -> (result: bool)
        ensures
            result == self.expired(now),
    {
        time_between(self.progress, now) >= IDLE || time_between(self.started, now) >= TOTAL
    }

    /// The most bytes to read next.
    pub open spec fn room(self) -> int {
        if self.limit() + 1 - self.length() <= 0 {
            0
        } else if self.limit() + 1 - self.length() < CHUNK {
            self.limit() + 1 - self.length()
        } else {
            CHUNK as int
        }
    }

    /// The most bytes to read next: a chunk, and never more than one byte past
    /// the limit.
    pub fn wanted(&self) -> (bytes: u64)
        ensures
            bytes == self.room(),
    {
        let length: u64 = self.length;
        if length > self.limit {
            0
        } else if self.limit - length < CHUNK - 1 {
            self.limit - length + 1
        } else {
            CHUNK
        }
    }

    /// Takes one read of the source. True means the end, and that the transfer
    /// can be finished. Too much, or too late, and it is given up.
    pub fn receive(&mut self, now: u64, read: ChunkRead) -> (result: Result<bool, TransferError>)
        ensures
            final(self).continues(*old(self)),
            old(self).expired(now) ==> result == Err::<bool, TransferError>(TransferError::TimedOut)
                && *final(self) == *old(self),
            !old(self).expired(now) ==> match read {
                ChunkRead::End => result == Ok::<bool, TransferError>(true) && *final(self)
                    == *old(self),
                ChunkRead::NotReady => result == Ok::<bool, TransferError>(false) && *final(self)
                    == *old(self),
                ChunkRead::Failed => result == Err::<bool, TransferError>(TransferError::Failed)
                    && *final(self) == *old(self),
                ChunkRead::Data(bytes) => {
                    let length = old(self).length() + bytes@.len();
                    &&& final(self).length() == if length <= u64::MAX {
                        length
                    } else {
                        u64::MAX as int
                    }
                    &&& if length > old(self).limit() {
                        &&& result == Err::<bool, TransferError>(TransferError::TooLarge)
                        &&& final(self).data() == old(self).data()
                        &&& final(self).progress() == old(self).progress()
                    } else {
                        &&& result == Ok::<bool, TransferError>(false)
                        &&& final(self).data() == old(self).data() + bytes@
                        &&& final(self).progress() == now
                    }
                },
            },
    {
        if self.is_expired(now) {
            return Err(TransferError::TimedOut);
        }
        match read {
            ChunkRead::End => Ok(true),
            ChunkRead::NotReady => Ok(false),
            ChunkRead::Failed => Err(TransferError::Failed),
            ChunkRead::Data(bytes) => {
                let more: u64 = bytes.len() as u64;
                let overflows: bool = more > u64::MAX - self.length;
                self.length = if overflows {
                    u64::MAX
                } else {
                    self.length + more
                };
                if overflows || self.length > self.limit {
                    return Err(TransferError::TooLarge);
                }
                self.data.extend_from_slice(bytes.as_slice());
                assert(self.data@ =~= old(self).data@ + bytes@);
                self.progress = now;
                Ok(false)
            },
        }
    }

    /// Gives the transfer up.
    pub fn cancel(self) -> (reservation: Reservation)
        ensures
            reservation == self.reservation(),
    {
        self.reservation
    }

    /// Ends the transfer. What is blank is not worth keeping.
    pub fn finish(self) -> (received: Received)
        ensures
            match received {
                Received::Blank(reservation) => blank(self.data()) && reservation
                    == self.reservation(),
                Received::Complete(data, reservation) => !blank(self.data()) && data@
                    == self.data() && reservation == self.reservation(),
            },
    {
        if is_blank(self.data.as_slice()) {
            Received::Blank(self.reservation)
        } else {
            Received::Complete(self.data, self.reservation)
        }
    }
}

} // verus!
