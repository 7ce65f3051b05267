//! What is made of the compositor's events: which offers are kept, which one is
//! received, and what becomes of it.
//!
//! Protocol objects are known by their numbers. An offer's MIME types are
//! collected in full before anything is received of it.
use super::policy::{OfferView, OfferedMimes, MAX_OFFERS, MAX_SEATS};
use super::transfer::{
    Budget, ChunkRead, Received, Reservation, Transfer, MAX_TRANSFERS, TOTAL_BYTES,
};
use super::{Admission, Generation};
use crate::backend::MAX_WAYLAND_SELECTION_BYTES;
use crate::text;
use vstd::prelude::*;
use vstd::string::*;

verus! {

/// How long the compositor may take to get ready, in milliseconds.
pub const INITIALIZATION: u64 = 5_000;

/// An offer whose MIME types are being collected.
pub struct Pending {
    pub id: u32,
    pub seat: u32,
    pub mimes: OfferedMimes,
}

/// An offer of which something is being received.
pub struct Receiving {
    pub pending: Pending,
    pub mime: String,
    pub transfer: Transfer,
    pub generation: Generation,
}

/// The global object through which offers come.
#[derive(Debug, Clone, Copy, PartialEq, Eq, Structural)]
pub enum Manager {
    Ext(u32),
    Wlr(u32),
}

/// What has to be done for a global object.
#[derive(Debug, Clone, Copy, PartialEq, Eq, Structural)]
pub enum GlobalAction {
    Ignore,
    /// Binds the seat at this version, and listens to it.
    BindSeat { version: u32 },
}

/// Asks the source of an offer for its contents under a MIME type.
pub struct Request {
    pub id: u32,
    pub mime: String,
}

/// What was captured, on its way to the store.
pub struct Job {
    pub data: Vec<u8>,
    pub mime: String,
    pub generation: Generation,
    pub reservation: Reservation,
}

/// What became of a transfer.
pub enum Progress {
    /// It goes on.
    Continues,
    /// It was given up.
    Dropped,
    /// It brought nothing but white space; the next MIME type is asked for.
    Retried(Request),
    /// It brought something.
    Complete(Job),
}

/// One connection to the compositor.
pub struct State {
    pub limit: u64,
    pub budget: Budget,
    pub ext: Option<u32>,
    pub wlr: Option<u32>,
    pub manager: Option<Manager>,
    pub seats: Vec<u32>,
    pub offers: Vec<Pending>,
    pub transfers: Vec<Receiving>,
    pub ready: bool,
    pub skip_initial: bool,
    pub error: Option<String>,
}

/// The bytes that are reserved for some transfers.
pub open spec fn held(transfers: Seq<Receiving>) -> int
    decreases transfers.len(),
{
    if transfers.len() == 0 {
        0
    } else {
        held(transfers.drop_last()) + transfers.last().transfer.reservation().bytes()
    }
}

proof fn held_concat(a: Seq<Receiving>, b: Seq<Receiving>)
    ensures
        held(a + b) == held(a) + held(b),
        held(b) >= 0,
    decreases b.len(),
{
    if b.len() == 0 {
        assert(a + b =~= a);
    } else {
        held_concat(a, b.drop_last());
        assert((a + b).drop_last() =~= a + b.drop_last());
        assert((a + b).last() == b.last());
    }
}

proof fn held_one(r: Receiving)
    ensures
        held(seq![r]) == r.transfer.reservation().bytes(),
{
    reveal_with_fuel(held, 2);
    assert(seq![r].drop_last() =~= Seq::empty());
}

proof fn filter_splits<T>(a: Seq<T>, x: T, keep: spec_fn(T) -> bool)
    ensures
        (a.push(x)).filter(keep) == (if keep(x) {
            a.filter(keep).push(x)
        } else {
            a.filter(keep)
        }),
{
    reveal(Seq::filter);
    assert(a.push(x).drop_last() =~= a);
}

proof fn filter_is_no_longer<T>(s: Seq<T>, keep: spec_fn(T) -> bool)
    ensures
        s.filter(keep).len() <= s.len(),
    decreases s.len(),
{
    reveal(Seq::filter);
    if s.len() > 0 {
        filter_is_no_longer(s.drop_last(), keep);
    }
}

impl State {
    /// What is reserved covers the transfers that run, and no more is kept than
    /// is allowed.
    pub open spec fn wf(self) -> bool {
        &&& held(self.transfers@) <= self.budget.used()
        &&& self.limit <= MAX_WAYLAND_SELECTION_BYTES
        &&& self.transfers@.len() <= MAX_TRANSFERS
        &&& self.seats@.len() <= MAX_SEATS
        &&& self.offers@.len() <= MAX_OFFERS
    }

    pub fn new(limit: u64, skip_initial: bool) -> (state: Self)
        requires
            limit <= MAX_WAYLAND_SELECTION_BYTES,
        ensures
            state.wf(),
            state.limit == limit,
            state.budget.used() == 0,
            state.ext is None,
            state.wlr is None,
            state.manager is None,
            state.seats@.len() == 0,
            state.offers@.len() == 0,
            state.transfers@.len() == 0,
            !state.ready,
            state.skip_initial == skip_initial,
            state.error is None,
    {
        State {
            limit,
            budget: Budget::default(),
            ext: None,
            wlr: None,
            manager: None,
            seats: Vec::new(),
            offers: Vec::new(),
            transfers: Vec::new(),
            ready: false,
            skip_initial,
            error: None,
        }
    }

    /// What was set when the connection began is as before, and so are the
    /// global objects that are known.
    pub open spec fn same_globals(self, before: Self) -> bool {
        &&& self.limit == before.limit
        &&& self.skip_initial == before.skip_initial
        &&& self.ext == before.ext
        &&& self.wlr == before.wlr
    }

    /// Everything but the seats, the offers, the transfers and the budget is as
    /// before.
    pub open spec fn same_setup(self, before: Self) -> bool {
        &&& self.same_globals(before)
        &&& self.manager == before.manager
        &&& self.ready == before.ready
    }

    /// What was on the clipboard at the start is left out, and the compositor has
    /// not told yet that this was all of it; nothing is being received.
    pub open spec fn waits_for_new(self) -> bool {
        self.skip_initial && !self.ready && self.transfers@.len() == 0
    }

    /// One event of the compositor, or one turn of the collector, before the
    /// compositor has told all there is at the start: nothing begins to be
    /// received that was on the clipboard then.
    pub open spec fn stays_quiet(self, before: Self) -> bool {
        before.waits_for_new() ==> self.waits_for_new()
    }

    /// The transfers and the budget are as before.
    pub open spec fn same_transfers(self, before: Self) -> bool {
        self.transfers == before.transfers && self.budget == before.budget
    }

    /// Forgets a seat, with its offers and transfers; what was reserved for them
    /// is given back.
    pub fn remove_seat(&mut self, name: u32)
        requires
            old(self).wf(),
        ensures
            final(self).wf(),
            final(self).same_setup(*old(self)),
            final(self).error == old(self).error,
            final(self).offers@ == old(self).offers@.filter(|p: Pending| p.seat != name),
            final(self).transfers@ == old(self).transfers@.filter(
                |r: Receiving| r.pending.seat != name,
            ),
            final(self).seats@ == old(self).seats@.filter(|s: u32| s != name),
            final(self).budget.used() - held(final(self).transfers@) == old(self).budget.used()
                - held(old(self).transfers@),
            final(self).stays_quiet(*old(self)),
    {
        let ghost keep_offer = |p: Pending| p.seat != name;
        let ghost keep_transfer = |r: Receiving| r.pending.seat != name;
        let ghost keep_seat = |s: u32| s != name;
        let mut offers: Vec<Pending> = Vec::new();
        std::mem::swap(&mut offers, &mut self.offers);
        let ghost all_offers = offers@;
        let mut kept_offers: Vec<Pending> = Vec::new();
        let ghost mut done: Seq<Pending> = Seq::empty();
        proof {
            reveal(Seq::filter);
        }
        while offers.len() > 0
            invariant
                all_offers == done + offers@,
                kept_offers@ == done.filter(keep_offer),
                keep_offer == (|p: Pending| p.seat != name),
            decreases offers@.len(),
        {
            let ghost rest = offers@;
            let pending = offers.remove(0);
            proof {
                filter_splits(done, pending, keep_offer);
                assert(done + rest =~= done.push(pending) + offers@);
                done = done.push(pending);
            }
            if pending.seat != name {
                kept_offers.push(pending);
            }
        }
        assert(done =~= all_offers);
        self.offers = kept_offers;
        let mut transfers: Vec<Receiving> = Vec::new();
        std::mem::swap(&mut transfers, &mut self.transfers);
        let ghost all_transfers = transfers@;
        let mut kept_transfers: Vec<Receiving> = Vec::new();
        let ghost mut gone: Seq<Receiving> = Seq::empty();
        let ghost used = self.budget.used();
        assert(kept_transfers@ + transfers@ =~= all_transfers);
        while transfers.len() > 0
            invariant
                all_transfers == gone + transfers@,
                kept_transfers@ == gone.filter(keep_transfer),
                keep_transfer == (|r: Receiving| r.pending.seat != name),
                held(kept_transfers@ + transfers@) <= self.budget.used(),
                self.budget.used() - held(kept_transfers@ + transfers@) == used - held(
                    all_transfers,
                ),
                self.same_setup(*old(self)),
                self.error == old(self).error,
                self.offers@ == kept_offers@,
                self.seats == old(self).seats,
            decreases transfers@.len(),
        {
            let ghost rest = transfers@;
            let ghost kept = kept_transfers@;
            let receiving = transfers.remove(0);
            proof {
                filter_splits(gone, receiving, keep_transfer);
                assert(gone + rest =~= gone.push(receiving) + transfers@);
                gone = gone.push(receiving);
                held_concat(kept, rest);
                assert(rest =~= seq![receiving] + transfers@);
                held_concat(seq![receiving], transfers@);
                held_one(receiving);
                held_concat(kept, transfers@);
                held_concat(kept, seq![receiving]);
                held_concat(Seq::empty(), kept);
                assert(Seq::<Receiving>::empty() + kept =~= kept);
            }
            if receiving.pending.seat != name {
                kept_transfers.push(receiving);
                assert(kept_transfers@ + transfers@ =~= kept + rest);
            } else {
                self.budget.release(receiving.transfer.cancel());
            }
        }
        assert(gone =~= all_transfers);
        assert(kept_transfers@ + transfers@ =~= kept_transfers@);
        self.transfers = kept_transfers;
        let mut seats: Vec<u32> = Vec::new();
        let ghost all_seats = self.seats@;
        assert(all_seats.take(0).filter(keep_seat) =~= Seq::empty());
        for i in 0..self.seats.len()
            invariant
                all_seats == self.seats@,
                keep_seat == (|s: u32| s != name),
                seats@ == all_seats.take(i as int).filter(keep_seat),
        {
            proof {
                filter_splits(all_seats.take(i as int), all_seats[i as int], keep_seat);
                assert(all_seats.take(i + 1) =~= all_seats.take(i as int).push(
                    all_seats[i as int],
                ));
            }
            if self.seats[i] != name {
                seats.push(self.seats[i]);
            }
        }
        assert(all_seats.take(all_seats.len() as int) =~= all_seats);
        self.seats = seats;
        proof {
            filter_is_no_longer(all_offers, keep_offer);
            filter_is_no_longer(all_transfers, keep_transfer);
            filter_is_no_longer(all_seats, keep_seat);
        }
    }

    /// Keeps an offer of a seat, while there is room.
    pub fn offer(&mut self, id: u32, seat: u32)
        requires
            old(self).wf(),
        ensures
            final(self).wf(),
            final(self).same_setup(*old(self)),
            final(self).stays_quiet(*old(self)),
            final(self).same_transfers(*old(self)),
            final(self).error == old(self).error,
            final(self).seats == old(self).seats,
            old(self).offers@.len() + old(self).transfers@.len() >= MAX_OFFERS
                ==> final(self).offers == old(self).offers,
            old(self).offers@.len() + old(self).transfers@.len() < MAX_OFFERS ==> ({
                let others = old(self).offers@.filter(|p: Pending| p.id != id);
                &&& final(self).offers@.len() == others.len() + 1
                &&& final(self).offers@.drop_last() == others
                &&& final(self).offers@.last().id == id
                &&& final(self).offers@.last().seat == seat
                &&& final(self).offers@.last().mimes@ == OfferView::empty()
            }),
    {
        let count: usize = self.offers.len();
        if count >= MAX_OFFERS || self.transfers.len() >= MAX_OFFERS - count {
            return;
        }
        let ghost all = self.offers@;
        self.forget(id);
        proof {
            filter_is_no_longer(all, |p: Pending| p.id != id);
        }
        self.offers.push(Pending { id, seat, mimes: OfferedMimes::default() });
        assert(self.offers@.drop_last() =~= all.filter(|p: Pending| p.id != id));
    }

    /// Forgets an offer that is not being received.
    pub fn forget(&mut self, id: u32)
        ensures
            final(self).same_setup(*old(self)),
            final(self).stays_quiet(*old(self)),
            final(self).same_transfers(*old(self)),
            final(self).error == old(self).error,
            final(self).seats == old(self).seats,
            final(self).offers@ == old(self).offers@.filter(|p: Pending| p.id != id),
    {
        let ghost keep = |p: Pending| p.id != id;
        let mut offers: Vec<Pending> = Vec::new();
        std::mem::swap(&mut offers, &mut self.offers);
        let ghost all = offers@;
        let mut kept: Vec<Pending> = Vec::new();
        let ghost mut done: Seq<Pending> = Seq::empty();
        proof {
            reveal(Seq::filter);
        }
        while offers.len() > 0
            invariant
                all == done + offers@,
                kept@ == done.filter(keep),
                keep == (|p: Pending| p.id != id),
            decreases offers@.len(),
        {
            let ghost rest = offers@;
            let pending = offers.remove(0);
            proof {
                filter_splits(done, pending, keep);
                assert(done + rest =~= done.push(pending) + offers@);
                done = done.push(pending);
            }
            if pending.id != id {
                kept.push(pending);
            }
        }
        assert(done =~= all);
        self.offers = kept;
    }

    /// Adds a MIME type to an offer that is kept.
    pub fn offer_mime(&mut self, id: u32, mime: String)
        ensures
            final(self).same_setup(*old(self)),
            final(self).stays_quiet(*old(self)),
            final(self).same_transfers(*old(self)),
            final(self).error == old(self).error,
            final(self).seats == old(self).seats,
            final(self).offers@.len() == old(self).offers@.len(),
            ({
                let at = offer_index(old(self).offers@, id);
                forall|i: int|
                    0 <= i < old(self).offers@.len() ==> if i == at {
                        &&& (#[trigger] final(self).offers@[i]).id == id
                        &&& final(self).offers@[i].seat == old(self).offers@[i].seat
                        &&& final(self).offers@[i].mimes@ == old(self).offers@[i].mimes@.with(mime@)
                    } else {
                        final(self).offers@[i] == old(self).offers@[i]
                    }
            }),
    {
        let at = self.find_offer(id);
        if at == self.offers.len() {
            return;
        }
        let mut pending = self.offers.remove(at);
        pending.mimes.add(mime);
        self.offers.insert(at, pending);
    }

    fn find_offer(&self, id: u32) -> (at: usize)
        ensures
            at == offer_index(self.offers@, id),
            at <= self.offers@.len(),
            at < self.offers@.len() ==> self.offers@[at as int].id == id,
    {
        let mut at: usize = 0;
        assert(self.offers@.skip(0) =~= self.offers@);
        while at < self.offers.len()
            invariant
                at <= self.offers@.len(),
                offer_index(self.offers@, id) == at + offer_index(
                    self.offers@.skip(at as int),
                    id,
                ),
            decreases self.offers@.len() - at,
        {
            if self.offers[at].id == id {
                return at;
            }
            assert(self.offers@.skip(at as int).drop_first() =~= self.offers@.skip(at + 1));
            at = at + 1;
        }
        at
    }

    /// `pending` can be received now.
    pub open spec fn can_start(self, offer: OfferView, gate: Admission) -> bool {
        &&& self.transfers@.len() < MAX_TRANSFERS
        &&& gate@.open
        &&& offer.best() is Some
        &&& self.budget.used() + self.limit + 1 <= TOTAL_BYTES
    }

    /// A transfer of `pending` was begun beside the transfers `before`, when so
    /// much of the budget was in use.
    pub open spec fn began(
        self,
        before: Seq<Receiving>,
        used: int,
        pending: Pending,
        gate: Admission,
        now: u64,
        request: Request,
    ) -> bool {
        let r = self.transfers@.last();
        &&& self.transfers@.drop_last() == before
        &&& self.transfers@.len() == before.len() + 1
        &&& self.budget.used() == used + self.limit + 1
        &&& r.pending.id == pending.id
        &&& r.pending.seat == pending.seat
        &&& r.pending.mimes@ == pending.mimes@.without_best()
        &&& Some(r.mime@) == pending.mimes@.best()
        &&& r.generation == Generation(gate@.generation)
        &&& r.transfer.data() == Seq::<u8>::empty()
        &&& r.transfer.length() == 0
        &&& r.transfer.limit() == self.limit
        &&& r.transfer.started() == now
        &&& r.transfer.progress() == now
        &&& r.transfer.reservation().bytes() == self.limit + 1
        &&& request.id == pending.id
        &&& request.mime@ == r.mime@
    }

    /// Begins to receive an offer, where transfers, gate, MIME types and budget
    /// allow; otherwise the offer is dropped.
    fn start(&mut self, pending: Pending, gate: &Admission, now: u64) -> (request: Option<Request>)
        requires
            old(self).wf(),
        ensures
            final(self).wf(),
            final(self).same_setup(*old(self)),
            final(self).error == old(self).error,
            final(self).seats == old(self).seats,
            final(self).offers == old(self).offers,
            match request {
                Some(request) => old(self).can_start(pending.mimes@, *gate) && final(self).began(
                    old(self).transfers@,
                    old(self).budget.used() as int,
                    pending,
                    *gate,
                    now,
                    request,
                ),
                None => !old(self).can_start(pending.mimes@, *gate) && final(self).same_transfers(
                    *old(self),
                ),
            },
    {
        let mut pending = pending;
        if self.transfers.len() >= MAX_TRANSFERS {
            return None;
        }
        let generation = match gate.admitted() {
            Some(generation) => generation,
            None => {
                return None;
            },
        };
        let mime = match pending.mimes.next() {
            Some(mime) => mime,
            None => {
                return None;
            },
        };
        let reservation = match self.budget.reserve(self.limit + 1) {
            Some(reservation) => reservation,
            None => {
                return None;
            },
        };
        let request = Request { id: pending.id, mime: mime.clone() };
        let ghost before = self.transfers@;
        let receiving = Receiving {
            pending,
            mime,
            transfer: Transfer::new(self.limit, reservation, now),
            generation,
        };
        self.transfers.push(receiving);
        proof {
            assert(self.transfers@.drop_last() =~= before);
        }
        Some(request)
    }

    /// Begins to receive an offer that has become the selection. What was on the
    /// clipboard at the start can be left out.
    pub fn select(&mut self, id: u32, gate: &Admission, now: u64) -> (request: Option<Request>)
        requires
            old(self).wf(),
        ensures
            final(self).wf(),
            final(self).same_setup(*old(self)),
            final(self).stays_quiet(*old(self)),
            final(self).error == old(self).error,
            final(self).seats == old(self).seats,
            ({
                let at = offer_index(old(self).offers@, id);
                if at == old(self).offers@.len() {
                    request is None && final(self).offers@ == old(self).offers@
                        && final(self).same_transfers(*old(self))
                } else {
                    let pending = old(self).offers@[at];
                    &&& final(self).offers@ == old(self).offers@.remove(at)
                    &&& if old(self).skip_initial && !old(self).ready {
                        request is None && final(self).same_transfers(*old(self))
                    } else {
                        match request {
                            Some(request) => old(self).can_start(pending.mimes@, *gate)
                                && final(self).began(
                                old(self).transfers@,
                                old(self).budget.used() as int,
                                pending,
                                *gate,
                                now,
                                request,
                            ),
                            None => !old(self).can_start(pending.mimes@, *gate)
                                && final(self).same_transfers(*old(self)),
                        }
                    }
                }
            }),
    {
        let at = self.find_offer(id);
        if at == self.offers.len() {
            return None;
        }
        let pending = self.offers.remove(at);
        if self.skip_initial && !self.ready {
            return None;
        }
        self.start(pending, gate, now)
    }

    /// Takes a transfer out, with its reservation still in force.
    fn take(&mut self, at: usize) -> (receiving: Receiving)
        requires
            old(self).wf(),
            at < old(self).transfers@.len(),
        ensures
            receiving == old(self).transfers@[at as int],
            final(self).transfers@ == old(self).transfers@.remove(at as int),
            final(self).budget == old(self).budget,
            final(self).same_setup(*old(self)),
            final(self).error == old(self).error,
            final(self).seats == old(self).seats,
            final(self).offers == old(self).offers,
            held(final(self).transfers@) + receiving.transfer.reservation().bytes() == held(
                old(self).transfers@,
            ),
    {
        let ghost all = self.transfers@;
        let receiving = self.transfers.remove(at);
        proof {
            let a = all.take(at as int);
            let b = all.skip(at + 1);
            assert(all =~= a + (seq![receiving] + b));
            assert(self.transfers@ =~= a + b);
            held_concat(a, seq![receiving] + b);
            held_concat(seq![receiving], b);
            held_concat(a, b);
            held_one(receiving);
        }
        receiving
    }

    /// How many bytes to read of the source of a transfer now: none where it
    /// belongs to a generation that has ended, or took too long.
    pub fn wanted(&self, at: usize, gate: &Admission, now: u64) -> (bytes: u64)
        requires
            at < self.transfers@.len(),
        ensures
            ({
                let r = self.transfers@[at as int];
                bytes == if gate@.accepts(r.generation) && !r.transfer.expired(now) {
                    r.transfer.room()
                } else {
                    0
                }
            }),
    {
        let receiving = &self.transfers[at];
        if gate.accepts(receiving.generation) && !receiving.transfer.is_expired(now) {
            receiving.transfer.wanted()
        } else {
            0
        }
    }

    /// Takes one read of the source of a transfer. What belongs to a generation
    /// that has ended is dropped unread; what took too long or is too large is
    /// dropped too.
    pub fn receive(&mut self, at: usize, gate: &Admission, now: u64, read: ChunkRead) -> (progress:
        Progress)
        requires
            old(self).wf(),
            at < old(self).transfers@.len(),
        ensures
            final(self).wf(),
            final(self).same_setup(*old(self)),
            final(self).stays_quiet(*old(self)),
            final(self).error == old(self).error,
            final(self).seats == old(self).seats,
            final(self).offers == old(self).offers,
            ({
                let r = old(self).transfers@[at as int];
                let others = old(self).transfers@.remove(at as int);
                let freed = old(self).budget.used() - r.transfer.reservation().bytes();
                let live = gate@.accepts(r.generation) && !r.transfer.expired(now);
                match progress {
                    Progress::Continues => {
                        &&& live
                        &&& final(self).budget == old(self).budget
                        &&& final(self).transfers@.remove(at as int) == others
                        &&& final(self).transfers@.len() == old(self).transfers@.len()
                        &&& final(self).transfers@[at as int].pending == r.pending
                        &&& final(self).transfers@[at as int].mime == r.mime
                        &&& final(self).transfers@[at as int].generation == r.generation
                        &&& final(self).transfers@[at as int].transfer.continues(r.transfer)
                        &&& match read {
                            ChunkRead::NotReady => final(self).transfers@[at as int].transfer
                                == r.transfer,
                            ChunkRead::Data(bytes) => r.transfer.length() + bytes@.len()
                                <= r.transfer.limit()
                                && final(self).transfers@[at as int].transfer.data()
                                == r.transfer.data() + bytes@
                                && final(self).transfers@[at as int].transfer.length()
                                == r.transfer.length() + bytes@.len()
                                && final(self).transfers@[at as int].transfer.progress() == now,
                            _ => false,
                        }
                    },
                    Progress::Dropped => {
                        &&& final(self).transfers@ == others
                        &&& final(self).budget.used() == freed
                        &&& !live || match read {
                            ChunkRead::Failed => true,
                            ChunkRead::Data(bytes) => r.transfer.length() + bytes@.len()
                                > r.transfer.limit(),
                            ChunkRead::End => super::transfer::blank(r.transfer.data()) && !(others.len()
                                < MAX_TRANSFERS && gate@.open && r.pending.mimes@.best() is Some
                                && freed + old(self).limit + 1 <= TOTAL_BYTES),
                            ChunkRead::NotReady => false,
                        }
                    },
                    Progress::Retried(request) => {
                        &&& live
                        &&& read is End
                        &&& super::transfer::blank(r.transfer.data())
                        &&& others.len() < MAX_TRANSFERS
                        &&& gate@.open
                        &&& r.pending.mimes@.best() is Some
                        &&& freed + old(self).limit + 1 <= TOTAL_BYTES
                        &&& final(self).began(others, freed, r.pending, *gate, now, request)
                    },
                    Progress::Complete(job) => {
                        &&& live
                        &&& read is End
                        &&& !super::transfer::blank(r.transfer.data())
                        &&& job.data@ == r.transfer.data()
                        &&& job.mime == r.mime
                        &&& job.generation == r.generation
                        &&& job.reservation == r.transfer.reservation()
                        &&& final(self).transfers@ == others
                        &&& final(self).budget == old(self).budget
                        &&& held(final(self).transfers@) + job.reservation.bytes()
                            <= final(self).budget.used()
                    },
                }
            }),
    {
        let ghost all = self.transfers@;
        let mut receiving = self.take(at);
        proof {
            held_concat(Seq::empty(), self.transfers@);
        }
        if !gate.accepts(receiving.generation) {
            self.budget.release(receiving.transfer.cancel());
            return Progress::Dropped;
        }
        match receiving.transfer.receive(now, read) {
            Ok(false) => {
                let ghost r = receiving;
                let ghost others = self.transfers@;
                self.transfers.insert(at, receiving);
                proof {
                    let a = others.take(at as int);
                    let b = others.skip(at as int);
                    assert(self.transfers@ =~= a + (seq![r] + b));
                    assert(others =~= a + b);
                    held_concat(a, seq![r] + b);
                    held_concat(seq![r], b);
                    held_concat(a, b);
                    held_one(r);
                    assert(self.transfers@.remove(at as int) =~= all.remove(at as int));
                }
                Progress::Continues
            },
            Ok(true) => {
                let Receiving { pending, mime, transfer, generation } = receiving;
                match transfer.finish() {
                    Received::Blank(reservation) => {
                        self.budget.release(reservation);
                        match self.start(pending, gate, now) {
                            Some(request) => Progress::Retried(request),
                            None => Progress::Dropped,
                        }
                    },
                    Received::Complete(data, reservation) => {
                        Progress::Complete(Job { data, mime, generation, reservation })
                    },
                }
            },
            Err(_) => {
                self.budget.release(receiving.transfer.cancel());
                Progress::Dropped
            },
        }
    }

    /// Gives back what was reserved for something captured, once it has been
    /// stored or dropped.
    pub fn release(&mut self, reservation: Reservation)
        requires
            old(self).wf(),
            held(old(self).transfers@) + reservation.bytes() <= old(self).budget.used(),
        ensures
            final(self).wf(),
            final(self).same_setup(*old(self)),
            final(self).stays_quiet(*old(self)),
            final(self).error == old(self).error,
            final(self).seats == old(self).seats,
            final(self).offers == old(self).offers,
            final(self).transfers == old(self).transfers,
            final(self).budget.used() == old(self).budget.used() - reservation.bytes(),
    {
        proof {
            held_concat(Seq::empty(), self.transfers@);
            assert(Seq::<Receiving>::empty() + self.transfers@ =~= self.transfers@);
        }
        self.budget.release(reservation);
    }

    /// Takes note of a global object of the compositor.
    pub fn global(&mut self, name: u32, interface: &str, version: u32) -> (action: GlobalAction)
        requires
            old(self).wf(),
        ensures
            final(self).wf(),
            final(self).same_transfers(*old(self)),
            final(self).stays_quiet(*old(self)),
            final(self).offers == old(self).offers,
            final(self).limit == old(self).limit,
            final(self).manager == old(self).manager,
            final(self).ready == old(self).ready,
            final(self).skip_initial == old(self).skip_initial,
            final(self).error == old(self).error,
            final(self).ext == (if interface@ == "ext_data_control_manager_v1"@ {
                Some(name)
            } else {
                old(self).ext
            }),
            final(self).wlr == (if interface@ != "ext_data_control_manager_v1"@ && interface@
                == "zwlr_data_control_manager_v1"@ && version >= 2 {
                Some(name)
            } else {
                old(self).wlr
            }),
            ({
                let seat = interface@ != "ext_data_control_manager_v1"@ && !(interface@
                    == "zwlr_data_control_manager_v1"@ && version >= 2) && interface@ == "wl_seat"@
                    && old(self).seats@.len() < MAX_SEATS;
                &&& action == (if seat {
                    GlobalAction::BindSeat {
                        version: if version < 7 {
                            version
                        } else {
                            7
                        },
                    }
                } else {
                    GlobalAction::Ignore
                })
                &&& final(self).seats@ == (if seat {
                    old(self).seats@.filter(|s: u32| s != name).push(name)
                } else {
                    old(self).seats@
                })
            }),
    {
        if text::same(interface, "ext_data_control_manager_v1") {
            self.ext = Some(name);
            return GlobalAction::Ignore;
        }
        if text::same(interface, "zwlr_data_control_manager_v1") && version >= 2 {
            self.wlr = Some(name);
            return GlobalAction::Ignore;
        }
        if text::same(interface, "wl_seat") && self.seats.len() < MAX_SEATS {
            let ghost keep = |s: u32| s != name;
            let ghost all = self.seats@;
            let mut seats: Vec<u32> = Vec::new();
            proof {
                reveal(Seq::filter);
                assert(all.take(0).filter(keep) =~= Seq::empty());
            }
            for i in 0..self.seats.len()
                invariant
                    all == self.seats@,
                    keep == (|s: u32| s != name),
                    seats@ == all.take(i as int).filter(keep),
            {
                proof {
                    filter_splits(all.take(i as int), all[i as int], keep);
                    assert(all.take(i + 1) =~= all.take(i as int).push(all[i as int]));
                }
                if self.seats[i] != name {
                    seats.push(self.seats[i]);
                }
            }
            assert(all.take(all.len() as int) =~= all);
            proof {
                filter_is_no_longer(all, keep);
            }
            seats.push(name);
            self.seats = seats;
            return GlobalAction::BindSeat {
                version: if version < 7 {
                    version
                } else {
                    7
                },
            };
        }
        GlobalAction::Ignore
    }

    /// Takes note that a global object is gone.
    pub fn global_remove(&mut self, name: u32)
        requires
            old(self).wf(),
        ensures
            final(self).wf(),
            final(self).same_setup(*old(self)),
            final(self).offers@ == old(self).offers@.filter(|p: Pending| p.seat != name),
            final(self).transfers@ == old(self).transfers@.filter(
                |r: Receiving| r.pending.seat != name,
            ),
            final(self).seats@ == old(self).seats@.filter(|s: u32| s != name),
            final(self).budget.used() - held(final(self).transfers@) == old(self).budget.used()
                - held(old(self).transfers@),
            final(self).stays_quiet(*old(self)),
            if old(self).ext == Some(name) || old(self).wlr == Some(name) {
                final(self).error matches Some(message) && message@
                    == "Wayland data-control manager disappeared"@
            } else if old(self).ready && final(self).seats@.len() == 0 {
                final(self).error matches Some(message) && message@
                    == "Wayland capture has no seats"@
            } else {
                final(self).error == old(self).error
            },
    {
        self.remove_seat(name);
        if self.ready && self.seats.len() == 0 {
            self.error = Some("Wayland capture has no seats".to_owned());
        }
        let gone: bool = match self.ext {
            Some(ext) => ext == name,
            None => false,
        } || match self.wlr {
            Some(wlr) => wlr == name,
            None => false,
        };
        if gone {
            self.error = Some("Wayland data-control manager disappeared".to_owned());
        }
    }

    /// Takes note that a seat delivers no more.
    pub fn device_finished(&mut self, seat: u32)
        requires
            old(self).wf(),
        ensures
            final(self).wf(),
            final(self).same_setup(*old(self)),
            final(self).offers@ == old(self).offers@.filter(|p: Pending| p.seat != seat),
            final(self).transfers@ == old(self).transfers@.filter(
                |r: Receiving| r.pending.seat != seat,
            ),
            final(self).seats@ == old(self).seats@.filter(|s: u32| s != seat),
            final(self).budget.used() - held(final(self).transfers@) == old(self).budget.used()
                - held(old(self).transfers@),
            final(self).stays_quiet(*old(self)),
            final(self).error matches Some(message) && message@
                == "Wayland capture device finished"@,
    {
        self.remove_seat(seat);
        self.error = Some("Wayland capture device finished".to_owned());
    }

    /// Picks the global object through which offers come, once all are known.
    pub fn initialize(&mut self) -> (manager: Option<Manager>)
        requires
            old(self).wf(),
        ensures
            final(self).wf(),
            final(self).same_transfers(*old(self)),
            final(self).offers == old(self).offers,
            final(self).seats == old(self).seats,
            final(self).manager == (match old(self).ext {
                Some(name) => Some(Manager::Ext(name)),
                None => match old(self).wlr {
                    Some(name) => Some(Manager::Wlr(name)),
                    None => None,
                },
            }),
            ({
                let usable = final(self).manager is Some && old(self).seats@.len() > 0;
                &&& manager == (if usable {
                    final(self).manager
                } else {
                    None
                })
                &&& if usable {
                    final(self).error == old(self).error
                } else {
                    final(self).error matches Some(message) && message@
                        == "Wayland capture requires data-control and a seat"@
                }
            }),
            final(self).ready == old(self).ready,
            final(self).same_globals(*old(self)),
            final(self).stays_quiet(*old(self)),
    {
        self.manager = match self.ext {
            Some(name) => Some(Manager::Ext(name)),
            None => match self.wlr {
                Some(name) => Some(Manager::Wlr(name)),
                None => None,
            },
        };
        if self.manager.is_none() || self.seats.len() == 0 {
            self.error = Some("Wayland capture requires data-control and a seat".to_owned());
            return None;
        }
        self.manager
    }

    /// Takes note that the compositor has told all there is at the start. True
    /// means that capture runs.
    pub fn settle(&mut self) -> (running: bool)
        requires
            old(self).wf(),
        ensures
            final(self).wf(),
            final(self).same_transfers(*old(self)),
            final(self).offers == old(self).offers,
            final(self).seats == old(self).seats,
            final(self).same_globals(*old(self)),
            final(self).manager == old(self).manager,
            running == (old(self).error is None && old(self).seats@.len() > 0),
            final(self).ready == (old(self).ready || running),
            match old(self).error {
                Some(error) => final(self).error == Some(error),
                None => if running {
                    final(self).error is None
                } else {
                    final(self).error matches Some(message) && message@
                        == "Wayland capture has no seats"@
                },
            },
    {
        if self.error.is_some() {
            return false;
        }
        if self.seats.len() == 0 {
            self.error = Some("Wayland capture has no seats".to_owned());
            return false;
        }
        self.ready = true;
        true
    }

    /// Whether the connection can go on, `elapsed` milliseconds after its start.
    pub fn check(&self, elapsed: u64) -> (result: Result<(), String>)
        ensures
            match self.error {
                Some(error) => result == Err::<(), String>(error),
                None => if !self.ready && elapsed > INITIALIZATION {
                    result matches Err(message) && message@
                        == "Wayland capture initialization timed out"@
                } else {
                    result is Ok
                },
            },
    {
        if let Some(error) = &self.error {
            return Err(error.clone());
        }
        if !self.ready && elapsed > INITIALIZATION {
            return Err("Wayland capture initialization timed out".to_owned());
        }
        Ok(())
    }
}

/// What was on the clipboard when the capture was resumed is not captured: until
/// the compositor has told all there is at the start, nothing is received.
pub proof fn bootstrap_selections_are_discarded(states: Seq<State>)
    requires
        states.len() > 0,
        states[0].waits_for_new(),
        forall|i: int|
            #![trigger states[i]]
            0 < i < states.len() ==> states[i].stays_quiet(states[i - 1]),
    ensures
        forall|i: int| 0 <= i < states.len() ==> (#[trigger] states[i]).waits_for_new(),
    decreases states.len(),
{
    if states.len() > 1 {
        let before = states.drop_last();
        assert forall|i: int|
            #![trigger before[i]]
            0 < i < before.len() implies before[i].stays_quiet(before[i - 1]) by {
            assert(states[i].stays_quiet(states[i - 1]));
        }
        bootstrap_selections_are_discarded(before);
        assert(before[before.len() - 1].waits_for_new());
        assert(states[states.len() - 1].stays_quiet(states[states.len() - 2]));
        assert forall|i: int| 0 <= i < states.len() implies (#[trigger] states[i]).waits_for_new() by {
            if i < before.len() {
                assert(before[i] == states[i]);
            }
        }
    }
}

/// Where the offer with this number stands, or how many there are.
pub open spec fn offer_index(offers: Seq<Pending>, id: u32) -> int
    decreases offers.len(),
{
    if offers.len() == 0 || offers[0].id == id {
        0
    } else {
        1 + offer_index(offers.drop_first(), id)
    }
}

} // verus!
