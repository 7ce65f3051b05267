//! Things that are handed out under an identifier, for a time, and taken back
//! once.
use crate::text;
use vstd::prelude::*;

verus! {

/// One thing that was handed out, until a moment in milliseconds.
pub struct Lease<T> {
    pub id: String,
    pub expires: u64,
    pub value: T,
}

/// What was handed out and not taken back.
pub struct Leases<T> {
    pub list: Vec<Lease<T>>,
}

/// What came of taking something back.
pub enum Taken<T> {
    Unknown,
    Expired,
    Granted(T),
}

/// Where the lease with this identifier stands, or how many there are.
pub open spec fn place<T>(list: Seq<Lease<T>>, id: Seq<char>) -> int
    decreases list.len(),
{
    if list.len() == 0 || list[0].id@ == id {
        0
    } else {
        1 + place(list.drop_first(), id)
    }
}

/// No identifier occurs twice.
pub open spec fn distinct<T>(list: Seq<Lease<T>>) -> bool {
    forall|i: int, j: int| 0 <= i < j < list.len() ==> list[i].id@ != list[j].id@
}

/// The leases that are still good at `now`.
pub open spec fn lasting<T>(list: Seq<Lease<T>>, now: u64) -> Seq<Lease<T>>
    decreases list.len(),
{
    if list.len() == 0 {
        list
    } else if list.last().expires > now {
        lasting(list.drop_last(), now).push(list.last())
    } else {
        lasting(list.drop_last(), now)
    }
}

/// The moment `time` milliseconds after `now`.
pub open spec fn after(now: u64, time: u64) -> u64 {
    if now <= u64::MAX - time {
        (now + time) as u64
    } else {
        u64::MAX
    }
}

/// The moment `time` milliseconds after `now`.
pub fn deadline(now: u64, time: u64) -> (moment: u64)
    ensures
        moment == after(now, time),
{
    if now <= u64::MAX - time {
        now + time
    } else {
        u64::MAX
    }
}

/// The place of an identifier is where it first occurs.
pub proof fn place_is_first<T>(list: Seq<Lease<T>>, id: Seq<char>)
    ensures
        0 <= place(list, id) <= list.len(),
        place(list, id) < list.len() ==> list[place(list, id)].id@ == id,
        forall|i: int| 0 <= i < place(list, id) ==> list[i].id@ != id,
    decreases list.len(),
{
    if list.len() > 0 && list[0].id@ != id {
        place_is_first(list.drop_first(), id);
        assert forall|i: int| 0 <= i < place(list, id) implies list[i].id@ != id by {
            if i > 0 {
                assert(list[i] == list.drop_first()[i - 1]);
            }
        }
    }
}

/// What was taken back is not there to be taken again.
pub proof fn a_lease_is_taken_once<T>(list: Seq<Lease<T>>, id: Seq<char>)
    requires
        distinct(list),
        place(list, id) < list.len(),
    ensures
        distinct(list.remove(place(list, id))),
        place(list.remove(place(list, id)), id) == list.len() - 1,
{
    let at = place(list, id);
    let rest = list.remove(at);
    place_is_first(list, id);
    place_is_first(rest, id);
    let again = place(rest, id);
    if again < rest.len() {
        let i = if again < at {
            again
        } else {
            again + 1
        };
        assert(rest[again] == list[i]);
        assert(list[i].id@ == list[at].id@);
    }
}

/// Forgetting what has expired leaves what is good, and brings nothing in.
pub proof fn lasting_is_kept<T>(list: Seq<Lease<T>>, now: u64)
    ensures
        lasting(list, now).len() <= list.len(),
        forall|i: int|
            0 <= i < lasting(list, now).len() ==> (#[trigger] lasting(list, now)[i]).expires > now
                && list.contains(lasting(list, now)[i]),
        forall|i: int|
            0 <= i < list.len() && (#[trigger] list[i]).expires > now ==> lasting(
                list,
                now,
            ).contains(list[i]),
    decreases list.len(),
{
    if list.len() > 0 {
        let front = list.drop_last();
        lasting_is_kept(front, now);
        assert forall|i: int| 0 <= i < lasting(list, now).len() implies (#[trigger] lasting(
            list,
            now,
        )[i]).expires > now && list.contains(lasting(list, now)[i]) by {
            let kept = lasting(list, now)[i];
            if i < lasting(front, now).len() {
                assert(kept == lasting(front, now)[i]);
                let k = choose|k: int| 0 <= k < front.len() && front[k] == kept;
                assert(list[k] == kept);
            } else {
                assert(list[list.len() - 1] == kept);
            }
        }
        assert forall|i: int| 0 <= i < list.len() && (#[trigger] list[i]).expires > now implies lasting(
            list,
            now,
        ).contains(list[i]) by {
            if i < front.len() {
                assert(front[i] == list[i]);
                let k = choose|k: int|
                    0 <= k < lasting(front, now).len() && lasting(front, now)[k] == list[i];
                assert(lasting(list, now)[k] == list[i]);
            } else {
                assert(lasting(list, now).last() == list[i]);
            }
        }
    }
}

/// Of distinct leases, those that last are distinct.
proof fn lasting_is_distinct<T>(list: Seq<Lease<T>>, now: u64)
    requires
        distinct(list),
    ensures
        distinct(lasting(list, now)),
    decreases list.len(),
{
    if list.len() > 0 {
        let front = list.drop_last();
        lasting_is_distinct(front, now);
        lasting_is_kept(front, now);
        let kept = lasting(list, now);
        assert forall|i: int, j: int| 0 <= i < j < kept.len() implies kept[i].id@ != kept[j].id@ by {
            if j < lasting(front, now).len() {
                assert(kept[i] == lasting(front, now)[i] && kept[j] == lasting(front, now)[j]);
            } else {
                assert(kept[i] == lasting(front, now)[i]);
                let k = choose|k: int| 0 <= k < front.len() && front[k] == kept[i];
                assert(list[k] == kept[i]);
            }
        }
    }
}

impl<T> Leases<T> {
    /// No identifier is in use twice.
    pub open spec fn wf(self) -> bool {
        distinct(self.list@)
    }

    pub fn new() -> (leases: Self)
        ensures
            leases.wf(),
            leases.list@.len() == 0,
    {
        Leases { list: Vec::new() }
    }

    fn find(&self, id: &str) -> (at: usize)
        ensures
            at == place(self.list@, id@),
            at <= self.list@.len(),
    {
        let mut at: usize = 0;
        assert(self.list@.skip(0) =~= self.list@);
        while at < self.list.len()
            invariant
                at <= self.list@.len(),
                place(self.list@, id@) == at + place(self.list@.skip(at as int), id@),
            decreases self.list@.len() - at,
        {
            if text::same(self.list[at].id.as_str(), id) {
                return at;
            }
            assert(self.list@.skip(at as int).drop_first() =~= self.list@.skip(at + 1));
            at = at + 1;
        }
        at
    }

    /// What is handed out under other identifiers.
    pub open spec fn without(self, id: Seq<char>) -> Seq<Lease<T>> {
        let at = place(self.list@, id);
        if at < self.list@.len() {
            self.list@.remove(at)
        } else {
            self.list@
        }
    }

    /// Hands something out. What had the identifier before is forgotten.
    pub fn issue(&mut self, id: String, value: T, expires: u64)
        requires
            old(self).wf(),
        ensures
            final(self).wf(),
            final(self).list@ == old(self).without(id@).push(Lease { id, expires, value }),
            place(final(self).list@, id@) == final(self).list@.len() - 1,
    {
        let at = self.find(id.as_str());
        proof {
            place_is_first(self.list@, id@);
        }
        if at < self.list.len() {
            proof {
                a_lease_is_taken_once(self.list@, id@);
            }
            self.list.remove(at);
        }
        let ghost others = self.list@;
        proof {
            place_is_first(others, id@);
        }
        let ghost name = id@;
        self.list.push(Lease { id, expires, value });
        proof {
            let at = place(self.list@, name);
            place_is_first(self.list@, name);
            assert(self.list@[others.len() as int].id@ == name);
            if at < others.len() {
                assert(self.list@[at] == others[at]);
            }
        }
    }

    /// Takes back what was handed out under `id`, where it is still good.
    pub fn take(&mut self, id: &str, now: u64) -> (taken: Taken<T>)
        requires
            old(self).wf(),
        ensures
            final(self).wf(),
            final(self).list@ == old(self).without(id@),
            place(final(self).list@, id@) == final(self).list@.len(),
            ({
                let at = place(old(self).list@, id@);
                if at == old(self).list@.len() {
                    taken is Unknown
                } else if old(self).list@[at].expires <= now {
                    taken is Expired
                } else {
                    taken == Taken::Granted(old(self).list@[at].value)
                }
            }),
    {
        let at = self.find(id);
        if at == self.list.len() {
            return Taken::Unknown;
        }
        proof {
            a_lease_is_taken_once(self.list@, id@);
        }
        let lease = self.list.remove(at);
        if lease.expires <= now {
            Taken::Expired
        } else {
            Taken::Granted(lease.value)
        }
    }

    /// Takes back what was handed out under `id`, good or not; whether there
    /// was anything.
    pub fn cancel(&mut self, id: &str) -> (cancelled: bool)
        requires
            old(self).wf(),
        ensures
            final(self).wf(),
            final(self).list@ == old(self).without(id@),
            place(final(self).list@, id@) == final(self).list@.len(),
            cancelled == (place(old(self).list@, id@) < old(self).list@.len()),
    {
        let at = self.find(id);
        if at == self.list.len() {
            return false;
        }
        proof {
            a_lease_is_taken_once(self.list@, id@);
        }
        self.list.remove(at);
        true
    }

    /// Forgets what has expired.
    pub fn expire(&mut self, now: u64)
        requires
            old(self).wf(),
        ensures
            final(self).wf(),
            final(self).list@ == lasting(old(self).list@, now),
    {
        let mut list: Vec<Lease<T>> = Vec::new();
        std::mem::swap(&mut list, &mut self.list);
        let ghost all = list@;
        proof {
            lasting_is_distinct(all, now);
        }
        let ghost mut done: Seq<Lease<T>> = Seq::empty();
        while list.len() > 0
            invariant
                all == done + list@,
                self.list@ == lasting(done, now),
            decreases list@.len(),
        {
            let ghost rest = list@;
            let lease = list.remove(0);
            proof {
                assert(done.push(lease).drop_last() =~= done);
                assert(done + rest =~= done.push(lease) + list@);
                done = done.push(lease);
            }
            if lease.expires > now {
                self.list.push(lease);
            }
        }
        assert(done =~= all);
    }

    /// Forgets everything.
    pub fn clear(&mut self)
        ensures
            final(self).wf(),
            final(self).list@.len() == 0,
    {
        self.list = Vec::new();
    }
}

} // verus!
