//! What the epoll registry does for one watched fd over many requests:
//! the event a delivery reports for that fd, and the laws of one-shot and
//! edge-triggered delivery across a sequence of `epoll_pwait` and
//! `epoll_ctl` calls.

use crate::header::sys_epoll::{epoll_event, EPOLLET, EPOLLONESHOT, EPOLL_CTL_DEL};
use crate::platform::seele::epoll::{
    ctl_error, deliver_ready, deliver_step, fresh_registration, lemma_deliver_ready_empty,
    lemma_deliver_ready_unfold, lemma_delivery_bounded, lemma_step_bounded, min_key,
    ready_events, EpollRegistration, STICKY_BITS,
};
use crate::platform::types::c_int;
use vstd::prelude::*;

verus! {

/// A finite map with a key has a least key, and `min_key` is it.
pub proof fn lemma_min_key_exists(ready: Map<c_int, u32>)
    requires
        ready.dom().finite(),
        ready.dom().len() > 0,
    ensures
        ready.contains_key(min_key(ready)),
        forall|j: c_int| ready.contains_key(j) ==> min_key(ready) <= j,
    decreases ready.dom().len(),
{
    let k0 = ready.dom().choose();
    assert(ready.dom().contains(k0));
    let rest = ready.remove(k0);
    assert(rest.dom() =~= ready.dom().remove(k0));
    let w: c_int;
    if rest.dom().len() == 0 {
        w = k0;
        assert forall|j: c_int| ready.contains_key(j) implies w <= j by {
            if j != k0 {
                assert(rest.dom().contains(j));
            }
        }
    } else {
        lemma_min_key_exists(rest);
        let m = min_key(rest);
        w = if m < k0 { m } else { k0 };
        assert forall|j: c_int| ready.contains_key(j) implies w <= j by {
            if j != k0 {
                assert(rest.contains_key(j));
            }
        }
    }
    assert(ready.contains_key(w) && (forall|j: c_int| ready.contains_key(j) ==> w <= j));
}

/// The events a registration that asked for `reg.requested_events` is due
/// when the kernel reports `kernel`: the ready bits, less, under
/// edge-triggered delivery, the sticky conditions it delivered before.
pub open spec fn edge_ready(reg: EpollRegistration, kernel: u32) -> u32 {
    let t = ready_events(reg.requested_events, kernel);
    if reg.requested_events & EPOLLET != 0 {
        t & !reg.delivered_edge_events
    } else {
        t
    }
}

/// The event that a delivery (as `deliver_ready` makes it) hands out for
/// `fd`, if it hands one out.
#[verifier::opaque]
pub open spec fn reported_for(
    regs: Map<c_int, EpollRegistration>,
    ready: Map<c_int, u32>,
    out: Seq<epoll_event>,
    max: nat,
    fd: c_int,
) -> Option<epoll_event>
    decreases ready.dom().len(),
{
    if ready.dom().finite() && ready.contains_key(min_key(ready)) {
        let k = min_key(ready);
        let (r1, o1) = deliver_step(regs, out, k, ready[k], max);
        if k == fd {
            if o1.len() > out.len() {
                Some(o1.last())
            } else {
                None
            }
        } else {
            reported_for(r1, ready.remove(k), o1, max, fd)
        }
    } else {
        None
    }
}

proof fn lemma_reported_for_unfold(
    regs: Map<c_int, EpollRegistration>,
    ready: Map<c_int, u32>,
    out: Seq<epoll_event>,
    max: nat,
    fd: c_int,
    k: c_int,
)
    requires
        ready.dom().finite(),
        ready.contains_key(k),
        forall|j: c_int| ready.contains_key(j) ==> k <= j,
    ensures
        ({
            let s = deliver_step(regs, out, k, ready[k], max);
            reported_for(regs, ready, out, max, fd) == if k == fd {
                if s.1.len() > out.len() {
                    Some(s.1.last())
                } else {
                    None
                }
            } else {
                reported_for(s.0, ready.remove(k), s.1, max, fd)
            }
        }),
{
    reveal(reported_for);
    let m = min_key(ready);
    assert(ready.contains_key(m) && (forall|j: c_int| ready.contains_key(j) ==> m <= j));
    assert(m <= k && k <= m);
}

proof fn lemma_reported_for_empty(
    regs: Map<c_int, EpollRegistration>,
    ready: Map<c_int, u32>,
    out: Seq<epoll_event>,
    max: nat,
    fd: c_int,
)
    requires
        ready.dom() =~= Set::<c_int>::empty(),
    ensures
        reported_for(regs, ready, out, max, fd) is None,
{
    reveal(reported_for);
}

/// `fd`'s own turn in a delivery.
proof fn lemma_step_own(
    regs: Map<c_int, EpollRegistration>,
    out: Seq<epoll_event>,
    fd: c_int,
    kernel: u32,
    max: nat,
)
    requires
        regs.contains_key(fd),
    ensures
        ({
            let s = deliver_step(regs, out, fd, kernel, max);
            let reg = regs[fd];
            let reg1 = s.0[fd];
            &&& s.0.contains_key(fd)
            &&& reg1.requested_events == reg.requested_events
            &&& reg1.data == reg.data
            &&& reg.delivered_edge_events & !reg1.delivered_edge_events == 0
            &&& reg.disabled ==> s == (regs, out)
            &&& s.1.len() > out.len() ==> {
                &&& s.1.last() == (epoll_event { events: edge_ready(reg, kernel), data: reg.data })
                &&& s.1.last().events != 0
                &&& reg.requested_events & EPOLLONESHOT != 0 ==> reg1.disabled
                &&& reg.requested_events & EPOLLET != 0 ==> reg1.delivered_edge_events
                    == reg.delivered_edge_events | (ready_events(reg.requested_events, kernel)
                    & STICKY_BITS)
            }
        }),
{
    let reg = regs[fd];
    let d = reg.delivered_edge_events;
    let t = ready_events(reg.requested_events, kernel);
    let r = t & !d;
    assert(d & !(d | (t & STICKY_BITS & r)) == 0) by (bit_vector);
    assert(d & !d == 0) by (bit_vector);
    assert(d | (t & STICKY_BITS & (t & !d)) == d | (t & STICKY_BITS)) by (bit_vector);
}

/// What a delivery does for one registered fd: the registration keeps its
/// request and data, its delivered sticky conditions only grow, and it is
/// left alone if the kernel did not report the fd. The event it is handed
/// out, if any, is one of the events the delivery hands out; it carries the
/// registration's data and the events it is due (`edge_ready`: the ready
/// bits, less the sticky conditions delivered before under edge-triggered
/// delivery). After that event, an edge-triggered registration has
/// delivered the sticky conditions of the ready bits as well, and a
/// one-shot registration is disabled.
pub proof fn lemma_delivery_for_fd(
    regs: Map<c_int, EpollRegistration>,
    ready: Map<c_int, u32>,
    out: Seq<epoll_event>,
    max: nat,
    fd: c_int,
)
    requires
        ready.dom().finite(),
        regs.contains_key(fd),
        out.len() <= max,
    ensures
        ({
            let d = deliver_ready(regs, ready, out, max);
            let reg = regs[fd];
            let reg1 = d.0[fd];
            &&& d.0.contains_key(fd)
            &&& reg1.requested_events == reg.requested_events
            &&& reg1.data == reg.data
            &&& reg.delivered_edge_events & !reg1.delivered_edge_events == 0
            &&& !ready.contains_key(fd) ==> reg1 == reg
            &&& reg.disabled ==> reg1 == reg
            &&& reported_for(regs, ready, out, max, fd) matches Some(e) ==> {
                &&& ready.contains_key(fd)
                &&& e == (epoll_event { events: edge_ready(reg, ready[fd]), data: reg.data })
                &&& e.events != 0
                &&& d.1.contains(e)
                &&& reg.requested_events & EPOLLONESHOT != 0 ==> reg1.disabled
                &&& reg.requested_events & EPOLLET != 0 ==> reg1.delivered_edge_events
                    == reg.delivered_edge_events | (ready_events(reg.requested_events, ready[fd])
                    & STICKY_BITS)
            }
        }),
    decreases ready.dom().len(),
{
    let reg = regs[fd];
    if ready.dom().len() == 0 {
        assert(ready.dom() =~= Set::<c_int>::empty());
        lemma_deliver_ready_empty(regs, ready, out, max);
        lemma_reported_for_empty(regs, ready, out, max, fd);
        let d0 = reg.delivered_edge_events;
        assert(d0 & !d0 == 0) by (bit_vector);
    } else {
        lemma_min_key_exists(ready);
        let k = min_key(ready);
        let (r1, o1) = deliver_step(regs, out, k, ready[k], max);
        lemma_deliver_ready_unfold(regs, ready, out, max, k);
        lemma_reported_for_unfold(regs, ready, out, max, fd, k);
        lemma_step_bounded(regs, out, k, ready[k], max);
        let rest = ready.remove(k);
        assert(rest.dom() =~= ready.dom().remove(k));
        let d = deliver_ready(r1, rest, o1, max);
        if k == fd {
            lemma_step_own(regs, out, fd, ready[fd], max);
            lemma_delivery_for_fd(r1, rest, o1, max, fd);
            lemma_delivery_bounded(r1, rest, o1, max);
            let r1d = r1[fd].delivered_edge_events;
            let d0 = reg.delivered_edge_events;
            assert(d0 & !r1d == 0);
            if o1.len() > out.len() {
                let e = o1.last();
                assert(d.1[o1.len() - 1] == d.1.subrange(0, o1.len() as int)[o1.len() - 1]);
                assert(d.1.contains(e));
            }
        } else {
            assert(r1.contains_key(fd) && r1[fd] == regs[fd]);
            lemma_delivery_for_fd(r1, rest, o1, max, fd);
        }
    }
}


/// A disabled registration (a one-shot registration that has fired) takes
/// no part in a delivery: the delivery hands it nothing and does exactly
/// what it would do had the kernel not reported its fd.
pub proof fn lemma_disabled_reports_nothing(
    regs: Map<c_int, EpollRegistration>,
    ready: Map<c_int, u32>,
    out: Seq<epoll_event>,
    max: nat,
    fd: c_int,
)
    requires
        ready.dom().finite(),
        regs.contains_key(fd),
        regs[fd].disabled,
    ensures
        reported_for(regs, ready, out, max, fd) is None,
        deliver_ready(regs, ready, out, max) == deliver_ready(regs, ready.remove(fd), out, max),
    decreases ready.dom().len(),
{
    if ready.dom().len() == 0 {
        assert(ready.dom() =~= Set::<c_int>::empty());
        lemma_reported_for_empty(regs, ready, out, max, fd);
        assert(ready.remove(fd) =~= ready);
    } else {
        lemma_min_key_exists(ready);
        let k = min_key(ready);
        let (r1, o1) = deliver_step(regs, out, k, ready[k], max);
        lemma_deliver_ready_unfold(regs, ready, out, max, k);
        lemma_reported_for_unfold(regs, ready, out, max, fd, k);
        let rest = ready.remove(k);
        assert(rest.dom() =~= ready.dom().remove(k));
        if k == fd {
            assert(ready.remove(fd) == rest);
        } else {
            assert(r1.contains_key(fd) && r1[fd] == regs[fd]);
            lemma_disabled_reports_nothing(r1, rest, o1, max, fd);
            let without = ready.remove(fd);
            assert(without.contains_key(k));
            assert(forall|j: c_int| without.contains_key(j) ==> k <= j);
            lemma_deliver_ready_unfold(regs, without, out, max, k);
            assert(without[k] == ready[k]);
            assert(without.remove(k) =~= rest.remove(fd));
        }
    }
}


/// A request made of the epoll registry, as the laws below see it.
pub enum EpollRequest {
    /// `epoll_pwait` on `epfd`, once the kernel has reported `ready` (its
    /// reports merged by fd), with room for `max` events.
    Wait { epfd: c_int, ready: Map<c_int, u32>, max: nat },
    /// `epoll_ctl(epfd, op, fd, event)`.
    Ctl { epfd: c_int, op: c_int, fd: c_int, event: Option<epoll_event> },
}

/// The registry after `q`, and the events that `q` hands out: what
/// `EpollRegistry::collect_ready` and `EpollRegistry::ctl` do (a refused or
/// failed request changes nothing and hands out nothing).
pub open spec fn apply_request(
    v: Map<c_int, Map<c_int, EpollRegistration>>,
    q: EpollRequest,
) -> (Map<c_int, Map<c_int, EpollRegistration>>, Seq<epoll_event>) {
    match q {
        EpollRequest::Wait { epfd, ready, max } => if v.contains_key(epfd) {
            let d = deliver_ready(v[epfd], ready, Seq::empty(), max);
            (v.insert(epfd, d.0), d.1)
        } else {
            (v, Seq::empty())
        },
        EpollRequest::Ctl { epfd, op, fd, event } => if ctl_error(v, epfd, op, fd, event) is Some {
            (v, Seq::empty())
        } else if op == EPOLL_CTL_DEL {
            (v.insert(epfd, v[epfd].remove(fd)), Seq::empty())
        } else {
            (v.insert(epfd, v[epfd].insert(fd, fresh_registration(event->0))), Seq::empty())
        },
    }
}

/// The registry after the requests `qs`, made in order from `v`.
pub open spec fn registry_after(
    v: Map<c_int, Map<c_int, EpollRegistration>>,
    qs: Seq<EpollRequest>,
) -> Map<c_int, Map<c_int, EpollRegistration>>
    decreases qs.len(),
{
    if qs.len() == 0 {
        v
    } else {
        apply_request(registry_after(v, qs.drop_last()), qs.last()).0
    }
}

/// The kernel's reports of a wait are finite.
pub open spec fn well_formed_request(q: EpollRequest) -> bool {
    match q {
        EpollRequest::Wait { ready, .. } => ready.dom().finite(),
        _ => true,
    }
}

/// `q` is an `epoll_ctl` that succeeds on the registration of `fd` with
/// `epfd` (re-arming, replacing or removing it).
pub open spec fn touches(
    v: Map<c_int, Map<c_int, EpollRegistration>>,
    q: EpollRequest,
    epfd: c_int,
    fd: c_int,
) -> bool {
    match q {
        EpollRequest::Ctl { epfd: e, op, fd: f, event } => e == epfd && f == fd && ctl_error(
            v,
            e,
            op,
            f,
            event,
        ) is None,
        _ => false,
    }
}

/// The event that `q`, made on `v`, hands out for the registration of `fd`
/// with `epfd`, if it hands one out.
pub open spec fn reported_by(
    v: Map<c_int, Map<c_int, EpollRegistration>>,
    q: EpollRequest,
    epfd: c_int,
    fd: c_int,
) -> Option<epoll_event> {
    match q {
        EpollRequest::Wait { epfd: e, ready, max } => if e == epfd && v.contains_key(e) {
            reported_for(v[e], ready, Seq::empty(), max, fd)
        } else {
            None
        },
        _ => None,
    }
}

/// `q` as it would be had the kernel not reported `fd` to `epfd`.
pub open spec fn silenced(q: EpollRequest, epfd: c_int, fd: c_int) -> EpollRequest {
    match q {
        EpollRequest::Wait { epfd: e, ready, max } => if e == epfd {
            EpollRequest::Wait { epfd: e, ready: ready.remove(fd), max }
        } else {
            q
        },
        _ => q,
    }
}

proof fn lemma_registry_after_take(
    v: Map<c_int, Map<c_int, EpollRegistration>>,
    qs: Seq<EpollRequest>,
    n: int,
)
    requires
        0 <= n < qs.len(),
    ensures
        registry_after(v, qs.take(n + 1)) == apply_request(registry_after(v, qs.take(n)), qs[n]).0,
{
    assert(qs.take(n + 1).drop_last() =~= qs.take(n));
    assert(qs.take(n + 1).last() == qs[n]);
}

proof fn lemma_edge_bits(t: u32, d: u32)
    ensures
        (t & !d) & d == 0,
        (t & !d) & STICKY_BITS & !(d | (t & STICKY_BITS)) == 0,
{
    assert((t & !d) & d == 0) by (bit_vector);
    assert((t & !d) & STICKY_BITS & !(d | (t & STICKY_BITS)) == 0) by (bit_vector);
}

/// One request, seen from the registration of `fd` with `epfd`, when the
/// request does not touch that registration.
proof fn lemma_request_for_fd(
    v: Map<c_int, Map<c_int, EpollRegistration>>,
    q: EpollRequest,
    epfd: c_int,
    fd: c_int,
)
    requires
        v.contains_key(epfd),
        v[epfd].contains_key(fd),
        well_formed_request(q),
        !touches(v, q, epfd, fd),
    ensures
        ({
            let v1 = apply_request(v, q).0;
            let reg = v[epfd][fd];
            let reg1 = v1[epfd][fd];
            &&& v1.contains_key(epfd)
            &&& v1[epfd].contains_key(fd)
            &&& reg1.requested_events == reg.requested_events
            &&& reg1.data == reg.data
            &&& reg.delivered_edge_events & !reg1.delivered_edge_events == 0
            &&& reg.disabled ==> {
                &&& reg1 == reg
                &&& reported_by(v, q, epfd, fd) is None
                &&& apply_request(v, q).1 == apply_request(v, silenced(q, epfd, fd)).1
            }
            &&& reported_by(v, q, epfd, fd) matches Some(e) ==> {
                &&& reg.requested_events & EPOLLONESHOT != 0 ==> reg1.disabled
                &&& reg.requested_events & EPOLLET != 0 ==> {
                    &&& e.events & reg.delivered_edge_events == 0
                    &&& e.events & STICKY_BITS & !reg1.delivered_edge_events == 0
                }
            }
        }),
{
    let reg = v[epfd][fd];
    let d0 = reg.delivered_edge_events;
    assert(d0 & !d0 == 0) by (bit_vector);
    match q {
        EpollRequest::Wait { epfd: e, ready, max } => {
            if v.contains_key(e) && e == epfd {
                lemma_delivery_for_fd(v[epfd], ready, Seq::empty(), max, fd);
                if reg.disabled {
                    lemma_disabled_reports_nothing(v[epfd], ready, Seq::empty(), max, fd);
                }
                if ready.contains_key(fd) {
                    lemma_edge_bits(ready_events(reg.requested_events, ready[fd]), d0);
                }
            }
        },
        EpollRequest::Ctl { epfd: e, op, fd: f, event } => {},
    }
}

/// Along requests that leave the registration of `fd` with `epfd` alone,
/// the registration stays, with its request and data, and the sticky
/// conditions it has delivered only grow.
proof fn lemma_history_keeps_registration(
    v: Map<c_int, Map<c_int, EpollRegistration>>,
    qs: Seq<EpollRequest>,
    epfd: c_int,
    fd: c_int,
    n: int,
)
    requires
        v.contains_key(epfd),
        v[epfd].contains_key(fd),
        forall|i: int| 0 <= i < qs.len() ==> well_formed_request(#[trigger] qs[i]),
        forall|i: int|
            0 <= i < qs.len() ==> !touches(registry_after(v, qs.take(i)), #[trigger] qs[i], epfd, fd),
        0 <= n <= qs.len(),
    ensures
        ({
            let s = registry_after(v, qs.take(n));
            &&& s.contains_key(epfd)
            &&& s[epfd].contains_key(fd)
            &&& s[epfd][fd].requested_events == v[epfd][fd].requested_events
            &&& s[epfd][fd].data == v[epfd][fd].data
            &&& forall|a: int|
                0 <= a <= n ==> #[trigger] registry_after(v, qs.take(a))[epfd][fd].delivered_edge_events
                    & !s[epfd][fd].delivered_edge_events == 0
        }),
    decreases n,
{
    let s = registry_after(v, qs.take(n));
    if n == 0 {
        assert(qs.take(0) =~= Seq::<EpollRequest>::empty());
        let d0 = v[epfd][fd].delivered_edge_events;
        assert(d0 & !d0 == 0) by (bit_vector);
    } else {
        lemma_history_keeps_registration(v, qs, epfd, fd, n - 1);
        lemma_registry_after_take(v, qs, n - 1);
        let p = registry_after(v, qs.take(n - 1));
        lemma_request_for_fd(p, qs[n - 1], epfd, fd);
        let dp = p[epfd][fd].delivered_edge_events;
        let dn = s[epfd][fd].delivered_edge_events;
        assert forall|a: int| 0 <= a <= n implies #[trigger] registry_after(
            v,
            qs.take(a),
        )[epfd][fd].delivered_edge_events & !dn == 0 by {
            if a < n {
                let da = registry_after(v, qs.take(a))[epfd][fd].delivered_edge_events;
                assert(da & !dp == 0);
                assert(da & !dn == 0) by (bit_vector)
                    requires
                        da & !dp == 0,
                        dp & !dn == 0,
                ;
            } else {
                assert(dn & !dn == 0) by (bit_vector);
            }
        }
    }
}


/// From a request `start` on which the registration is disabled, it stays
/// as it is and takes no part in the waits, up to request `n`.
proof fn lemma_silent_from(
    v: Map<c_int, Map<c_int, EpollRegistration>>,
    qs: Seq<EpollRequest>,
    epfd: c_int,
    fd: c_int,
    start: int,
    n: int,
)
    requires
        v.contains_key(epfd),
        v[epfd].contains_key(fd),
        forall|i: int| 0 <= i < qs.len() ==> well_formed_request(#[trigger] qs[i]),
        forall|i: int|
            0 <= i < qs.len() ==> !touches(registry_after(v, qs.take(i)), #[trigger] qs[i], epfd, fd),
        0 <= start <= n <= qs.len(),
        registry_after(v, qs.take(start))[epfd][fd].disabled,
    ensures
        registry_after(v, qs.take(n))[epfd][fd] == registry_after(v, qs.take(start))[epfd][fd],
        forall|i: int|
            start <= i < n ==> {
                let s = registry_after(v, qs.take(i));
                &&& reported_by(s, #[trigger] qs[i], epfd, fd) is None
                &&& apply_request(s, qs[i]).1 == apply_request(s, silenced(qs[i], epfd, fd)).1
            },
    decreases n - start,
{
    if n > start {
        lemma_silent_from(v, qs, epfd, fd, start, n - 1);
        lemma_history_keeps_registration(v, qs, epfd, fd, n - 1);
        lemma_registry_after_take(v, qs, n - 1);
        let p = registry_after(v, qs.take(n - 1));
        assert(p[epfd][fd].disabled);
        lemma_request_for_fd(p, qs[n - 1], epfd, fd);
        assert forall|i: int| start <= i < n implies {
            let s = registry_after(v, qs.take(i));
            &&& reported_by(s, #[trigger] qs[i], epfd, fd) is None
            &&& apply_request(s, qs[i]).1 == apply_request(s, silenced(qs[i], epfd, fd)).1
        } by {
            if i == n - 1 {
                assert(registry_after(v, qs.take(i)) == p);
            }
        }
    }
}

/// One-shot delivery, across requests: once a one-shot registration of `fd`
/// with `epfd` has fired (it is disabled), every later `epoll_pwait` hands
/// it nothing and hands out exactly what it would had the kernel not
/// reported `fd`, until an `epoll_ctl` on that registration succeeds
/// (`EPOLL_CTL_MOD` re-arms it, `EPOLL_CTL_DEL` removes it).
pub proof fn lemma_fired_oneshot_stays_silent(
    v: Map<c_int, Map<c_int, EpollRegistration>>,
    qs: Seq<EpollRequest>,
    epfd: c_int,
    fd: c_int,
)
    requires
        v.contains_key(epfd),
        v[epfd].contains_key(fd),
        v[epfd][fd].disabled,
        forall|i: int| 0 <= i < qs.len() ==> well_formed_request(#[trigger] qs[i]),
        forall|i: int|
            0 <= i < qs.len() ==> !touches(registry_after(v, qs.take(i)), #[trigger] qs[i], epfd, fd),
    ensures
        forall|i: int|
            0 <= i < qs.len() ==> {
                let s = registry_after(v, qs.take(i));
                &&& reported_by(s, #[trigger] qs[i], epfd, fd) is None
                &&& apply_request(s, qs[i]).1 == apply_request(s, silenced(qs[i], epfd, fd)).1
            },
        registry_after(v, qs)[epfd][fd] == v[epfd][fd],
{
    assert(qs.take(0) =~= Seq::<EpollRequest>::empty());
    assert(qs.take(qs.len() as int) =~= qs);
    lemma_silent_from(v, qs, epfd, fd, 0, qs.len() as int);
}

/// A one-shot registration of `fd` with `epfd` is handed at most one event
/// by the `epoll_pwait` calls made until an `epoll_ctl` on that
/// registration succeeds.
pub proof fn lemma_oneshot_reports_once(
    v: Map<c_int, Map<c_int, EpollRegistration>>,
    qs: Seq<EpollRequest>,
    epfd: c_int,
    fd: c_int,
)
    requires
        v.contains_key(epfd),
        v[epfd].contains_key(fd),
        v[epfd][fd].requested_events & EPOLLONESHOT != 0,
        forall|i: int| 0 <= i < qs.len() ==> well_formed_request(#[trigger] qs[i]),
        forall|i: int|
            0 <= i < qs.len() ==> !touches(registry_after(v, qs.take(i)), #[trigger] qs[i], epfd, fd),
    ensures
        forall|i: int, j: int|
            0 <= i < j < qs.len() ==> !(reported_by(registry_after(v, qs.take(i)), #[trigger] qs[i], epfd, fd) is Some
                && reported_by(registry_after(v, qs.take(j)), #[trigger] qs[j], epfd, fd) is Some),
{
    assert forall|i: int, j: int|
        0 <= i < j < qs.len() implies !(reported_by(registry_after(v, qs.take(i)), #[trigger] qs[i], epfd, fd) is Some
            && reported_by(registry_after(v, qs.take(j)), #[trigger] qs[j], epfd, fd) is Some) by {
        let si = registry_after(v, qs.take(i));
        if reported_by(si, qs[i], epfd, fd) is Some {
            lemma_history_keeps_registration(v, qs, epfd, fd, i);
            lemma_request_for_fd(si, qs[i], epfd, fd);
            lemma_registry_after_take(v, qs, i);
            lemma_silent_from(v, qs, epfd, fd, i + 1, j + 1);
        }
    }
}

/// Two events, where both are handed out, have no sticky condition in
/// common.
pub open spec fn share_no_sticky(a: Option<epoll_event>, b: Option<epoll_event>) -> bool {
    match (a, b) {
        (Some(x), Some(y)) => x.events & y.events & STICKY_BITS == 0,
        _ => true,
    }
}

/// Edge-triggered delivery, across requests: each sticky condition (error,
/// hang-up, read hang-up) is handed to an edge-triggered registration of
/// `fd` with `epfd` at most once by the `epoll_pwait` calls made until an
/// `epoll_ctl` on that registration succeeds (which starts it afresh).
pub proof fn lemma_edge_conditions_reported_once(
    v: Map<c_int, Map<c_int, EpollRegistration>>,
    qs: Seq<EpollRequest>,
    epfd: c_int,
    fd: c_int,
)
    requires
        v.contains_key(epfd),
        v[epfd].contains_key(fd),
        v[epfd][fd].requested_events & EPOLLET != 0,
        forall|i: int| 0 <= i < qs.len() ==> well_formed_request(#[trigger] qs[i]),
        forall|i: int|
            0 <= i < qs.len() ==> !touches(registry_after(v, qs.take(i)), #[trigger] qs[i], epfd, fd),
    ensures
        forall|i: int, j: int|
            0 <= i < j < qs.len() ==> share_no_sticky(
                reported_by(registry_after(v, qs.take(i)), #[trigger] qs[i], epfd, fd),
                reported_by(registry_after(v, qs.take(j)), #[trigger] qs[j], epfd, fd),
            ),
{
    assert forall|i: int, j: int| 0 <= i < j < qs.len() implies share_no_sticky(
        reported_by(registry_after(v, qs.take(i)), #[trigger] qs[i], epfd, fd),
        reported_by(registry_after(v, qs.take(j)), #[trigger] qs[j], epfd, fd),
    ) by {
        let si = registry_after(v, qs.take(i));
        let sj = registry_after(v, qs.take(j));
        if reported_by(si, qs[i], epfd, fd) is Some && reported_by(sj, qs[j], epfd, fd) is Some {
            let ei = reported_by(si, qs[i], epfd, fd)->Some_0;
            let ej = reported_by(sj, qs[j], epfd, fd)->Some_0;
            lemma_history_keeps_registration(v, qs, epfd, fd, i);
            lemma_history_keeps_registration(v, qs, epfd, fd, j);
            lemma_registry_after_take(v, qs, i);
            lemma_request_for_fd(si, qs[i], epfd, fd);
            lemma_request_for_fd(sj, qs[j], epfd, fd);
            let d1 = registry_after(v, qs.take(i + 1))[epfd][fd].delivered_edge_events;
            let dj = sj[epfd][fd].delivered_edge_events;
            assert(d1 & !dj == 0);
            let a = ei.events;
            let b = ej.events;
            assert(a & STICKY_BITS & !d1 == 0);
            assert(b & dj == 0);
            assert(a & b & STICKY_BITS == 0) by (bit_vector)
                requires
                    a & STICKY_BITS & !d1 == 0,
                    d1 & !dj == 0,
                    b & dj == 0,
            ;
        }
    }
}

} // verus!
