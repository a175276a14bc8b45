//! epoll on Seele: Seele's poller reports readiness per (fd, kernel event)
//! pair; this module keeps the epoll registrations of every epoll instance
//! and turns the poller's reports into Linux epoll events, with
//! edge-triggered and one-shot delivery.

use crate::error::Errno;
use crate::header::errno::{EEXIST, EINVAL, ENOENT};
use crate::header::sys_epoll::{
    epoll_event, EPOLLERR, EPOLLET, EPOLLHUP, EPOLLIN, EPOLLONESHOT, EPOLLOUT, EPOLLPRI,
    EPOLLRDBAND, EPOLLRDHUP, EPOLLRDNORM, EPOLLWRBAND, EPOLLWRNORM, EPOLL_CTL_ADD, EPOLL_CTL_DEL,
    EPOLL_CTL_MOD,
};
use crate::platform::seele::epoll_history::{apply_request, EpollRequest};
use crate::platform::seele::key_order::lemma_keys_increasing;
use crate::platform::types::c_int;
use std::collections::BTreeMap;
use vstd::prelude::*;
use vstd::std_specs::iter::IteratorSpec;

verus! {

pub const READABLE_BITS: u32 = EPOLLIN | EPOLLPRI | EPOLLRDNORM | EPOLLRDBAND;
pub const WRITABLE_BITS: u32 = EPOLLOUT | EPOLLWRNORM | EPOLLWRBAND;
/// The conditions that stay reported until they are consumed once under
/// edge-triggered delivery.
pub const STICKY_BITS: u32 = EPOLLERR | EPOLLHUP | EPOLLRDHUP;

/// The kinds of readiness that Seele's poller watches for.
#[derive(Clone, Copy, Debug, PartialEq, Eq, Structural)]
pub enum PollEvent {
    CanBeRead,
    CanBeWritten,
    Error,
    Closed,
}

/// One report of Seele's poller: the data word given when the watch was
/// added (the watched fd) and the ready bits, in epoll's bit layout.
#[derive(Clone, Copy, Debug, PartialEq, Eq, Structural)]
pub struct PollResult {
    pub data: u64,
    pub events: u32,
}

/// What one fd asked of one epoll instance.
#[derive(Clone, Copy, Debug, PartialEq, Eq, Structural)]
pub struct EpollRegistration {
    pub requested_events: u32,
    pub data: u64,
    pub delivered_edge_events: u32,
    pub disabled: bool,
}

/// The registrations of one epoll instance, by watched fd.
pub struct EpollState {
    pub registrations: BTreeMap<c_int, EpollRegistration>,
}

/// Every epoll instance of the process, by epoll fd.
pub struct EpollRegistry {
    pub states: BTreeMap<c_int, EpollState>,
}

/// The kernel watches that an `epoll_ctl` call leaves to be made.
#[derive(Clone, Copy, Debug)]
pub enum EpollKernelUpdate {
    /// Drop the fd's kernel watches and add the listed ones.
    Rearm([Option<PollEvent>; 4]),
    /// Drop the fd's kernel watches.
    Unregister,
}

impl View for EpollRegistry {
    type V = Map<c_int, Map<c_int, EpollRegistration>>;

    open spec fn view(&self) -> Map<c_int, Map<c_int, EpollRegistration>> {
        self.states@.map_values(|s: EpollState| s.registrations@)
    }
}

/// The option that holds `e` exactly when `b`.
pub open spec fn when(b: bool, e: PollEvent) -> Option<PollEvent> {
    if b {
        Some(e)
    } else {
        None
    }
}

/// The kernel watches that stand for the epoll bits `bits`: readability,
/// writability, and, whenever anything is watched or asked for, errors and
/// hang-ups.
pub open spec fn kernel_watches(bits: u32) -> Seq<Option<PollEvent>> {
    let read = bits & READABLE_BITS != 0;
    let write = bits & WRITABLE_BITS != 0;
    seq![
        when(read, PollEvent::CanBeRead),
        when(write, PollEvent::CanBeWritten),
        when(read || write || bits & EPOLLERR != 0, PollEvent::Error),
        when(read || write || bits & (EPOLLHUP | EPOLLRDHUP) != 0, PollEvent::Closed),
    ]
}

/// The epoll bits reported for a registration that asked for `requested`
/// when the kernel reports `kernel`: the requested readable bits if the fd
/// is readable, the requested writable bits if it is writable, errors and
/// hang-ups always, and a read hang-up if one was asked for and the fd hung
/// up.
pub open spec fn ready_events(requested: u32, kernel: u32) -> u32 {
    (if kernel & EPOLLIN != 0 { requested & READABLE_BITS } else { 0 }) | (if kernel & EPOLLOUT
        != 0 {
        requested & WRITABLE_BITS
    } else {
        0
    }) | (kernel & EPOLLERR) | (kernel & EPOLLHUP) | (if kernel & EPOLLHUP != 0 {
        requested & EPOLLRDHUP
    } else {
        0
    })
}

/// How many reports `epoll_pwait` may collect for `maxevents`: a count
/// that is not positive is refused with `EINVAL`.
pub fn epoll_wait_capacity(maxevents: c_int) -> (r: Result<usize, Errno>)
    ensures
        r == if maxevents <= 0 {
            Err(Errno(EINVAL))
        } else {
            Ok(maxevents as usize)
        },
{
    if maxevents <= 0 {
        return Err(Errno(EINVAL));
    }
    Ok(maxevents as usize)
}

/// The kernel watches for epoll bits, kind by kind: readability exactly when
/// a readable bit is asked for, writability exactly when a writable bit is
/// asked for (each whatever else is asked for), errors when anything is
/// watched or `EPOLLERR` is asked for, and hang-ups when anything is
/// watched or `EPOLLHUP`/`EPOLLRDHUP` is asked for.
pub proof fn lemma_kernel_watches_by_kind(bits: u32)
    ensures
        kernel_watches(bits).len() == 4,
        kernel_watches(bits)[0] == (if bits & (EPOLLIN | EPOLLPRI | EPOLLRDNORM | EPOLLRDBAND) != 0 {
            Some(PollEvent::CanBeRead)
        } else {
            None
        }),
        kernel_watches(bits)[1] == (if bits & (EPOLLOUT | EPOLLWRNORM | EPOLLWRBAND) != 0 {
            Some(PollEvent::CanBeWritten)
        } else {
            None
        }),
        kernel_watches(bits)[2] == (if bits & (EPOLLIN | EPOLLPRI | EPOLLRDNORM | EPOLLRDBAND
            | EPOLLOUT | EPOLLWRNORM | EPOLLWRBAND | EPOLLERR) != 0 {
            Some(PollEvent::Error)
        } else {
            None
        }),
        kernel_watches(bits)[3] == (if bits & (EPOLLIN | EPOLLPRI | EPOLLRDNORM | EPOLLRDBAND
            | EPOLLOUT | EPOLLWRNORM | EPOLLWRBAND | EPOLLHUP | EPOLLRDHUP) != 0 {
            Some(PollEvent::Closed)
        } else {
            None
        }),
{
    let r = bits & (EPOLLIN | EPOLLPRI | EPOLLRDNORM | EPOLLRDBAND) != 0;
    let w = bits & (EPOLLOUT | EPOLLWRNORM | EPOLLWRBAND) != 0;
    assert((bits & (EPOLLIN | EPOLLPRI | EPOLLRDNORM | EPOLLRDBAND | EPOLLOUT | EPOLLWRNORM
        | EPOLLWRBAND | EPOLLERR) != 0) == (r || w || bits & EPOLLERR != 0)) by (bit_vector)
        requires
            r == (bits & (EPOLLIN | EPOLLPRI | EPOLLRDNORM | EPOLLRDBAND) != 0),
            w == (bits & (EPOLLOUT | EPOLLWRNORM | EPOLLWRBAND) != 0),
    ;
    assert((bits & (EPOLLIN | EPOLLPRI | EPOLLRDNORM | EPOLLRDBAND | EPOLLOUT | EPOLLWRNORM
        | EPOLLWRBAND | EPOLLHUP | EPOLLRDHUP) != 0) == (r || w || bits & (EPOLLHUP | EPOLLRDHUP)
        != 0)) by (bit_vector)
        requires
            r == (bits & (EPOLLIN | EPOLLPRI | EPOLLRDNORM | EPOLLRDBAND) != 0),
            w == (bits & (EPOLLOUT | EPOLLWRNORM | EPOLLWRBAND) != 0),
    ;
}

/// The epoll bits reported, kind by kind: the requested readable bits
/// exactly when the kernel reports the fd readable, the requested writable
/// bits exactly when it reports it writable (each whatever else is
/// reported), the kernel's error and hang-up bits as reported, a read
/// hang-up when one was asked for and the fd hung up, and nothing else.
pub proof fn lemma_ready_events_by_kind(requested: u32, kernel: u32)
    ensures
        ready_events(requested, kernel) & (EPOLLIN | EPOLLPRI | EPOLLRDNORM | EPOLLRDBAND) == (
        if kernel & EPOLLIN != 0 {
            requested & (EPOLLIN | EPOLLPRI | EPOLLRDNORM | EPOLLRDBAND)
        } else {
            0
        }),
        ready_events(requested, kernel) & (EPOLLOUT | EPOLLWRNORM | EPOLLWRBAND) == (if kernel
            & EPOLLOUT != 0 {
            requested & (EPOLLOUT | EPOLLWRNORM | EPOLLWRBAND)
        } else {
            0
        }),
        ready_events(requested, kernel) & EPOLLERR == kernel & EPOLLERR,
        ready_events(requested, kernel) & EPOLLHUP == kernel & EPOLLHUP,
        ready_events(requested, kernel) & EPOLLRDHUP == (if kernel & EPOLLHUP != 0 {
            requested & EPOLLRDHUP
        } else {
            0
        }),
        ready_events(requested, kernel) & !(EPOLLIN | EPOLLPRI | EPOLLRDNORM | EPOLLRDBAND
            | EPOLLOUT | EPOLLWRNORM | EPOLLWRBAND | EPOLLERR | EPOLLHUP | EPOLLRDHUP) == 0,
{
    let x = ready_events(requested, kernel);
    let rd = if kernel & EPOLLIN != 0 { requested & READABLE_BITS } else { 0 };
    let wr = if kernel & EPOLLOUT != 0 { requested & WRITABLE_BITS } else { 0 };
    let hu = if kernel & EPOLLHUP != 0 { requested & EPOLLRDHUP } else { 0 };
    assert(x == rd | wr | (kernel & EPOLLERR) | (kernel & EPOLLHUP) | hu);
    let ri = kernel & EPOLLIN != 0;
    let wo = kernel & EPOLLOUT != 0;
    let hh = kernel & EPOLLHUP != 0;
    assert({
        &&& x & (EPOLLIN | EPOLLPRI | EPOLLRDNORM | EPOLLRDBAND) == (if ri {
            requested & (EPOLLIN | EPOLLPRI | EPOLLRDNORM | EPOLLRDBAND)
        } else {
            0
        })
        &&& x & (EPOLLOUT | EPOLLWRNORM | EPOLLWRBAND) == (if wo {
            requested & (EPOLLOUT | EPOLLWRNORM | EPOLLWRBAND)
        } else {
            0
        })
        &&& x & EPOLLERR == kernel & EPOLLERR
        &&& x & EPOLLHUP == kernel & EPOLLHUP
        &&& x & EPOLLRDHUP == (if hh {
            requested & EPOLLRDHUP
        } else {
            0
        })
        &&& x & !(EPOLLIN | EPOLLPRI | EPOLLRDNORM | EPOLLRDBAND | EPOLLOUT | EPOLLWRNORM
            | EPOLLWRBAND | EPOLLERR | EPOLLHUP | EPOLLRDHUP) == 0
    }) by (bit_vector)
        requires
            x == rd | wr | (kernel & EPOLLERR) | (kernel & EPOLLHUP) | hu,
            rd == (if ri { requested & READABLE_BITS } else { 0 }),
            wr == (if wo { requested & WRITABLE_BITS } else { 0 }),
            hu == (if hh { requested & EPOLLRDHUP } else { 0 }),
            ri == (kernel & EPOLLIN != 0),
            wo == (kernel & EPOLLOUT != 0),
            hh == (kernel & EPOLLHUP != 0),
    ;
}

/// Maps the epoll bits `bits` to the kernel watches that cover them.
pub fn kernel_events_for(bits: u32) -> (r: [Option<PollEvent>; 4])
    ensures
        r@ == kernel_watches(bits),
        r@[0] == (if bits & (EPOLLIN | EPOLLPRI | EPOLLRDNORM | EPOLLRDBAND) != 0 {
            Some(PollEvent::CanBeRead)
        } else {
            None
        }),
        r@[1] == (if bits & (EPOLLOUT | EPOLLWRNORM | EPOLLWRBAND) != 0 {
            Some(PollEvent::CanBeWritten)
        } else {
            None
        }),
{
    proof {
        lemma_kernel_watches_by_kind(bits);
    }
    let watch_read = bits & READABLE_BITS != 0;
    let watch_write = bits & WRITABLE_BITS != 0;
    let watch_any = watch_read || watch_write;

    let read = if watch_read {
        Some(PollEvent::CanBeRead)
    } else {
        None
    };
    let write = if watch_write {
        Some(PollEvent::CanBeWritten)
    } else {
        None
    };
    let error = if watch_any || bits & EPOLLERR != 0 {
        Some(PollEvent::Error)
    } else {
        None
    };
    let closed = if watch_any || bits & (EPOLLHUP | EPOLLRDHUP) != 0 {
        Some(PollEvent::Closed)
    } else {
        None
    };
    let r = [read, write, error, closed];
    assert(r@ =~= kernel_watches(bits));
    r
}

/// Translates the kernel's ready bits into the epoll bits reported for a
/// registration that asked for `requested_events`.
pub fn translate_ready_events(requested_events: u32, kernel_events: u32) -> (r: u32)
    ensures
        r == ready_events(requested_events, kernel_events),
        r & (EPOLLIN | EPOLLPRI | EPOLLRDNORM | EPOLLRDBAND) == (if kernel_events & EPOLLIN != 0 {
            requested_events & (EPOLLIN | EPOLLPRI | EPOLLRDNORM | EPOLLRDBAND)
        } else {
            0
        }),
        r & (EPOLLOUT | EPOLLWRNORM | EPOLLWRBAND) == (if kernel_events & EPOLLOUT != 0 {
            requested_events & (EPOLLOUT | EPOLLWRNORM | EPOLLWRBAND)
        } else {
            0
        }),
{
    proof {
        lemma_ready_events_by_kind(requested_events, kernel_events);
    }
    let readable = if kernel_events & EPOLLIN != 0 {
        requested_events & READABLE_BITS
    } else {
        0
    };
    let writable = if kernel_events & EPOLLOUT != 0 {
        requested_events & WRITABLE_BITS
    } else {
        0
    };
    let error = kernel_events & EPOLLERR;
    let hangup = kernel_events & EPOLLHUP;
    let read_hangup = if hangup != 0 {
        requested_events & EPOLLRDHUP
    } else {
        0
    };
    readable | writable | error | hangup | read_hangup
}

/// The bits of `ready_events` that edge-triggered delivery reports only once.
pub fn sticky_edge_events(ready_events: u32) -> (r: u32)
    ensures
        r == ready_events & STICKY_BITS,
{
    ready_events & (EPOLLERR | EPOLLHUP | EPOLLRDHUP)
}

/// A registration as `EPOLL_CTL_ADD` or `EPOLL_CTL_MOD` leaves it: armed,
/// with nothing delivered yet.
pub open spec fn fresh_registration(event: epoll_event) -> EpollRegistration {
    EpollRegistration {
        requested_events: event.events,
        data: event.data,
        delivered_edge_events: 0,
        disabled: false,
    }
}

/// The errno with which `epoll_ctl` refuses a request, if it does.
pub open spec fn ctl_error(
    registry: Map<c_int, Map<c_int, EpollRegistration>>,
    epfd: c_int,
    op: c_int,
    fd: c_int,
    event: Option<epoll_event>,
) -> Option<c_int> {
    if op == EPOLL_CTL_ADD || op == EPOLL_CTL_MOD {
        if event is None || !registry.contains_key(epfd) {
            Some(EINVAL)
        } else if op == EPOLL_CTL_ADD && registry[epfd].contains_key(fd) {
            Some(EEXIST)
        } else if op == EPOLL_CTL_MOD && !registry[epfd].contains_key(fd) {
            Some(ENOENT)
        } else {
            None
        }
    } else if op == EPOLL_CTL_DEL {
        if !registry.contains_key(epfd) {
            Some(EINVAL)
        } else if !registry[epfd].contains_key(fd) {
            Some(ENOENT)
        } else {
            None
        }
    } else {
        Some(EINVAL)
    }
}

/// The registry once `fd` is closed: `fd` is no longer an epoll instance and
/// no epoll instance watches it.
pub open spec fn forget_view(
    registry: Map<c_int, Map<c_int, EpollRegistration>>,
    fd: c_int,
) -> Map<c_int, Map<c_int, EpollRegistration>> {
    registry.remove(fd).map_values(|regs: Map<c_int, EpollRegistration>| regs.remove(fd))
}

/// The keys of `m` in increasing order.
pub fn sorted_keys<V>(m: &BTreeMap<c_int, V>) -> (r: Vec<c_int>)
    ensures
        forall|i: int, j: int| 0 <= i < j < r.len() ==> r[i] < r[j],
        r.len() == m@.dom().len(),
        forall|k: c_int| m@.contains_key(k) <==> r@.contains(k),
{
    let mut out: Vec<c_int> = Vec::new();
    let iter = m.iter();
    let ghost s = iter.remaining();
    proof {
        lemma_keys_increasing(s);
        assert forall|k: c_int| #[trigger] m@.contains_key(k) implies exists|i: int|
            0 <= i < s.len() && *s[i].0 == k by {
            assert(s.contains((&k, &m@[k])));
        }
    }
    for kv in it: iter
        invariant
            it.seq() == s,
            out.len() == it.index(),
            forall|i: int| 0 <= i < out.len() ==> out[i] == *s[i].0,
            s.len() == m@.dom().len(),
            forall|i: int| 0 <= i < s.len() ==> m@.contains_key(*s[i].0),
    {
        out.push(*kv.0);
    }
    assert forall|k: c_int| m@.contains_key(k) implies out@.contains(k) by {
        let i = choose|i: int| 0 <= i < s.len() && *s[i].0 == k;
        assert(out@[i] == k);
    }
    assert forall|k: c_int| out@.contains(k) implies m@.contains_key(k) by {
        let i = choose|i: int| 0 <= i < out.len() && out@[i] == k;
        assert(out[i] == *s[i].0);
    }
    out
}

/// One registration's turn in an `epoll_pwait` delivery: the registrations
/// and the events delivered so far after looking at `fd`, which the kernel
/// reports ready with `kernel`. Nothing happens once `max` events are out,
/// or for an fd that is not registered or whose one-shot registration has
/// fired. Edge-triggered registrations withhold the sticky conditions
/// (error, hang-up) that were delivered before, and remember the ones they
/// deliver now; a one-shot registration is disabled once it delivers.
pub open spec fn deliver_step(
    regs: Map<c_int, EpollRegistration>,
    out: Seq<epoll_event>,
    fd: c_int,
    kernel: u32,
    max: nat,
) -> (Map<c_int, EpollRegistration>, Seq<epoll_event>) {
    if out.len() >= max || !regs.contains_key(fd) || regs[fd].disabled {
        (regs, out)
    } else {
        let reg = regs[fd];
        let translated = ready_events(reg.requested_events, kernel);
        let edge = reg.requested_events & EPOLLET != 0;
        let ready = if edge {
            translated & !reg.delivered_edge_events
        } else {
            translated
        };
        let delivered = if edge {
            reg.delivered_edge_events | (translated & STICKY_BITS & ready)
        } else {
            reg.delivered_edge_events
        };
        if ready == 0 {
            (
                regs.insert(
                    fd,
                    EpollRegistration {
                        requested_events: reg.requested_events,
                        data: reg.data,
                        delivered_edge_events: delivered,
                        disabled: false,
                    },
                ),
                out,
            )
        } else {
            (
                regs.insert(
                    fd,
                    EpollRegistration {
                        requested_events: reg.requested_events,
                        data: reg.data,
                        delivered_edge_events: delivered,
                        disabled: reg.requested_events & EPOLLONESHOT != 0,
                    },
                ),
                out.push(epoll_event { events: ready, data: reg.data }),
            )
        }
    }
}

/// The smallest fd in `ready`.
pub open spec fn min_key(ready: Map<c_int, u32>) -> c_int {
    choose|k: c_int| ready.contains_key(k) && (forall|j: c_int| ready.contains_key(j) ==> k <= j)
}

/// An `epoll_pwait` delivery: the registrations look at the kernel's ready
/// bits fd by fd, in increasing fd order, starting with `regs` and the events
/// `out`.
#[verifier::opaque]
pub open spec fn deliver_ready(
    regs: Map<c_int, EpollRegistration>,
    ready: Map<c_int, u32>,
    out: Seq<epoll_event>,
    max: nat,
) -> (Map<c_int, EpollRegistration>, Seq<epoll_event>)
    decreases ready.dom().len(),
{
    if ready.dom().finite() && ready.contains_key(min_key(ready)) {
        let k = min_key(ready);
        let (r1, o1) = deliver_step(regs, out, k, ready[k], max);
        deliver_ready(r1, ready.remove(k), o1, max)
    } else {
        (regs, out)
    }
}

/// The kernel's reports merged by fd: for each reported fd, the union of
/// the bits reported for it.
pub open spec fn merged_ready(results: Seq<PollResult>) -> Map<c_int, u32>
    decreases results.len(),
{
    if results.len() == 0 {
        Map::empty()
    } else {
        let m = merged_ready(results.drop_last());
        let r = results.last();
        let fd = r.data as c_int;
        m.insert(
            fd,
            if m.contains_key(fd) {
                m[fd] | r.events
            } else {
                r.events
            },
        )
    }
}

/// A delivery step at the smallest ready fd is the first step of the
/// delivery.
pub(crate) proof fn lemma_deliver_ready_unfold(
    regs: Map<c_int, EpollRegistration>,
    ready: Map<c_int, u32>,
    out: Seq<epoll_event>,
    max: nat,
    k: c_int,
)
    requires
        ready.dom().finite(),
        ready.contains_key(k),
        forall|j: c_int| ready.contains_key(j) ==> k <= j,
    ensures
        deliver_ready(regs, ready, out, max) == deliver_ready(
            deliver_step(regs, out, k, ready[k], max).0,
            ready.remove(k),
            deliver_step(regs, out, k, ready[k], max).1,
            max,
        ),
{
    reveal(deliver_ready);
    let m = min_key(ready);
    assert(ready.contains_key(m) && (forall|j: c_int| ready.contains_key(j) ==> m <= j));
    assert(m <= k && k <= m);
}

/// A delivery with nothing ready changes nothing.
pub(crate) proof fn lemma_deliver_ready_empty(
    regs: Map<c_int, EpollRegistration>,
    ready: Map<c_int, u32>,
    out: Seq<epoll_event>,
    max: nat,
)
    requires
        ready.dom() =~= Set::<c_int>::empty(),
    ensures
        deliver_ready(regs, ready, out, max) == (regs, out),
{
    reveal(deliver_ready);
}

/// The kernel's reports, merged by fd, name finitely many fds.
pub proof fn lemma_merged_ready_finite(results: Seq<PollResult>)
    ensures
        merged_ready(results).dom().finite(),
    decreases results.len(),
{
    if results.len() > 0 {
        lemma_merged_ready_finite(results.drop_last());
    }
}

/// Merges the first `count` poller reports by fd, uniting the bits reported
/// for the same fd.
pub fn merge_ready_by_fd(results: &[PollResult], count: usize) -> (m: BTreeMap<c_int, u32>)
    ensures
        m@ == merged_ready(
            results@.take(
                if count < results@.len() {
                    count as int
                } else {
                    results@.len() as int
                },
            ),
        ),
{
    let n = if count < results.len() {
        count
    } else {
        results.len()
    };
    let mut m: BTreeMap<c_int, u32> = BTreeMap::new();
    let mut i: usize = 0;
    while i < n
        invariant
            0 <= i <= n <= results@.len(),
            m@ == merged_ready(results@.take(i as int)),
        decreases n - i,
    {
        let r = results[i];
        let fd = r.data as c_int;
        let events = match m.get(&fd) {
            Some(e) => *e | r.events,
            None => r.events,
        };
        m.insert(fd, events);
        assert(results@.take(i + 1).drop_last() =~= results@.take(i as int));
        i = i + 1;
    }
    m
}

/// One step of `epoll_pwait`'s delivery (see `deliver_step`), on the
/// registrations of one epoll instance and the events delivered so far.
fn deliver_one(
    registrations: &mut BTreeMap<c_int, EpollRegistration>,
    produced: &mut Vec<epoll_event>,
    fd: c_int,
    kernel_ready: u32,
    maxevents: usize,
)
    ensures
        (final(registrations)@, final(produced)@) == deliver_step(
            old(registrations)@,
            old(produced)@,
            fd,
            kernel_ready,
            maxevents as nat,
        ),
{
    if produced.len() < maxevents {
        let found = match registrations.get(&fd) {
            Some(reg) => Some(*reg),
            None => None,
        };
        if let Some(reg) = found {
            if !reg.disabled {
                let translated = translate_ready_events(reg.requested_events, kernel_ready);
                let mut ready = translated;
                let mut delivered = reg.delivered_edge_events;
                if reg.requested_events & EPOLLET != 0 {
                    let sticky_ready = sticky_edge_events(translated);
                    ready = translated & !reg.delivered_edge_events;
                    delivered = delivered | (sticky_ready & ready);
                }
                let disabled = if ready != 0 && reg.requested_events & EPOLLONESHOT != 0 {
                    true
                } else {
                    reg.disabled
                };
                registrations.insert(
                    fd,
                    EpollRegistration {
                        requested_events: reg.requested_events,
                        data: reg.data,
                        delivered_edge_events: delivered,
                        disabled,
                    },
                );
                if ready != 0 {
                    produced.push(epoll_event { events: ready, data: reg.data });
                }
            }
        }
    }
}

/// `epoll_pwait`'s delivery over the merged reports `ready_by_fd`, fd by fd
/// in increasing order.
fn deliver_all(
    registrations: &mut BTreeMap<c_int, EpollRegistration>,
    ready_by_fd: &BTreeMap<c_int, u32>,
    maxevents: usize,
) -> (produced: Vec<epoll_event>)
    ensures
        (final(registrations)@, produced@) == deliver_ready(
            old(registrations)@,
            ready_by_fd@,
            Seq::empty(),
            maxevents as nat,
        ),
{
    let ghost merged = ready_by_fd@;
    let ghost goal = deliver_ready(registrations@, merged, Seq::empty(), maxevents as nat);
    let mut produced: Vec<epoll_event> = Vec::new();
    let iter = ready_by_fd.iter();
    let ghost s = iter.remaining();
    let ghost mut rest: Map<c_int, u32> = merged;
    proof {
        lemma_keys_increasing(s);
        assert forall|k: c_int| #[trigger] merged.contains_key(k) implies exists|j: int|
            0 <= j < s.len() && *s[j].0 == k by {
            assert(s.contains((&k, &merged[k])));
        }
    }
    for kv in it: iter
        invariant
            it.seq() == s,
            merged == ready_by_fd@,
            forall|a: int, b: int| 0 <= a < b < s.len() ==> *s[a].0 < *s[b].0,
            forall|j: int|
                0 <= j < s.len() ==> merged.contains_key(*s[j].0) && merged[*s[j].0]
                    == *s[j].1,
            rest.dom().finite(),
            forall|k: c_int| #[trigger]
                rest.contains_key(k) <==> exists|j: int|
                    it.index() <= j < s.len() && *s[j].0 == k,
            forall|k: c_int| rest.contains_key(k) ==> rest[k] == merged[k],
            deliver_ready(registrations@, rest, produced@, maxevents as nat) == goal,
    {
        let fd = *kv.0;
        let kernel_ready = *kv.1;
        let ghost idx = it.index();
        proof {
            assert(rest.contains_key(fd));
            assert forall|j: c_int| rest.contains_key(j) implies fd <= j by {
                let b = choose|b: int| idx <= b < s.len() && *s[b].0 == j;
                if b != idx {
                    assert(*s[idx].0 < *s[b].0);
                }
            }
            lemma_deliver_ready_unfold(registrations@, rest, produced@, maxevents as nat, fd);
        }
        let ghost regs0 = registrations@;
        let ghost out0 = produced@;
        deliver_one(registrations, &mut produced, fd, kernel_ready, maxevents);
        proof {
            assert(registrations@ == deliver_step(regs0, out0, fd, kernel_ready, maxevents as nat).0);
            assert(produced@ == deliver_step(regs0, out0, fd, kernel_ready, maxevents as nat).1);
            rest = rest.remove(fd);
            assert forall|k: c_int| #[trigger]
                rest.contains_key(k) <==> exists|j: int|
                    idx + 1 <= j < s.len() && *s[j].0 == k by {
                if rest.contains_key(k) {
                    let j = choose|j: int| idx <= j < s.len() && *s[j].0 == k;
                    assert(j != idx);
                }
                if exists|j: int| idx + 1 <= j < s.len() && *s[j].0 == k {
                    let j = choose|j: int| idx + 1 <= j < s.len() && *s[j].0 == k;
                    assert(*s[idx].0 < *s[j].0);
                }
            }
        }
    }
    proof {
        lemma_deliver_ready_empty(registrations@, rest, produced@, maxevents as nat);
    }
    produced
}

/// One delivery step hands out at most one non-empty event, and only while
/// fewer than `max` are out; it keeps the set of registered fds and passes
/// disabled registrations over.
pub(crate) proof fn lemma_step_bounded(
    regs: Map<c_int, EpollRegistration>,
    out: Seq<epoll_event>,
    fd: c_int,
    kernel: u32,
    max: nat,
)
    requires
        out.len() <= max,
    ensures
        ({
            let d = deliver_step(regs, out, fd, kernel, max);
            &&& d.1.len() <= max
            &&& d.1 == out || (d.1.len() == out.len() + 1 && d.1.drop_last() == out
                && d.1.last().events != 0)
            &&& d.0.dom() == regs.dom()
            &&& forall|g: c_int|
                regs.contains_key(g) && regs[g].disabled ==> #[trigger] d.0[g] == regs[g]
        }),
{
    let d = deliver_step(regs, out, fd, kernel, max);
    assert(d.0.dom() =~= regs.dom());
    if d.1.len() == out.len() + 1 {
        assert(d.1.drop_last() =~= out);
    }
}

/// A delivery never hands out more than `max` events, extends the events
/// handed out before, hands out no empty event, keeps the set of registered
/// fds, and leaves disabled (fired one-shot) registrations as they are.
pub proof fn lemma_delivery_bounded(
    regs: Map<c_int, EpollRegistration>,
    ready: Map<c_int, u32>,
    out: Seq<epoll_event>,
    max: nat,
)
    requires
        ready.dom().finite(),
        out.len() <= max,
    ensures
        ({
            let d = deliver_ready(regs, ready, out, max);
            &&& out.len() <= d.1.len() <= max
            &&& d.1.subrange(0, out.len() as int) == out
            &&& forall|i: int| out.len() <= i < d.1.len() ==> (#[trigger] d.1[i]).events != 0
            &&& d.0.dom() == regs.dom()
            &&& forall|fd: c_int|
                regs.contains_key(fd) && regs[fd].disabled ==> #[trigger] d.0[fd] == regs[fd]
        }),
    decreases ready.dom().len(),
{
    if ready.contains_key(min_key(ready)) {
        let k = min_key(ready);
        let (r1, o1) = deliver_step(regs, out, k, ready[k], max);
        assert(deliver_ready(regs, ready, out, max) == deliver_ready(r1, ready.remove(k), o1, max))
            by {
            reveal(deliver_ready);
        }
        lemma_step_bounded(regs, out, k, ready[k], max);
        lemma_delivery_bounded(r1, ready.remove(k), o1, max);
        let d = deliver_ready(r1, ready.remove(k), o1, max);
        assert forall|i: int| 0 <= i < out.len() implies d.1[i] == out[i] by {
            assert(d.1[i] == d.1.subrange(0, o1.len() as int)[i]);
            if o1 != out {
                assert(o1[i] == o1.drop_last()[i]);
            }
        }
        assert(d.1.subrange(0, out.len() as int) =~= out);
        assert forall|i: int| out.len() <= i < d.1.len() implies (#[trigger] d.1[i]).events != 0 by {
            if i < o1.len() {
                assert(d.1[i] == d.1.subrange(0, o1.len() as int)[i]);
                assert(o1[i] == o1.last());
            }
        }
    } else {
        reveal(deliver_ready);
        assert(out.subrange(0, out.len() as int) =~= out);
    }
}

/// Once a one-shot registration has delivered an event, it is disabled, and
/// later deliveries pass it over until `EPOLL_CTL_MOD` re-arms it.
pub proof fn lemma_oneshot_fires_once(
    regs: Map<c_int, EpollRegistration>,
    out: Seq<epoll_event>,
    fd: c_int,
    kernel: u32,
    max: nat,
    later_ready: Map<c_int, u32>,
    later_out: Seq<epoll_event>,
)
    requires
        regs.contains_key(fd),
        regs[fd].requested_events & EPOLLONESHOT != 0,
        deliver_step(regs, out, fd, kernel, max).1.len() > out.len(),
        later_ready.dom().finite(),
        later_out.len() <= max,
    ensures
        ({
            let fired = deliver_step(regs, out, fd, kernel, max).0;
            let later = deliver_ready(fired, later_ready, later_out, max);
            &&& fired[fd].disabled
            &&& later.0[fd] == fired[fd]
        }),
{
    let fired = deliver_step(regs, out, fd, kernel, max).0;
    lemma_delivery_bounded(fired, later_ready, later_out, max);
}

/// Under edge-triggered delivery, an error or hang-up that has been
/// delivered is not delivered again by the same registration.
pub proof fn lemma_edge_sticky_reported_once(
    regs: Map<c_int, EpollRegistration>,
    out: Seq<epoll_event>,
    fd: c_int,
    kernel: u32,
    max: nat,
    later_out: Seq<epoll_event>,
    later_kernel: u32,
)
    requires
        regs.contains_key(fd),
        regs[fd].requested_events & EPOLLET != 0,
        deliver_step(regs, out, fd, kernel, max).1.len() > out.len(),
        ({
            let r1 = deliver_step(regs, out, fd, kernel, max).0;
            deliver_step(r1, later_out, fd, later_kernel, max).1.len() > later_out.len()
        }),
    ensures
        ({
            let s1 = deliver_step(regs, out, fd, kernel, max);
            let s2 = deliver_step(s1.0, later_out, fd, later_kernel, max);
            s2.1.last().events & s1.1.last().events & STICKY_BITS == 0
        }),
{
    let reg = regs[fd];
    let t1 = ready_events(reg.requested_events, kernel);
    let d0 = reg.delivered_edge_events;
    let ready1 = t1 & !d0;
    let d1 = d0 | (t1 & STICKY_BITS & ready1);
    let t2 = ready_events(reg.requested_events, later_kernel);
    let ready2 = t2 & !d1;
    assert(ready2 & ready1 & STICKY_BITS == 0) by (bit_vector)
        requires
            ready1 == t1 & !d0,
            d1 == d0 | (t1 & STICKY_BITS & ready1),
            ready2 == t2 & !d1,
    ;
}

/// Adding a registration and removing it again leaves the registry as it
/// was; both requests succeed when the epoll instance exists and does not
/// watch the fd yet.
pub proof fn lemma_ctl_add_then_del(
    registry: Map<c_int, Map<c_int, EpollRegistration>>,
    epfd: c_int,
    fd: c_int,
    event: epoll_event,
)
    requires
        registry.contains_key(epfd),
        !registry[epfd].contains_key(fd),
    ensures
        ctl_error(registry, epfd, EPOLL_CTL_ADD, fd, Some(event)) is None,
        ({
            let added = registry.insert(epfd, registry[epfd].insert(fd, fresh_registration(event)));
            &&& ctl_error(added, epfd, EPOLL_CTL_DEL, fd, None) is None
            &&& added.insert(epfd, added[epfd].remove(fd)) == registry
        }),
{
    let added = registry.insert(epfd, registry[epfd].insert(fd, fresh_registration(event)));
    assert(added[epfd].remove(fd) =~= registry[epfd]);
    assert(added.insert(epfd, added[epfd].remove(fd)) =~= registry);
}

impl EpollState {
    /// The registrations of a new epoll instance: none.
    pub fn new() -> (s: Self)
        ensures
            s.registrations@ == Map::<c_int, EpollRegistration>::empty(),
    {
        EpollState { registrations: BTreeMap::new() }
    }
}

impl EpollRegistry {
    /// A registry without epoll instances.
    pub fn new() -> (r: Self)
        ensures
            r@ == Map::<c_int, Map<c_int, EpollRegistration>>::empty(),
    {
        let r = EpollRegistry { states: BTreeMap::new() };
        assert(r@ =~= Map::<c_int, Map<c_int, EpollRegistration>>::empty());
        r
    }

    /// Records the epoll instance `epfd` that the kernel has just created,
    /// keeping its registrations if it is known already.
    pub fn create(&mut self, epfd: c_int)
        ensures
            final(self)@ == (if old(self)@.contains_key(epfd) {
                old(self)@
            } else {
                old(self)@.insert(epfd, Map::<c_int, EpollRegistration>::empty())
            }),
    {
        if !self.states.contains_key(&epfd) {
            self.states.insert(epfd, EpollState::new());
            assert(self@ =~= old(self)@.insert(epfd, Map::<c_int, EpollRegistration>::empty()));
        }
    }

    /// Forgets the closed `fd`: as an epoll instance, and as a watched fd of
    /// every other epoll instance. Returns the (epoll fd, fd) pairs whose
    /// kernel watches are left to drop, by increasing epoll fd.
    pub fn forget_fd(&mut self, fd: c_int) -> (removals: Vec<(c_int, c_int)>)
        ensures
            final(self)@ == forget_view(old(self)@, fd),
            forall|i: int| 0 <= i < removals.len() ==> (#[trigger] removals[i]).1 == fd,
            forall|i: int, j: int| 0 <= i < j < removals.len() ==> removals[i].0 < removals[j].0,
            forall|e: c_int|
                #[trigger] removals@.contains((e, fd)) <==> (e != fd && old(self)@.contains_key(e)
                    && old(self)@[e].contains_key(fd)),
    {
        let _ = self.states.remove(&fd);
        let ghost base = self@;
        proof {
            assert(base =~= old(self)@.remove(fd));
        }
        let keys = sorted_keys(&self.states);
        let mut removals: Vec<(c_int, c_int)> = Vec::new();
        let ghost mut done: Set<c_int> = Set::empty();
        let mut i: usize = 0;
        while i < keys.len()
            invariant
                0 <= i <= keys.len(),
                base == old(self)@.remove(fd),
                forall|a: int, b: int| 0 <= a < b < keys.len() ==> keys[a] < keys[b],
                forall|k: c_int| base.contains_key(k) <==> keys@.contains(k),
                forall|j: int| 0 <= j < keys.len() ==> (done.contains(#[trigger] keys[j]) <==> j < i),
                forall|e: c_int| #[trigger] done.contains(e) ==> base.contains_key(e),
                forall|e: c_int, j: int|
                    #[trigger] done.contains(e) && i <= j < keys.len() ==> e < #[trigger] keys[j],
                self@.dom() == base.dom(),
                forall|e: c_int|
                    #![trigger self@[e]]
                    base.contains_key(e) ==> self@[e] == (if done.contains(e) {
                        base[e].remove(fd)
                    } else {
                        base[e]
                    }),
                forall|a: int| 0 <= a < removals.len() ==> (#[trigger] removals[a]).1 == fd,
                forall|a: int|
                    0 <= a < removals.len() ==> done.contains((#[trigger] removals[a]).0),
                forall|a: int, b: int|
                    0 <= a < b < removals.len() ==> removals[a].0 < removals[b].0,
                forall|e: c_int|
                    #[trigger] removals@.contains((e, fd)) <==> (done.contains(e)
                        && base[e].contains_key(fd)),
            decreases keys.len() - i,
        {
            let epfd = keys[i];
            assert(keys@.contains(epfd));
            assert(!done.contains(epfd));
            assert(self@[epfd] == base[epfd]);
            let ghost removals_before = removals@;
            let ghost before = self@;
            let taken = self.states.remove(&epfd);
            assert(taken is Some);
            if let Some(mut state) = taken {
                assert(state.registrations@ == base[epfd]);
                let had = state.registrations.remove(&fd).is_some();
                assert(had == base[epfd].contains_key(fd));
                assert(state.registrations@ == base[epfd].remove(fd));
                if had {
                    removals.push((epfd, fd));
                }
                self.states.insert(epfd, state);
                assert(self@ =~= before.insert(epfd, base[epfd].remove(fd)));
            }
            proof {
                let old_done = done;
                done = done.insert(epfd);
                assert forall|j: int| 0 <= j < keys.len() implies (done.contains(
                    #[trigger] keys[j],
                ) <==> j < i + 1) by {
                    if j == i {
                    } else if j < i {
                        assert(old_done.contains(keys[j]));
                    } else {
                        assert(keys[i as int] < keys[j]);
                        assert(!old_done.contains(keys[j]));
                    }
                }
                assert forall|e: c_int, j: int| #[trigger] done.contains(e) && i + 1 <= j < keys.len() implies e
                    < #[trigger] keys[j] by {
                    if e == epfd {
                        assert(keys[i as int] < keys[j]);
                    }
                }
                assert forall|a: int| 0 <= a < removals.len() implies done.contains(
                    (#[trigger] removals[a]).0,
                ) by {
                    if a < removals_before.len() {
                        assert(removals[a] == removals_before[a]);
                    }
                }
                assert forall|a: int, b: int| 0 <= a < b < removals.len() implies removals[a].0
                    < removals[b].0 by {
                    assert(removals[a] == removals_before[a]);
                    if b >= removals_before.len() {
                        assert(old_done.contains(removals_before[a].0));
                    } else {
                        assert(removals[b] == removals_before[b]);
                    }
                }
                assert forall|e: c_int| #[trigger]
                    removals@.contains((e, fd)) <==> (done.contains(e) && base[e].contains_key(
                        fd,
                    )) by {
                    if removals@.contains((e, fd)) {
                        let a = choose|a: int| 0 <= a < removals.len() && removals@[a] == (e, fd);
                        if a < removals_before.len() {
                            assert(removals_before[a] == (e, fd));
                            assert(removals_before.contains((e, fd)));
                        }
                    }
                    if done.contains(e) && base[e].contains_key(fd) {
                        if e == epfd {
                            assert(removals@[removals.len() - 1] == (e, fd));
                        } else {
                            assert(removals_before.contains((e, fd)));
                            let a = choose|a: int|
                                0 <= a < removals_before.len() && removals_before[a] == (e, fd);
                            assert(removals@[a] == (e, fd));
                        }
                    }
                }
                assert forall|e: c_int| #![trigger self@[e]] base.contains_key(e) implies self@[e]
                    == (if done.contains(e) {
                    base[e].remove(fd)
                } else {
                    base[e]
                }) by {
                    if e != epfd {
                        assert(done.contains(e) == old_done.contains(e));
                    }
                }
                assert(self@.dom() =~= base.dom());
            }
            i = i + 1;
        }
        proof {
            assert forall|e: c_int| base.contains_key(e) implies done.contains(e) by {
                assert(keys@.contains(e));
                let j = choose|j: int| 0 <= j < keys.len() && keys[j] == e;
                assert(done.contains(keys[j]));
            }
            assert(self@ =~= forget_view(old(self)@, fd));
        }
        removals
    }

    /// `epoll_ctl`'s bookkeeping: adds, changes or removes the registration of
    /// `fd` with the epoll instance `epfd` (`event` is `None` where the caller
    /// passed no event), and says which kernel watches are left to update.
    pub fn ctl(&mut self, epfd: c_int, op: c_int, fd: c_int, event: Option<epoll_event>) -> (r:
        Result<EpollKernelUpdate, Errno>)
        ensures
            r is Err <==> ctl_error(old(self)@, epfd, op, fd, event) is Some,
            match r {
                Err(e) => Some(e.0) == ctl_error(old(self)@, epfd, op, fd, event) && final(self)@
                    == old(self)@,
                Ok(EpollKernelUpdate::Rearm(watches)) => {
                    &&& op == EPOLL_CTL_ADD || op == EPOLL_CTL_MOD
                    &&& event is Some
                    &&& watches@ == kernel_watches(event->0.events)
                    &&& final(self)@ == old(self)@.insert(
                        epfd,
                        old(self)@[epfd].insert(fd, fresh_registration(event->0)),
                    )
                },
                Ok(EpollKernelUpdate::Unregister) => {
                    &&& op == EPOLL_CTL_DEL
                    &&& final(self)@ == old(self)@.insert(epfd, old(self)@[epfd].remove(fd))
                },
            },
            final(self)@ == apply_request(old(self)@, EpollRequest::Ctl { epfd, op, fd, event }).0,
    {
        if op == EPOLL_CTL_ADD || op == EPOLL_CTL_MOD {
            let ev = match event {
                Some(ev) => ev,
                None => return Err(Errno(EINVAL)),
            };
            let taken = self.states.remove(&epfd);
            let mut state = match taken {
                Some(state) => state,
                None => {
                    assert(self@ =~= old(self)@);
                    return Err(Errno(EINVAL));
                },
            };
            let exists = state.registrations.contains_key(&fd);
            if op == EPOLL_CTL_ADD && exists {
                self.states.insert(epfd, state);
                assert(self@ =~= old(self)@);
                return Err(Errno(EEXIST));
            }
            if op == EPOLL_CTL_MOD && !exists {
                self.states.insert(epfd, state);
                assert(self@ =~= old(self)@);
                return Err(Errno(ENOENT));
            }
            state.registrations.insert(
                fd,
                EpollRegistration {
                    requested_events: ev.events,
                    data: ev.data,
                    delivered_edge_events: 0,
                    disabled: false,
                },
            );
            self.states.insert(epfd, state);
            assert(self@ =~= old(self)@.insert(
                epfd,
                old(self)@[epfd].insert(fd, fresh_registration(ev)),
            ));
            Ok(EpollKernelUpdate::Rearm(kernel_events_for(ev.events)))
        } else if op == EPOLL_CTL_DEL {
            let taken = self.states.remove(&epfd);
            let mut state = match taken {
                Some(state) => state,
                None => {
                    assert(self@ =~= old(self)@);
                    return Err(Errno(EINVAL));
                },
            };
            let ghost regs_before = state.registrations@;
            let removed = state.registrations.remove(&fd);
            if removed.is_none() {
                assert(state.registrations@ =~= regs_before);
                self.states.insert(epfd, state);
                assert(self@ =~= old(self)@);
                return Err(Errno(ENOENT));
            }
            self.states.insert(epfd, state);
            assert(self@ =~= old(self)@.insert(epfd, old(self)@[epfd].remove(fd)));
            Ok(EpollKernelUpdate::Unregister)
        } else {
            Err(Errno(EINVAL))
        }
    }

    /// `epoll_pwait`'s delivery, once the kernel has reported: merges the
    /// first `count` reports by fd and lets the registrations of `epfd` turn
    /// them into at most `maxevents` epoll events, in increasing fd order.
    pub fn collect_ready(
        &mut self,
        epfd: c_int,
        results: &[PollResult],
        count: usize,
        maxevents: usize,
    ) -> (r: Result<Vec<epoll_event>, Errno>)
        ensures
            !old(self)@.contains_key(epfd) ==> r == Err::<Vec<epoll_event>, Errno>(Errno(EINVAL))
                && final(self)@ == old(self)@,
            old(self)@.contains_key(epfd) ==> r is Ok && {
                let delivery = deliver_ready(
                    old(self)@[epfd],
                    merged_ready(
                        results@.take(
                            if count < results@.len() {
                                count as int
                            } else {
                                results@.len() as int
                            },
                        ),
                    ),
                    Seq::empty(),
                    maxevents as nat,
                );
                &&& r->Ok_0@ == delivery.1
                &&& final(self)@ == old(self)@.insert(epfd, delivery.0)
            },
            ({
                let request = EpollRequest::Wait {
                    epfd,
                    ready: merged_ready(
                        results@.take(
                            if count < results@.len() {
                                count as int
                            } else {
                                results@.len() as int
                            },
                        ),
                    ),
                    max: maxevents as nat,
                };
                &&& final(self)@ == apply_request(old(self)@, request).0
                &&& r matches Ok(events) ==> events@ == apply_request(old(self)@, request).1
            }),
    {
        let ready_by_fd = merge_ready_by_fd(results, count);
        let ghost merged = ready_by_fd@;
        let taken = self.states.remove(&epfd);
        let mut state = match taken {
            Some(state) => state,
            None => {
                assert(self@ =~= old(self)@);
                return Err(Errno(EINVAL));
            },
        };
        let produced = deliver_all(&mut state.registrations, &ready_by_fd, maxevents);
        let ghost final_regs = state.registrations@;
        self.states.insert(epfd, state);
        assert(self@ =~= old(self)@.insert(epfd, final_regs));
        Ok(produced)
    }
}

} // verus!
