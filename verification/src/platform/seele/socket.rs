//! Unix-domain sockets on Seele: socket addresses become filesystem paths,
//! and `socketpair` is built from a listener at a fresh path.

use crate::error::Errno;
use crate::header::errno::{EAFNOSUPPORT, EINVAL};
use crate::header::sys_socket::{
    sockaddr_un, socklen_t, AF_UNIX, SOCK_CLOEXEC, SOCK_NONBLOCK, SOCK_STREAM,
};
use crate::platform::seele::decimal::{decimal, push_decimal, push_signed_decimal, signed_decimal};
use crate::platform::types::{c_int, pid_t};
use vstd::prelude::*;

verus! {

/// A message for `sendmsg`; the buffers are given by address (0 for null).
#[derive(Clone, Copy, Debug, PartialEq, Eq, Structural)]
pub struct msghdr {
    pub msg_name: usize,
    pub msg_namelen: socklen_t,
    pub msg_iov: usize,
    pub msg_iovlen: usize,
    pub msg_control: usize,
    pub msg_controllen: usize,
    pub msg_flags: c_int,
}

/// One buffer of a message, by address and length.
#[derive(Clone, Copy, Debug, PartialEq, Eq, Structural)]
pub struct iovec {
    pub iov_base: usize,
    pub iov_len: usize,
}

/// The bytes of `path` as unsigned bytes.
pub open spec fn unsigned_bytes(path: Seq<i8>) -> Seq<u8> {
    path.map_values(|c: i8| c as u8)
}

/// `p` is the part of `s` before its first NUL (all of `s` if it has none).
pub open spec fn is_prefix_before_nul(p: Seq<u8>, s: Seq<u8>) -> bool {
    &&& p.len() <= s.len()
    &&& p == s.take(p.len() as int)
    &&& forall|i: int| 0 <= i < p.len() ==> p[i] != 0
    &&& p.len() == s.len() || s[p.len() as int] == 0
}

/// The usable part of `sun_path` for an address of `address_len` bytes.
pub open spec fn path_field(address: sockaddr_un, address_len: socklen_t) -> Seq<u8> {
    let n = address_len - 2;
    unsigned_bytes(address.sun_path@).take(if n < 108 { n } else { 108 })
}

/// The prefix of the rendezvous paths of `socketpair`.
pub open spec fn socketpair_prefix() -> Seq<u8> {
    seq![47u8, 116u8, 109u8, 112u8, 47u8, 46u8, 114u8, 101u8, 108u8, 105u8, 98u8, 99u8, 45u8,
        112u8, 105u8, 112u8, 101u8, 45u8]
}

/// How far `socketpair` has come: how many of its kernel calls have
/// succeeded, and the descriptors made so far (-1 for none yet).
#[derive(Clone, Copy, Debug, PartialEq, Eq, Structural)]
pub struct PairProgress {
    pub done: u8,
    pub listener: c_int,
    pub first: c_int,
    pub second: c_int,
}

/// A kernel call that `socketpair` makes.
#[derive(Clone, Copy, Debug, PartialEq, Eq, Structural)]
pub enum PairCall {
    /// Make a socket of the checked kind.
    Socket,
    /// Bind the socket to the rendezvous path.
    Bind(c_int),
    /// Listen on the socket, with room for one connection.
    Listen(c_int),
    /// Connect the socket to the rendezvous path.
    Connect(c_int),
    /// Accept the waiting connection on the socket.
    Accept(c_int),
    /// Apply the flags of the requested kind to the socket.
    ApplyFlags(c_int),
}

/// What `socketpair` does next: a kernel call, or the end: the ends of the
/// pair to close, the listener to release (the rendezvous path removed,
/// then the listener closed) if there is one, and the pair or the error
/// returned.
#[derive(Debug)]
pub enum PairStep {
    Call(PairProgress, PairCall),
    Finish { close: Vec<c_int>, release_listener: Option<c_int>, result: Result<(c_int, c_int), Errno> },
}

/// The kernel calls of `socketpair`, in order: make the listener, bind it,
/// listen, make the first end, connect it, accept the second end, and
/// apply the flags to the first and then the second end.
pub open spec fn pair_call(p: PairProgress) -> PairCall {
    if p.done == 0 {
        PairCall::Socket
    } else if p.done == 1 {
        PairCall::Bind(p.listener)
    } else if p.done == 2 {
        PairCall::Listen(p.listener)
    } else if p.done == 3 {
        PairCall::Socket
    } else if p.done == 4 {
        PairCall::Connect(p.first)
    } else if p.done == 5 {
        PairCall::Accept(p.listener)
    } else if p.done == 6 {
        PairCall::ApplyFlags(p.first)
    } else {
        PairCall::ApplyFlags(p.second)
    }
}

/// The number of kernel calls of a `socketpair` that succeeds.
pub const PAIR_CALLS: u8 = 8;

/// The first step of `socketpair`, once its arguments are checked.
pub fn socketpair_start() -> (step: PairStep)
    ensures
        step matches PairStep::Call(p, call) && p == (PairProgress {
            done: 0,
            listener: -1i32,
            first: -1i32,
            second: -1i32,
        }) && call == pair_call(p),
{
    PairStep::Call(PairProgress { done: 0, listener: -1, first: -1, second: -1 }, PairCall::Socket)
}

/// The step after call `pair_call(p)` came back with `outcome` (the new
/// descriptor, where the call makes one). A failure ends the call: the
/// ends made so far are closed (the first end once it exists, the second
/// once the flags are being applied), then the rendezvous path is removed
/// and the listener closed, unless it was the listener that could not be
/// made. After the last call the pair is returned, and the path and
/// listener are released all the same.
pub fn socketpair_next(p: PairProgress, outcome: Result<c_int, Errno>) -> (step: PairStep)
    requires
        p.done < PAIR_CALLS,
    ensures
        match outcome {
            Err(e) => step matches PairStep::Finish { close, release_listener, result } && {
                &&& close@ == (if p.done == 4 || p.done == 5 {
                    seq![p.first]
                } else if p.done >= 6 {
                    seq![p.first, p.second]
                } else {
                    Seq::<c_int>::empty()
                })
                &&& release_listener == (if p.done > 0 { Some(p.listener) } else { None })
                &&& result == Err::<(c_int, c_int), Errno>(e)
            },
            Ok(v) => {
                let p1 = PairProgress {
                    done: (p.done + 1) as u8,
                    listener: if p.done == 0 { v } else { p.listener },
                    first: if p.done == 3 { v } else { p.first },
                    second: if p.done == 5 { v } else { p.second },
                };
                if p1.done == PAIR_CALLS {
                    step matches PairStep::Finish { close, release_listener, result } && close@.len()
                        == 0 && release_listener == Some(p1.listener) && result == Ok::<(c_int, c_int), Errno>(
                        (p1.first, p1.second),
                    )
                } else {
                    step matches PairStep::Call(q, call) && q == p1 && call == pair_call(p1)
                }
            },
        },
{
    match outcome {
        Err(e) => {
            let mut close: Vec<c_int> = Vec::new();
            if p.done >= 4 {
                close.push(p.first);
            }
            if p.done >= 6 {
                close.push(p.second);
            }
            proof {
                if p.done == 4 || p.done == 5 {
                    assert(close@ =~= seq![p.first]);
                } else if p.done >= 6 {
                    assert(close@ =~= seq![p.first, p.second]);
                } else {
                    assert(close@ =~= Seq::<c_int>::empty());
                }
            }
            PairStep::Finish {
                close,
                release_listener: if p.done > 0 {
                    Some(p.listener)
                } else {
                    None
                },
                result: Err(e),
            }
        },
        Ok(v) => {
            let p1 = PairProgress {
                done: p.done + 1,
                listener: if p.done == 0 { v } else { p.listener },
                first: if p.done == 3 { v } else { p.first },
                second: if p.done == 5 { v } else { p.second },
            };
            if p1.done == PAIR_CALLS {
                PairStep::Finish {
                    close: Vec::new(),
                    release_listener: Some(p1.listener),
                    result: Ok((p1.first, p1.second)),
                }
            } else {
                let call = if p1.done == 1 {
                    PairCall::Bind(p1.listener)
                } else if p1.done == 2 {
                    PairCall::Listen(p1.listener)
                } else if p1.done == 3 {
                    PairCall::Socket
                } else if p1.done == 4 {
                    PairCall::Connect(p1.first)
                } else if p1.done == 5 {
                    PairCall::Accept(p1.listener)
                } else if p1.done == 6 {
                    PairCall::ApplyFlags(p1.first)
                } else {
                    PairCall::ApplyFlags(p1.second)
                };
                PairStep::Call(p1, call)
            }
        },
    }
}

/// The rendezvous path of the `seq`th `socketpair` of thread `tid` of
/// process `pid`: `/tmp/.relibc-pipe-PID-TID-SEQ`.
pub open spec fn socketpair_path(pid: pid_t, tid: pid_t, seq: u64) -> Seq<u8> {
    socketpair_prefix() + signed_decimal(pid as int) + seq![45u8] + signed_decimal(tid as int)
        + seq![45u8] + decimal(seq as nat)
}

/// The filesystem path that a Unix-domain socket address names: the bytes
/// of `sun_path` within `address_len`, up to the first NUL. A missing
/// address, an empty path and a name that starts with NUL (an abstract
/// address) are `EINVAL`; another address family is `EAFNOSUPPORT`.
pub fn unix_socket_path(address: Option<&sockaddr_un>, address_len: socklen_t) -> (r: Result<
    Vec<u8>,
    Errno,
>)
    ensures
        match address {
            None => r == Err::<Vec<u8>, Errno>(Errno(EINVAL)),
            Some(a) => if a.sun_family as c_int != AF_UNIX {
                r == Err::<Vec<u8>, Errno>(Errno(EAFNOSUPPORT))
            } else if address_len <= 2 {
                r == Err::<Vec<u8>, Errno>(Errno(EINVAL))
            } else {
                let field = path_field(*a, address_len);
                if field.len() == 0 || field[0] == 0 {
                    r == Err::<Vec<u8>, Errno>(Errno(EINVAL))
                } else {
                    r is Ok && is_prefix_before_nul(r->Ok_0@, field)
                }
            },
        },
{
    let address = match address {
        Some(a) => a,
        None => return Err(Errno(EINVAL)),
    };
    if address.sun_family as c_int != AF_UNIX {
        return Err(Errno(EAFNOSUPPORT));
    }

    let path_offset = address.path_offset();
    let len = address_len as usize;
    if len <= path_offset {
        return Err(Errno(EINVAL));
    }

    let available = len - path_offset;
    let path_len = if available < 108 {
        available
    } else {
        108
    };
    let ghost field = path_field(*address, address_len);
    let mut end: usize = 0;
    while end < path_len && address.sun_path[end] != 0
        invariant
            0 <= end <= path_len <= 108,
            path_len == field.len(),
            field == unsigned_bytes(address.sun_path@).take(path_len as int),
            forall|i: int| 0 <= i < end ==> field[i] != 0,
        decreases path_len - end,
    {
        let c = address.sun_path[end];
        assert((c as u8 == 0) == (c == 0)) by (bit_vector);
        assert(field[end as int] == c as u8);
        end = end + 1;
    }
    if end < path_len {
        let c = address.sun_path[end];
        assert((c as u8 == 0) == (c == 0)) by (bit_vector);
        assert(field[end as int] == c as u8);
    }
    if end == 0 {
        return Err(Errno(EINVAL));
    }

    let mut path: Vec<u8> = Vec::new();
    let mut i: usize = 0;
    while i < end
        invariant
            0 <= i <= end <= path_len <= 108,
            path_len == field.len(),
            field == unsigned_bytes(address.sun_path@).take(path_len as int),
            path@ == field.take(i as int),
        decreases end - i,
    {
        path.push(address.sun_path[i] as u8);
        assert(path@ =~= field.take(i + 1));
        i = i + 1;
    }
    assert(field.take(end as int).len() == end);
    Ok(path)
}

/// The socket type with the `SOCK_NONBLOCK` and `SOCK_CLOEXEC` flags taken
/// off, as Seele's `socket` call takes it.
pub fn socket_base_kind(kind: c_int) -> (r: c_int)
    ensures
        r == kind & !(SOCK_NONBLOCK | SOCK_CLOEXEC),
{
    kind & !(SOCK_NONBLOCK | SOCK_CLOEXEC)
}

/// Whether a new socket of type `kind` must be made non-blocking.
pub fn wants_nonblock(kind: c_int) -> (r: bool)
    ensures
        r == ((kind & SOCK_NONBLOCK) != 0),
{
    (kind & SOCK_NONBLOCK) != 0
}

/// The checks of `socketpair`: only Unix-domain stream sockets with the
/// default protocol (`EINVAL` otherwise). Returns the base socket type.
pub fn socketpair_check(domain: c_int, kind: c_int, protocol: c_int) -> (r: Result<c_int, Errno>)
    ensures
        (domain == AF_UNIX && kind & !(SOCK_NONBLOCK | SOCK_CLOEXEC) == SOCK_STREAM && protocol
            == 0) ==> r == Ok::<c_int, Errno>(SOCK_STREAM),
        !(domain == AF_UNIX && kind & !(SOCK_NONBLOCK | SOCK_CLOEXEC) == SOCK_STREAM && protocol
            == 0) ==> r == Err::<c_int, Errno>(Errno(EINVAL)),
{
    let base_kind = socket_base_kind(kind);
    if domain != AF_UNIX || base_kind != SOCK_STREAM || protocol != 0 {
        return Err(Errno(EINVAL));
    }
    Ok(base_kind)
}

/// The backlog that `listen` hands Seele: negative backlogs count as zero.
pub fn listen_backlog(backlog: c_int) -> (r: u64)
    ensures
        backlog < 0 ==> r == 0,
        backlog >= 0 ==> r == backlog as u64,
{
    if backlog < 0 {
        0
    } else {
        backlog as u64
    }
}

/// The checks of `sendto`: Seele sockets are connected, so a destination is
/// `EINVAL`.
pub fn sendto_check(dest_addr: usize, dest_len: socklen_t) -> (r: Result<(), Errno>)
    ensures
        (dest_addr == 0 && dest_len == 0) <==> r is Ok,
        r is Err ==> r == Err::<(), Errno>(Errno(EINVAL)),
{
    if dest_addr != 0 || dest_len != 0 {
        return Err(Errno(EINVAL));
    }
    Ok(())
}

/// The checks of `sendmsg` before any data moves: a message must be given,
/// with no address and no control data (`EINVAL` otherwise). Returns
/// whether there are buffers to send; buffers given without an address
/// are `EINVAL`.
pub fn sendmsg_check(msg: Option<&msghdr>) -> (r: Result<bool, Errno>)
    ensures
        match msg {
            None => r == Err::<bool, Errno>(Errno(EINVAL)),
            Some(m) => if m.msg_name != 0 || m.msg_namelen != 0 || m.msg_control != 0
                || m.msg_controllen != 0 {
                r == Err::<bool, Errno>(Errno(EINVAL))
            } else if m.msg_iovlen == 0 {
                r == Ok::<bool, Errno>(false)
            } else if m.msg_iov == 0 {
                r == Err::<bool, Errno>(Errno(EINVAL))
            } else {
                r == Ok::<bool, Errno>(true)
            },
        },
{
    let msg = match msg {
        Some(m) => m,
        None => return Err(Errno(EINVAL)),
    };
    if msg.msg_name != 0 || msg.msg_namelen != 0 || msg.msg_control != 0 || msg.msg_controllen
        != 0 {
        return Err(Errno(EINVAL));
    }
    if msg.msg_iovlen == 0 {
        return Ok(false);
    }
    if msg.msg_iov == 0 {
        return Err(Errno(EINVAL));
    }
    Ok(true)
}

/// What `sendmsg` does next with the buffers of a message.
#[derive(Clone, Copy, Debug, PartialEq, Eq)]
pub enum SendStep {
    /// Write buffer `index` (`len` bytes from address `base`); `total`
    /// bytes of the message have been written before it.
    Write { index: usize, base: usize, len: usize, total: usize },
    /// Stop, returning this.
    Done(Result<usize, Errno>),
}

/// The next step of `sendmsg` from buffer `i` on, with `total` bytes written
/// so far: empty buffers are passed over, a non-empty one without an address
/// is refused (`EINVAL`), the first other one is written, and past the last
/// buffer the total is returned.
pub open spec fn send_from(iovs: Seq<iovec>, i: int, total: usize) -> SendStep
    decreases iovs.len() - i,
{
    if i < 0 || i >= iovs.len() {
        SendStep::Done(Ok(total))
    } else if iovs[i].iov_len == 0 {
        send_from(iovs, i + 1, total)
    } else if iovs[i].iov_base == 0 {
        SendStep::Done(Err(Errno(EINVAL)))
    } else {
        SendStep::Write { index: i as usize, base: iovs[i].iov_base, len: iovs[i].iov_len, total }
    }
}

/// `sendmsg`'s first step for the buffers `iovs` of a message that passed
/// `sendmsg_check`.
pub fn sendmsg_start(iovs: &[iovec]) -> (step: SendStep)
    ensures
        step == send_from(iovs@, 0, 0),
{
    sendmsg_from(iovs, 0, 0)
}

/// The step of `sendmsg` from buffer `index` on, with `total` bytes written.
fn sendmsg_from(iovs: &[iovec], index: usize, total: usize) -> (step: SendStep)
    ensures
        step == send_from(iovs@, index as int, total),
{
    let mut i = index;
    while i < iovs.len()
        invariant
            index <= i,
            send_from(iovs@, i as int, total) == send_from(iovs@, index as int, total),
        decreases iovs@.len() - i,
    {
        if iovs[i].iov_len != 0 {
            if iovs[i].iov_base == 0 {
                return SendStep::Done(Err(Errno(EINVAL)));
            }
            return SendStep::Write {
                index: i,
                base: iovs[i].iov_base,
                len: iovs[i].iov_len,
                total,
            };
        }
        i = i + 1;
    }
    SendStep::Done(Ok(total))
}

/// `sendmsg`'s step after buffer `index` took `written` of its bytes, with
/// `total` bytes written before it: a short write ends the call with the
/// new total; a complete one goes on with the next buffer.
pub fn sendmsg_after_write(iovs: &[iovec], index: usize, total: usize, written: usize) -> (step:
    SendStep)
    requires
        index < iovs@.len(),
        total + written <= usize::MAX,
    ensures
        step == if written < iovs@[index as int].iov_len {
            SendStep::Done(Ok((total + written) as usize))
        } else {
            send_from(iovs@, index + 1, (total + written) as usize)
        },
{
    let total = total + written;
    if written < iovs[index].iov_len {
        return SendStep::Done(Ok(total));
    }
    sendmsg_from(iovs, index + 1, total)
}

/// The rendezvous path of the `seq`th `socketpair` of thread `tid` of
/// process `pid`.
pub fn next_socketpair_path(pid: pid_t, tid: pid_t, seq: u64) -> (path: Vec<u8>)
    ensures
        path@ == socketpair_path(pid, tid, seq),
{
    let prefix: [u8; 18] = [47, 116, 109, 112, 47, 46, 114, 101, 108, 105, 98, 99, 45, 112, 105,
        112, 101, 45];
    let mut path: Vec<u8> = Vec::new();
    let mut i: usize = 0;
    while i < 18
        invariant
            0 <= i <= 18,
            prefix@ == socketpair_prefix(),
            path@ == prefix@.take(i as int),
        decreases 18 - i,
    {
        path.push(prefix[i]);
        assert(path@ =~= prefix@.take(i + 1));
        i = i + 1;
    }
    assert(prefix@.take(18) =~= prefix@);
    push_signed_decimal(&mut path, pid as i64);
    path.push(45);
    push_signed_decimal(&mut path, tid as i64);
    path.push(45);
    push_decimal(&mut path, seq);
    assert(path@ =~= socketpair_path(pid, tid, seq));
    path
}

/// Different numbers have different decimal renderings.
pub proof fn lemma_decimal_injective(a: nat, b: nat)
    requires
        decimal(a) == decimal(b),
    ensures
        a == b,
    decreases a,
{
    lemma_decimal_length(a);
    lemma_decimal_length(b);
    if a < 10 && b < 10 {
        assert(decimal(a)[0] == (48 + a) as u8);
        assert(decimal(b)[0] == (48 + b) as u8);
    } else if a >= 10 && b >= 10 {
        assert(decimal(a).drop_last() =~= decimal(a / 10));
        assert(decimal(b).drop_last() =~= decimal(b / 10));
        assert(0 <= a % 10 < 10 && 0 <= b % 10 < 10);
        assert(decimal(a).last() == (48 + a % 10) as u8);
        assert(decimal(b).last() == (48 + b % 10) as u8);
        assert(a % 10 == b % 10);
        lemma_decimal_injective(a / 10, b / 10);
        assert(a == 10 * (a / 10) + a % 10);
        assert(b == 10 * (b / 10) + b % 10);
    }
}

/// A decimal rendering has one digit below 10 and at least two from 10 on.
proof fn lemma_decimal_length(n: nat)
    ensures
        n < 10 ==> decimal(n).len() == 1,
        n >= 10 ==> decimal(n).len() >= 2,
    decreases n,
{
    if n >= 10 {
        lemma_decimal_length(n / 10);
    }
}

/// Every `socketpair` of a thread gets a rendezvous path of its own: the
/// paths for two different sequence numbers differ.
pub proof fn lemma_socketpair_paths_distinct(pid: pid_t, tid: pid_t, a: u64, b: u64)
    requires
        a != b,
    ensures
        socketpair_path(pid, tid, a) != socketpair_path(pid, tid, b),
{
    let head = socketpair_prefix() + signed_decimal(pid as int) + seq![45u8] + signed_decimal(
        tid as int,
    ) + seq![45u8];
    assert(socketpair_path(pid, tid, a) == head + decimal(a as nat));
    assert(socketpair_path(pid, tid, b) == head + decimal(b as nat));
    if socketpair_path(pid, tid, a) == socketpair_path(pid, tid, b) {
        assert((head + decimal(a as nat)).skip(head.len() as int) =~= decimal(a as nat));
        assert((head + decimal(b as nat)).skip(head.len() as int) =~= decimal(b as nat));
        lemma_decimal_injective(a as nat, b as nat);
    }
}

} // verus!
