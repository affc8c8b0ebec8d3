//! Datagram receive into several buffers, with the sender's address.

use std::task::Waker;

use vstd::prelude::*;

use crate::io_uring::completion::{
    Completion, CompletionEntry, CompletionStatus, Opcode, Submission,
};
use crate::io_uring::engine::UringDriver;
use crate::io_uring::operation::Operation;
use crate::net::addr::{decode, sockaddr_of, storage, SocketAddr, SOCKADDR_IN6_LEN};
use crate::net::types::{deep, describes, io_vectors, msghdr};
use crate::ptr::{buffer_address_mut, written_back};
use crate::sync::{OneShot, OneShotState};
use crate::uring::error::{errno_of, Error};

use super::recv::min_int;

verus! {

/// The buffers after the kernel scattered `n` bytes over them: each buffer, in order, keeps
/// as many bytes as remain, up to its length.
pub open spec fn fill(bufs: Seq<Seq<u8>>, n: nat) -> Seq<Seq<u8>>
    decreases bufs.len(),
{
    if bufs.len() == 0 {
        Seq::empty()
    } else {
        let m = min_int(n as int, bufs[0].len() as int);
        seq![bufs[0].take(m)] + fill(bufs.drop_first(), (n - m) as nat)
    }
}

/// The buffers' bytes, one after another.
pub open spec fn flatten(bufs: Seq<Seq<u8>>) -> Seq<u8>
    decreases bufs.len(),
{
    if bufs.len() == 0 {
        Seq::empty()
    } else {
        bufs[0] + flatten(bufs.drop_first())
    }
}

/// The first `n` bytes of `s`, or all of it when it is shorter.
pub open spec fn prefix(s: Seq<u8>, n: nat) -> Seq<u8> {
    if n >= s.len() {
        s
    } else {
        s.take(n as int)
    }
}

/// Scattering `n` bytes over buffers keeps the byte order across buffer boundaries: read one
/// after another, the filled buffers are the first `n` bytes of the buffers' contents.
pub proof fn lemma_scatter_keeps_order(bufs: Seq<Seq<u8>>, n: nat)
    ensures
        flatten(fill(bufs, n)) == prefix(flatten(bufs), n),
    decreases bufs.len(),
{
    if bufs.len() > 0 {
        let b0 = bufs[0];
        let rest = bufs.drop_first();
        let m = min_int(n as int, b0.len() as int);
        let k = (n - m) as nat;
        lemma_scatter_keeps_order(rest, k);
        let filled = fill(bufs, n);
        assert(filled == seq![b0.take(m)] + fill(rest, k));
        assert((seq![b0.take(m)] + fill(rest, k))[0] == b0.take(m));
        assert((seq![b0.take(m)] + fill(rest, k)).drop_first() =~= fill(rest, k));
        assert(flatten(filled) == b0.take(m) + flatten(fill(rest, k)));
        let f = flatten(rest);
        assert(flatten(bufs) == b0 + f);
        if n <= b0.len() {
            assert(k == 0);
            assert(prefix(f, 0) =~= Seq::<u8>::empty());
            assert(b0.take(m) + Seq::<u8>::empty() =~= (b0 + f).take(n as int));
        } else {
            assert(b0.take(m) =~= b0);
            if k >= f.len() {
                assert(prefix(b0 + f, n) == b0 + f);
            } else {
                assert(b0 + f.take(k as int) =~= (b0 + f).take(n as int));
            }
        }
    } else {
        assert(prefix(Seq::<u8>::empty(), n) == Seq::<u8>::empty());
    }
}

/// Cuts each buffer to the bytes the kernel scattered into it, as `fill` says.
pub fn fill_buffers(bufs: Vec<Vec<u8>>, n: usize) -> (r: Vec<Vec<u8>>)
    ensures
        deep(r@) == fill(deep(bufs@), n as nat),
{
    let mut src = bufs;
    let mut out: Vec<Vec<u8>> = Vec::new();
    let mut rem = n;
    assert(deep(out@) + fill(deep(src@), rem as nat) =~= fill(deep(bufs@), n as nat));
    while src.len() > 0
        invariant
            fill(deep(bufs@), n as nat) == deep(out@) + fill(deep(src@), rem as nat),
        decreases src@.len(),
    {
        let ghost before_src = src@;
        let ghost before_out = out@;
        let ghost before_rem = rem;
        let mut b = src.remove(0);
        let m = if rem < b.len() {
            rem
        } else {
            b.len()
        };
        let ghost whole = b@;
        b.truncate(m);
        out.push(b);
        rem = rem - m;
        assert(deep(before_src).drop_first() =~= deep(src@));
        assert(deep(before_src)[0] == whole);
        assert(b@ =~= whole.take(m as int));
        assert(fill(deep(before_src), before_rem as nat) == seq![whole.take(m as int)] + fill(
            deep(src@),
            rem as nat,
        ));
        assert(deep(out@) =~= deep(before_out) + seq![b@]);
        assert(deep(before_out) + fill(deep(before_src), before_rem as nat) =~= deep(out@) + fill(
            deep(src@),
            rem as nat,
        ));
    }
    assert(fill(deep(src@), rem as nat) =~= Seq::<Seq<u8>>::empty());
    assert(deep(out@) + Seq::<Seq<u8>>::empty() =~= deep(out@));
    out
}

/// Whether `r` is what a message receive that returned `res` yields, for buffers with the
/// contents `bufs` and the sender's address written as `name`: the kernel's error; an
/// error for an address family other than IPv4 and IPv6; or the filled buffers and the
/// sender's address.
pub open spec fn recvmsg_matches(
    res: i32,
    bufs: Seq<Seq<u8>>,
    name: Seq<u8>,
    r: Result<(Vec<Vec<u8>>, SocketAddr), Error>,
) -> bool {
    if res < 0 {
        r == Err::<(Vec<Vec<u8>>, SocketAddr), Error>(Error::IO(errno_of(res)))
    } else if sockaddr_of(name) is None {
        r == Err::<(Vec<Vec<u8>>, SocketAddr), Error>(Error::InvalidAddress)
    } else {
        r matches Ok((filled, from)) && deep(filled@) == fill(bufs, res as nat) && Some(from)
            == sockaddr_of(name)
    }
}

/// A delivered message keeps its byte order across buffer boundaries: read one after
/// another, the buffers a message receive hands on are the first bytes of the buffers'
/// contents, as many as the kernel reported.
pub proof fn lemma_delivered_message_in_order(
    res: i32,
    bufs: Seq<Seq<u8>>,
    name: Seq<u8>,
    r: Result<(Vec<Vec<u8>>, SocketAddr), Error>,
)
    requires
        recvmsg_matches(res, bufs, name, r),
        r is Ok,
    ensures
        r matches Ok((filled, _from)) && flatten(deep(filled@)) == prefix(flatten(bufs), res as nat),
{
    lemma_scatter_keeps_order(bufs, res as nat);
}

/// Whether `a` and `b` are as many buffers, of the same lengths one by one.
pub open spec fn same_shape(a: Seq<Seq<u8>>, b: Seq<Seq<u8>>) -> bool {
    &&& a.len() == b.len()
    &&& forall|i: int| 0 <= i < a.len() ==> #[trigger] a[i].len() == b[i].len()
}

/// Reads every buffer back as the kernel left it; only the buffers' number and lengths are
/// known.
pub fn read_back(bufs: Vec<Vec<u8>>) -> (r: Vec<Vec<u8>>)
    ensures
        same_shape(deep(r@), deep(bufs@)),
{
    let mut src = bufs;
    let mut out: Vec<Vec<u8>> = Vec::new();
    while src.len() > 0
        invariant
            bufs@.len() == out@.len() + src@.len(),
            forall|i: int| 0 <= i < out@.len() ==> #[trigger] out@[i]@.len() == bufs@[i]@.len(),
            forall|i: int|
                0 <= i < src@.len() ==> #[trigger] src@[i]@.len() == bufs@[out@.len() + i]@.len(),
        decreases src@.len(),
    {
        let ghost before_src = src@;
        let b = src.remove(0);
        let back = written_back(b);
        out.push(back);
        assert forall|i: int| 0 <= i < src@.len() implies #[trigger] src@[i]@.len()
            == bufs@[out@.len() + i]@.len() by {
            assert(src@[i] == before_src[i + 1]);
        }
    }
    out
}

/// Decodes a message receive, as `recvmsg_matches` says.
pub fn recvmsg_result(res: i32, bufs: Vec<Vec<u8>>, name: &Vec<u8>) -> (r: Result<
    (Vec<Vec<u8>>, SocketAddr),
    Error,
>)
    ensures
        recvmsg_matches(res, deep(bufs@), name@, r),
{
    if res < 0 {
        return Err(Error::from_result(res));
    }
    match decode(name) {
        None => Err(Error::InvalidAddress),
        Some(from) => Ok((fill_buffers(bufs, res as usize), from)),
    }
}

/// A message receive, owning its buffers, the address storage and the descriptors the
/// kernel reads. Their addresses are taken once, by `new`, and none of them is resized
/// while the operation is in flight.
pub struct RecvMsgCompletion {
    fd: i32,
    addr: Vec<u8>,
    bufs: Vec<Vec<u8>>,
    iovecs: Vec<u64>,
    hdr: Vec<u64>,
    hdr_addr: u64,
    result: OneShot<Result<(Vec<Vec<u8>>, SocketAddr), Error>>,
}

impl RecvMsgCompletion {
    /// The socket received from.
    pub closed spec fn fd(&self) -> i32 {
        self.fd
    }

    /// The buffers' contents.
    pub closed spec fn bufs(&self) -> Seq<Seq<u8>> {
        deep(self.bufs@)
    }

    /// The storage the kernel writes the sender's address into.
    pub closed spec fn name(&self) -> Seq<u8> {
        self.addr@
    }

    /// The I/O vector describing the buffers.
    pub closed spec fn iovecs(&self) -> Seq<u64> {
        self.iovecs@
    }

    /// The message header.
    pub closed spec fn hdr(&self) -> Seq<u64> {
        self.hdr@
    }

    /// The value handed to the waiting task, once the completion was resolved.
    pub closed spec fn delivered(&self) -> Option<Result<(Vec<Vec<u8>>, SocketAddr), Error>> {
        self.result.offered()
    }

    /// A message receive on `fd` scattering into `bufs`, delivering into `result`. The
    /// header names the address storage with its full length and the I/O vector with one
    /// entry per buffer, each entry giving its buffer's length.
    pub fn new(
        fd: i32,
        bufs: Vec<Vec<u8>>,
        result: OneShot<Result<(Vec<Vec<u8>>, SocketAddr), Error>>,
    ) -> (op: Self)
        requires
            bufs@.len() <= usize::MAX / 2,
        ensures
            op.fd() == fd,
            op.bufs() == deep(bufs@),
            op.name().len() == SOCKADDR_IN6_LEN,
            describes(op.iovecs(), deep(bufs@)),
            op.hdr().len() == 7,
            op.hdr()[1] == SOCKADDR_IN6_LEN,
            op.hdr()[3] == bufs@.len(),
            op.hdr()[4] == 0 && op.hdr()[5] == 0,
            op.delivered() == result.offered(),
    {
        let mut addr = storage();
        let name = buffer_address_mut(&mut addr);
        let (bufs, mut iovecs) = io_vectors(bufs);
        let iov = buffer_address_mut(&mut iovecs);
        let count = bufs.len();
        let mut hdr = msghdr(name, SOCKADDR_IN6_LEN as u32, iov, count);
        let hdr_addr = buffer_address_mut(&mut hdr);
        RecvMsgCompletion { fd, addr, bufs, iovecs, hdr, hdr_addr, result }
    }

    /// The submission: receive a message described by the header.
    pub closed spec fn entry_spec(&self) -> Submission {
        Submission {
            opcode: Opcode::RecvMsg,
            fd: self.fd,
            addr: self.hdr_addr,
            len: 0,
            addr2: 0,
            user_data: 0,
            skip_success: false,
        }
    }

    pub fn entry(&self) -> (s: Submission)
        ensures
            s == self.entry_spec(),
            s.opcode == Opcode::RecvMsg && s.fd == self.fd(),
    {
        Submission::new(Opcode::RecvMsg, self.fd, self.hdr_addr, 0)
    }

    /// Hands the decoded message to the waiting task; a message receive is single-shot.
    pub fn resolve_entry(&mut self, value: CompletionEntry) -> (r: CompletionStatus)
        ensures
            r == CompletionStatus::Finalized,
            final(self).entry_spec() == old(self).entry_spec(),
            final(self).delivered() matches Some(out) && exists|rb: Seq<Seq<u8>>, nm: Seq<u8>|
                #[trigger] recvmsg_matches(value.result, rb, nm, out) && same_shape(
                    rb,
                    old(self).bufs(),
                ) && nm.len() == old(self).name().len(),
    {
        let mut bufs: Vec<Vec<u8>> = Vec::new();
        std::mem::swap(&mut bufs, &mut self.bufs);
        let mut name: Vec<u8> = Vec::new();
        std::mem::swap(&mut name, &mut self.addr);
        let received = read_back(bufs);
        let sender = written_back(name);
        let out = recvmsg_result(value.result, received, &sender);
        assert(recvmsg_matches(value.result, deep(received@), sender@, out));
        let _ = self.result.complete(out);
        CompletionStatus::Finalized
    }
}

impl Completion for RecvMsgCompletion {
    fn resolve(&mut self, value: CompletionEntry) -> (r: CompletionStatus)
        ensures
            r == CompletionStatus::Finalized,
            final(self).entry_spec() == old(self).entry_spec(),
            final(self).delivered() matches Some(out) && exists|rb: Seq<Seq<u8>>, nm: Seq<u8>|
                #[trigger] recvmsg_matches(value.result, rb, nm, out) && same_shape(
                    rb,
                    old(self).bufs(),
                ) && nm.len() == old(self).name().len(),
    {
        self.resolve_entry(value)
    }

    fn as_entry(&mut self) -> (s: Submission)
        ensures
            s == old(self).entry_spec(),
            *final(self) == *old(self),
    {
        self.entry()
    }
}

/// A message receive into several buffers, awaited through a one-shot channel.
pub struct RecvMsg {
    id: usize,
    ticket: u64,
    result: OneShot<Result<(Vec<Vec<u8>>, SocketAddr), Error>>,
}

impl RecvMsg {
    /// The slot the operation is registered under.
    pub closed spec fn slot(&self) -> usize {
        self.id
    }

    /// The ticket the operation was registered with.
    pub closed spec fn ticket(&self) -> u64 {
        self.ticket
    }

    /// Registers a message receive on `fd` scattering into `bufs`.
    pub fn new(driver: &mut UringDriver, fd: i32, bufs: Vec<Vec<u8>>) -> (r: RecvMsg)
        requires
            old(driver).wf(),
            bufs@.len() <= usize::MAX / 2,
        ensures
            final(driver).wf(),
            old(driver).drained() ==> final(driver).drained(),
            old(driver).registered(final(driver).ops()[r.slot()], *final(driver), r.slot()),
            r.ticket() == old(driver).next_ticket(),
            final(driver).holds(r.slot(), r.ticket()),
            final(driver).ops()[r.slot()] matches Operation::RecvMsg(op) && op.fd() == fd && op.bufs() == deep(bufs@) && describes(op.iovecs(), deep(bufs@)) && op.hdr().len() == 7 && op.hdr()[1] == SOCKADDR_IN6_LEN && op.hdr()[3] == bufs@.len()
                && op.hdr()[4] == 0 && op.hdr()[5] == 0 && op.delivered() is None,
    {
        let result = OneShot::new();
        let op = RecvMsgCompletion::new(fd, bufs, result.share());
        let (id, ticket) = driver.register_ticketed(Operation::RecvMsg(op));
        RecvMsg { id, ticket, result }
    }

    /// The slot the operation is registered under.
    pub fn id(&self) -> (r: usize)
        ensures
            r == self.slot(),
    {
        self.id
    }

    /// The result channel as this handle's last call found it, and as it left it.
    pub closed spec fn last_step(&self) -> Option<(OneShotState<Result<(Vec<Vec<u8>>, SocketAddr), Error>>, OneShotState<Result<(Vec<Vec<u8>>, SocketAddr), Error>>)> {
        self.result.last_step()
    }

    /// Makes `waker` the one woken when the result arrives. A result already delivered
    /// stays for `poll`.
    pub fn set_waker(&mut self, waker: Waker)
        ensures
            final(self).slot() == old(self).slot(),
            final(self).ticket() == old(self).ticket(),
            final(self).last_step() matches Some((before, after)) && after.result == before.result
                && after.completed == before.completed && after.waker == Some(waker),
    {
        self.result.set_waker(waker);
    }

    /// Replaces the waker, then takes the result if it has arrived: the result is the value
    /// the channel held, and the channel holds none afterwards.
    pub fn poll(&mut self, waker: Waker) -> (r: Option<Result<(Vec<Vec<u8>>, SocketAddr), Error>>)
        ensures
            final(self).slot() == old(self).slot(),
            final(self).ticket() == old(self).ticket(),
            final(self).last_step() matches Some((before, after)) && r == before.result && after
                == before.taken(),
    {
        self.set_waker(waker);
        self.result.take()
    }

    /// Gives the operation up. While the slot still holds this operation it is freed and
    /// one cancel targeting it is enqueued; a slot already freed, or holding a newer
    /// operation, is left alone.
    pub fn cancel(&self, driver: &mut UringDriver)
        requires
            old(driver).wf(),
        ensures
            final(driver).wf(),
            old(driver).drained() ==> final(driver).drained(),
            old(driver).holds(self.slot(), self.ticket()) ==> old(driver).deregistered(
                self.slot(),
                *final(driver),
            ),
            !old(driver).holds(self.slot(), self.ticket()) ==> old(driver).unchanged(
                *final(driver),
            ),
    {
        driver.deregister_if(self.id, self.ticket);
    }
}

} // verus!
