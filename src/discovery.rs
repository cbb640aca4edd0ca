//! Discovery of bootstrap peers.
//!
//! A [`Discovery`] provider is consumed once by [`Discovery::discover`] and
//! becomes a sequence of candidates, which the protocol engine polls for as
//! long as it runs. Such a sequence is long-lived: when it has nothing to give
//! it is pending, and it may stay so forever.

use vstd::prelude::*;

use crate::addr::{PeerId, SocketAddress};

verus! {

/// A peer to try, with the addresses at which it may be reached.
#[derive(Clone, Debug, PartialEq, Eq)]
pub struct Candidate<A> {
    pub peer: PeerId,
    pub addrs: Vec<A>,
}

/// What one poll of a candidate sequence gives.
#[derive(Clone, Debug, PartialEq, Eq)]
pub enum PollNext<A> {
    /// The next candidate.
    Ready(Candidate<A>),
    /// Nothing yet; poll again later.
    Pending,
    /// The sequence is over.
    Ended,
}

/// A lazily produced sequence of discovery candidates.
pub trait CandidateStream<A> {
    /// Polls for the next candidate.
    fn poll_next(&mut self) -> PollNext<A>;
}

/// A strategy for finding bootstrap peers.
pub trait Discovery: Sized {
    /// How the addresses of candidates are represented.
    type Addr;
    /// The sequence that the provider becomes.
    type Stream: CandidateStream<Self::Addr>;

    /// Turns the provider into its sequence of candidates; the provider is
    /// consumed, so this happens at most once for each instance.
    fn discover(self) -> Self::Stream;
}

/// Relies on futures::stream::pending, which builds a stream that never
/// yields; nothing more is claimed of the value.
pub assume_specification<T>[ futures::stream::pending::<T> ]() -> futures::stream::Pending<T>;

/// futures' `Pending` stream, carried as an opaque value.
#[verifier::external_type_specification]
#[verifier::external_body]
#[verifier::reject_recursive_types(T)]
pub struct ExPending<T>(futures::stream::Pending<T>);

/// Relies on futures' `Pending::poll_next`, which returns `Poll::Pending` on
/// every call and ignores the context it is given; `None` stands for
/// `Poll::Pending`.
#[verifier::external_body]
fn poll_pending<T>(s: &mut futures::stream::Pending<T>) -> (r: Option<Option<T>>)
    ensures
        r.is_none(),
{
    let mut cx = std::task::Context::from_waker(futures::task::noop_waker_ref());
    match futures::stream::Stream::poll_next(std::pin::Pin::new(s), &mut cx) {
        std::task::Poll::Ready(item) => Some(item),
        std::task::Poll::Pending => None,
    }
}

/// Discovery that never provides a bootstrap peer.
#[derive(Clone, Copy, Debug)]
pub struct NoDiscovery;

/// The sequence of [`NoDiscovery`]: pending from the start, forever.
pub struct NoDiscoveryStream {
    inner: futures::stream::Pending<Candidate<SocketAddress>>,
}

impl CandidateStream<SocketAddress> for NoDiscoveryStream {
    /// Never yields a candidate and never ends.
    fn poll_next(&mut self) -> (r: PollNext<SocketAddress>)
        ensures
            r is Pending,
    {
        match poll_pending(&mut self.inner) {
            Some(Some(c)) => PollNext::Ready(c),
            Some(None) => PollNext::Ended,
            None => PollNext::Pending,
        }
    }
}

impl Discovery for NoDiscovery {
    type Addr = SocketAddress;
    type Stream = NoDiscoveryStream;

    fn discover(self) -> (s: NoDiscoveryStream) {
        NoDiscoveryStream { inner: futures::stream::pending() }
    }
}

/// Whether a candidate gives at least one address to try.
pub open spec fn has_addrs<A>(c: Candidate<A>) -> bool {
    c.addrs@.len() > 0
}

/// The candidates of `peers` that can be tried, in their order.
pub open spec fn usable<A>(peers: Seq<Candidate<A>>) -> Seq<Candidate<A>> {
    peers.filter(|c: Candidate<A>| has_addrs(c))
}

/// Discovery from a fixed list of known peers.
pub struct StaticDiscovery<A> {
    peers: Vec<Candidate<A>>,
}

impl<A> StaticDiscovery<A> {
    /// The candidates that the provider will yield, in order.
    pub closed spec fn candidates(&self) -> Seq<Candidate<A>> {
        self.peers@
    }

    /// A provider for the known `peers`. An entry without any address cannot
    /// be tried: it is skipped, and the others keep their order.
    pub fn new(peers: Vec<Candidate<A>>) -> (r: Self)
        ensures
            r.candidates() == usable(peers@),
    {
        let ghost orig = peers@;
        let mut rest = peers;
        let mut kept: Vec<Candidate<A>> = Vec::new();
        let ghost mut k: int = 0;
        while rest.len() > 0
            invariant
                0 <= k <= orig.len(),
                rest@ == orig.subrange(k, orig.len() as int),
                kept@ == usable(orig.take(k)),
            decreases rest@.len(),
        {
            let c = rest.remove(0);
            proof {
                assert(orig.take(k + 1).drop_last() =~= orig.take(k));
                assert(orig.take(k + 1).last() == c);
                reveal(Seq::filter);
                assert(rest@ =~= orig.subrange(k + 1, orig.len() as int));
                k = k + 1;
            }
            if c.addrs.len() > 0 {
                kept.push(c);
            }
        }
        proof {
            assert(orig.take(k) =~= orig);
        }
        StaticDiscovery { peers: kept }
    }
}

/// The sequence of a [`StaticDiscovery`]: each known candidate once, in
/// order, then pending forever.
pub struct StaticStream<A> {
    remaining: Vec<Candidate<A>>,
}

impl<A> StaticStream<A> {
    /// The candidates still to be yielded, in order.
    pub closed spec fn remaining(&self) -> Seq<Candidate<A>> {
        self.remaining@
    }
}

impl<A> CandidateStream<A> for StaticStream<A> {
    /// Yields the first remaining candidate; once none remains, stays
    /// pending. It never ends.
    fn poll_next(&mut self) -> (r: PollNext<A>)
        ensures
            old(self).remaining().len() > 0 ==> {
                &&& r == PollNext::Ready(old(self).remaining()[0])
                &&& final(self).remaining() == old(self).remaining().drop_first()
            },
            old(self).remaining().len() == 0 ==> {
                &&& r is Pending
                &&& final(self).remaining() == old(self).remaining()
            },
    {
        if self.remaining.len() > 0 {
            let c = self.remaining.remove(0);
            proof {
                assert(self.remaining@ =~= old(self).remaining@.drop_first());
            }
            PollNext::Ready(c)
        } else {
            PollNext::Pending
        }
    }
}

impl<A> Discovery for StaticDiscovery<A> {
    type Addr = A;
    type Stream = StaticStream<A>;

    fn discover(self) -> (s: StaticStream<A>)
        ensures
            s.remaining() == self.candidates(),
    {
        StaticStream { remaining: self.peers }
    }
}

} // verus!
