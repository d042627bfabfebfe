//! The pool's notification channel, as far as the miner uses it.

use vstd::prelude::*;
use futures::channel::mpsc::Receiver;
use futures::stream::{Fuse, Stream, StreamExt};
use std::pin::Pin;
use std::task::{Context, Poll};
use crate::types::TransactionHandle;

verus! {

/// `futures::channel::mpsc::Receiver`, the receiving end of a bounded
/// channel. Nothing is known of what a receiver holds.
#[verifier::external_type_specification]
#[verifier::external_body]
#[verifier::reject_recursive_types(T)]
pub struct ExReceiver<T>(Receiver<T>);

/// `futures::stream::Fuse`, a stream that keeps answering "ended" once the
/// stream inside it has ended. Nothing is known of what it holds.
#[verifier::external_type_specification]
#[verifier::external_body]
#[verifier::reject_recursive_types(St)]
pub struct ExFuse<St>(Fuse<St>);

/// `std::task::Context`, through which a polled channel reaches the task's
/// waker. Nothing is known of what it holds.
#[verifier::external_type_specification]
#[verifier::external_body]
pub struct ExContext<'a>(Context<'a>);

/// The stream that `futures::stream::StreamExt::fuse` makes of a receiver.
/// It holds the receiver it was made of and nothing else of its own but the
/// mark that the receiver has ended, which is not set at first; so it is
/// the same for the same receiver.
pub uninterp spec fn fused(rx: Receiver<TransactionHandle>) -> Fuse<Receiver<TransactionHandle>>;

/// Calls `futures::stream::StreamExt::fuse` on the receiver. The contract
/// claims that the stream that comes back is the one that `fuse` makes of
/// this receiver, and so of no other.
#[verifier::external_body]
pub(crate) fn fuse(rx: Receiver<TransactionHandle>) -> (stream: Fuse<Receiver<TransactionHandle>>)
    ensures
        stream == fused(rx),
{
    rx.fuse()
}

/// Calls `futures::stream::Stream::poll_next` on the fused receiver, once.
/// A handle comes back when the channel had one at hand; `None` stands both
/// for "nothing at hand" (the context's waker is then registered with the
/// channel) and for "closed". What comes back depends on the senders, so the
/// contract claims nothing of it.
#[verifier::external_body]
pub(crate) fn poll_next(
    rx: &mut Fuse<Receiver<TransactionHandle>>,
    cx: &mut Context<'_>,
) -> Option<TransactionHandle> {
    match Pin::new(rx).poll_next(cx) {
        Poll::Ready(item) => item,
        Poll::Pending => None,
    }
}

} // verus!
