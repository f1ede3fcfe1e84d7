//! The editor-side handle: it keeps the most recently loaded impulse
//! response and owns the sending end of the hot-swap queue.
//!
//! Reading an impulse-response file is the caller's business; the library
//! does the computing half of a load: splitting the decoded interleaved
//! samples into the two channels ([`deinterleave`]) and sending messages to
//! the audio thread ([`UI::send_message`]).

use vstd::prelude::*;

use crate::plugin::Message;

verus! {

/// Splits interleaved stereo samples into the left (even-indexed) and right
/// (odd-indexed) channels.
#[verifier::loop_isolation(false)]
pub fn deinterleave(samples: &Vec<u32>) -> (r: (Vec<u32>, Vec<u32>))
    ensures
        r.0@ == Seq::new(((samples@.len() + 1) / 2) as nat, |k: int| samples@[2 * k]),
        r.1@ == Seq::new((samples@.len() / 2) as nat, |k: int| samples@[2 * k + 1]),
{
    let n = samples.len();
    let mut left: Vec<u32> = Vec::new();
    let mut right: Vec<u32> = Vec::new();
    let mut i: usize = 0;
    while i < n
        invariant
            i <= n,
            left@.len() == (i + 1) / 2,
            right@.len() == i / 2,
            forall|k: int| 0 <= k < left@.len() ==> left@[k] == samples@[2 * k],
            forall|k: int| 0 <= k < right@.len() ==> right@[k] == samples@[2 * k + 1],
        decreases n - i,
    {
        let x = samples[i];
        if i % 2 == 0 {
            left.push(x);
        } else {
            right.push(x);
        }
        i = i + 1;
    }
    proof {
        assert(left@ =~= Seq::new(((samples@.len() + 1) / 2) as nat, |k: int| samples@[2 * k]));
        assert(right@ =~= Seq::new((samples@.len() / 2) as nat, |k: int| samples@[2 * k + 1]));
    }
    (left, right)
}

/// The editor's handle on the engine: the sender of the hot-swap queue and
/// the channels of the last impulse response it loaded.
pub struct UI {
    tx: crossbeam::channel::Sender<Message>,
    impulse_response: Option<Vec<Vec<u32>>>,
}

impl UI {
    /// The channels of the last impulse response this handle loaded, if any.
    pub closed spec fn impulse(&self) -> Option<Seq<Seq<u32>>> {
        match self.impulse_response {
            Some(chans) => Some(chans@.map_values(|c: Vec<u32>| c@)),
            None => None,
        }
    }

    pub fn new(tx: crossbeam::channel::Sender<Message>) -> (r: UI)
        ensures
            r.impulse() is None,
    {
        UI { tx, impulse_response: None }
    }

    /// Keeps the decoded channels of the impulse response just loaded.
    pub fn remember_impulse(&mut self, channels: Vec<Vec<u32>>)
        ensures
            final(self).impulse() == Some(channels@.map_values(|c: Vec<u32>| c@)),
    {
        self.impulse_response = Some(channels);
    }

    /// Relies on `crossbeam::channel::Sender::send`: delivers the message to
    /// the receiving end, blocking while a bounded queue is full; once every
    /// receiver is gone it returns the message inside the error instead.
    #[verifier::external_body]
    pub fn send_message(&self, m: Message) -> (r: Result<(), Message>) {
        match self.tx.send(m) {
            Ok(()) => Ok(()),
            Err(e) => Err(e.0),
        }
    }
}

} // verus!
