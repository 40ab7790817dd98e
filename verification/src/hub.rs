//! The session hub: the registry of active sessions together with each
//! session's output channel. Its view maps each registered session
//! identifier to that session's pending messages, oldest first.

use vstd::prelude::*;
use crate::channel::OutputChannel;
use crate::envelope::completion_envelope;
use crate::envelope::completion_of;
use crate::envelope::envelope_wire;
use crate::registry::SessionRegistry;

verus! {

/// What became of an attempted delivery.
pub enum SendStatus {
    /// The message was appended to the session's channel.
    Sent,
    /// The session exists but its channel is at capacity; the producer
    /// must wait and try again.
    Full,
    /// No session with that identifier is registered; the message is
    /// dropped.
    NoSession,
}

/// All active sessions and their output channels.
pub struct SessionHub {
    registry: SessionRegistry<OutputChannel>,
    capacity: usize,
}

/// Relies on `uuid::Uuid::new_v4` and its hyphenated `Display` form: a
/// fresh random identifier rendered as 36 characters.
#[verifier::external_body]
fn fresh_session_id() -> (r: String)
    ensures
        r@.len() == 36,
{
    uuid::Uuid::new_v4().to_string()
}

impl SessionHub {
    /// Every channel is well formed and bounded by the hub's capacity.
    pub closed spec fn wf(&self) -> bool {
        &&& self.registry.wf()
        &&& self.capacity >= 1
        &&& forall|k: Seq<char>|
            self.registry@.contains_key(k) ==> (#[trigger] self.registry@[k]).wf()
                && self.registry@[k].spec_capacity() == self.capacity
    }

    /// The bound every session's channel is created with.
    pub closed spec fn spec_capacity(&self) -> nat {
        self.capacity as nat
    }

    /// An empty hub whose channels will hold at most `capacity` pending
    /// messages each.
    pub fn new(capacity: usize) -> (r: Self)
        requires
            capacity >= 1,
        ensures
            r.wf(),
            r@ == Map::<Seq<char>, Seq<String>>::empty(),
            r.spec_capacity() == capacity,
    {
        let r = SessionHub { registry: SessionRegistry::new(), capacity };
        proof {
            assert(r@ =~= Map::<Seq<char>, Seq<String>>::empty());
        }
        r
    }

    /// Accepts a new connection: generates a session identifier, creates
    /// that session's bounded channel, and registers it.
    pub fn connect(&mut self) -> (id: String)
        requires
            old(self).wf(),
        ensures
            final(self).wf(),
            final(self).spec_capacity() == old(self).spec_capacity(),
            id@.len() == 36,
            final(self)@ == old(self)@.insert(id@, Seq::<String>::empty()),
    {
        let id = fresh_session_id();
        let chan = OutputChannel::new(self.capacity);
        self.registry.register(id.clone(), chan);
        proof {
            assert(final(self)@ =~= old(self)@.insert(id@, Seq::<String>::empty()));
        }
        id
    }

    /// Appends a message to the session's channel, if the session is
    /// registered and its channel has room. A missing session drops the
    /// message; a full channel refuses it and changes nothing.
    pub fn send_to_session(&mut self, session_id: &String, message: String) -> (r: SendStatus)
        requires
            old(self).wf(),
        ensures
            final(self).wf(),
            final(self).spec_capacity() == old(self).spec_capacity(),
            match r {
                SendStatus::Sent => old(self)@.contains_key(session_id@) && old(self)@[session_id@].len()
                    < old(self).spec_capacity() && final(self)@ == old(self)@.insert(
                    session_id@,
                    old(self)@[session_id@].push(message),
                ),
                SendStatus::Full => old(self)@.contains_key(session_id@) && old(
                    self,
                )@[session_id@].len() == old(self).spec_capacity() && final(self)@ == old(self)@,
                SendStatus::NoSession => !old(self)@.contains_key(session_id@) && final(self)@
                    == old(self)@,
            },
    {
        match self.registry.take(session_id) {
            Some(mut chan) => {
                let ghost chan0 = chan;
                let accepted = chan.try_send(message);
                self.registry.register(session_id.clone(), chan);
                proof {
                    assert(old(self).registry@[session_id@].wf());
                    assert(chan0 == old(self).registry@[session_id@]);
                    assert(old(self)@[session_id@] == chan0@);
                    if accepted {
                        assert(final(self)@ =~= old(self)@.insert(
                            session_id@,
                            old(self)@[session_id@].push(message),
                        ));
                    } else {
                        assert(chan0@.len() == chan0.spec_capacity());
                        assert(final(self)@ =~= old(self)@);
                    }
                }
                if accepted {
                    SendStatus::Sent
                } else {
                    SendStatus::Full
                }
            },
            None => {
                SendStatus::NoSession
            },
        }
    }

    /// Removes and returns the oldest pending message of a session, in
    /// the order the messages were sent; the forwarder drains a session's
    /// channel through this.
    pub fn next_message(&mut self, session_id: &String) -> (r: Option<String>)
        requires
            old(self).wf(),
        ensures
            final(self).wf(),
            final(self).spec_capacity() == old(self).spec_capacity(),
            match r {
                Some(m) => old(self)@.contains_key(session_id@) && old(self)@[session_id@].len() > 0
                    && m == old(self)@[session_id@][0] && final(self)@ == old(self)@.insert(
                    session_id@,
                    old(self)@[session_id@].drop_first(),
                ),
                None => final(self)@ == old(self)@ && (old(self)@.contains_key(session_id@) ==> old(
                    self,
                )@[session_id@].len() == 0),
            },
    {
        match self.registry.take(session_id) {
            Some(mut chan) => {
                let r = chan.recv();
                self.registry.register(session_id.clone(), chan);
                proof {
                    if r is Some {
                        assert(final(self)@ =~= old(self)@.insert(
                            session_id@,
                            old(self)@[session_id@].drop_first(),
                        ));
                    } else {
                        assert(final(self)@ =~= old(self)@);
                    }
                }
                r
            },
            None => {
                None
            },
        }
    }

    /// Tears a session down when its connection closes; pending messages
    /// are discarded with the channel.
    pub fn disconnect(&mut self, session_id: &String)
        requires
            old(self).wf(),
        ensures
            final(self).wf(),
            final(self).spec_capacity() == old(self).spec_capacity(),
            final(self)@ == old(self)@.remove(session_id@),
    {
        self.registry.remove(session_id);
        proof {
            assert(final(self)@ =~= old(self)@.remove(session_id@));
        }
    }

    /// After an invocation finishes, sends exactly one terminal envelope
    /// to the session — if the session is still registered. A session
    /// already torn down is silently skipped: that is the expected
    /// disconnect race, not an error.
    pub fn report_completion(&mut self, session_id: &String, result: Result<(), String>) -> (r:
        SendStatus)
        requires
            old(self).wf(),
        ensures
            final(self).wf(),
            final(self).spec_capacity() == old(self).spec_capacity(),
            !(r is NoSession) <==> old(self)@.contains_key(session_id@),
            match r {
                SendStatus::Sent => old(self)@.contains_key(session_id@) && (exists|m: String|
                    m@ == envelope_wire(completion_of(result)) && final(self)@ == old(
                        self,
                    )@.insert(session_id@, old(self)@[session_id@].push(m))),
                SendStatus::Full => old(self)@.contains_key(session_id@) && old(
                    self,
                )@[session_id@].len() == old(self).spec_capacity() && final(self)@ == old(self)@,
                SendStatus::NoSession => !old(self)@.contains_key(session_id@) && final(self)@
                    == old(self)@,
            },
    {
        let message = completion_envelope(&result).encode();
        self.send_to_session(session_id, message)
    }
}

impl View for SessionHub {
    type V = Map<Seq<char>, Seq<String>>;

    closed spec fn view(&self) -> Map<Seq<char>, Seq<String>> {
        Map::new(
            |k: Seq<char>| self.registry@.contains_key(k),
            |k: Seq<char>| self.registry@[k]@,
        )
    }
}

/// Law (session isolation): a hub step that delivers a message to one
/// session — or delivers nothing — leaves every other session's pending
/// messages exactly as they were.
pub proof fn lemma_session_isolation(
    h0: Map<Seq<char>, Seq<String>>,
    h1: Map<Seq<char>, Seq<String>>,
    target: Seq<char>,
    other: Seq<char>,
    message: String,
)
    requires
        other != target,
        h1 == h0.insert(target, h0[target].push(message)) || h1 == h0,
    ensures
        h0.contains_key(other) ==> h1.contains_key(other) && h1[other] == h0[other],
{
}

} // verus!
