//! The publishing actor's event-loop bookkeeping: which publishes the broker
//! has not yet acknowledged, and when the background task must stop.  The
//! actor's bus connection and its mailbox live outside the library; they feed
//! events in and carry the decisions out.

use vstd::prelude::*;

verus! {

/// A request placed in the actor's mailbox.
pub enum MqttMessage {
    Publish { topic: String, payload: String },
}

/// An event seen on the bus client's event loop, reduced to what the actor's
/// bookkeeping reacts to.
#[derive(Debug, Clone, Copy, PartialEq, Eq, Structural)]
pub enum BusEvent {
    /// The broker confirmed the connection.
    ConnAck,
    /// The broker acknowledged the publish with this packet id.
    PubAck(u16),
    /// The broker answered a keep-alive ping.
    PingResp,
    /// The broker asked to disconnect.
    Disconnect,
    /// Anything else seen on the event loop.
    Other,
}

/// What the event-loop task does after handling one event.
#[derive(Debug, Clone, Copy, PartialEq, Eq, Structural)]
pub enum LoopAction {
    Continue,
    Stop,
}

/// `s` with every occurrence of `pkid` removed, the rest kept in order.
pub open spec fn remove_acked(s: Seq<u16>, pkid: u16) -> Seq<u16>
    decreases s.len(),
{
    if s.len() == 0 {
        Seq::empty()
    } else if s.last() == pkid {
        remove_acked(s.drop_last(), pkid)
    } else {
        remove_acked(s.drop_last(), pkid).push(s.last())
    }
}

/// The actor's bookkeeping state: the packet ids of publishes the broker has
/// not yet acknowledged.  The set is reconciled on every acknowledgement and
/// never otherwise consulted.
pub struct MqttActor {
    pub dlq: Vec<u16>,
}

impl MqttActor {
    /// A fresh actor instance starts with nothing outstanding.
    pub fn new() -> (a: Self)
        ensures
            a.dlq@ == Seq::<u16>::empty(),
    {
        MqttActor { dlq: Vec::new() }
    }

    /// React to one bus event.  An acknowledgement clears every matching
    /// packet id from the outstanding set; a disconnect notification stops
    /// the event-loop task; no other event changes anything.
    pub fn handle_event(&mut self, ev: BusEvent) -> (act: LoopAction)
        ensures
            act is Stop <==> ev is Disconnect,
            ev matches BusEvent::PubAck(pkid) ==> final (self).dlq@ == remove_acked(
                old(self).dlq@,
                pkid,
            ),
            !(ev is PubAck) ==> final (self).dlq@ == old(self).dlq@,
    {
        match ev {
            BusEvent::Disconnect => LoopAction::Stop,
            BusEvent::PubAck(pkid) => {
                retain_unacked(&mut self.dlq, pkid);
                LoopAction::Continue
            },
            _ => LoopAction::Continue,
        }
    }
}

fn retain_unacked(v: &mut Vec<u16>, pkid: u16) -> (r: ())
    ensures
        final (v)@ == remove_acked(old(v)@, pkid),
{
    let ghost orig = v@;
    let mut out: Vec<u16> = Vec::new();
    let mut i: usize = 0;
    proof {
        assert(orig.subrange(0, 0) =~= Seq::<u16>::empty());
    }
    while i < v.len()
        invariant
            v@ == orig,
            i <= orig.len(),
            out@ == remove_acked(orig.subrange(0, i as int), pkid),
        decreases orig.len() - i,
    {
        let x = v[i];
        proof {
            let p = orig.subrange(0, i as int + 1);
            assert(p.drop_last() =~= orig.subrange(0, i as int));
            assert(p.last() == orig[i as int]);
        }
        if x != pkid {
            out.push(x);
        }
        i += 1;
    }
    proof {
        assert(orig.subrange(0, orig.len() as int) =~= orig);
    }
    *v = out;
}

} // verus!
