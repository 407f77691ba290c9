//! Laws of whole sessions: what `Bridge::step` does over a sequence of
//! events.
use vstd::prelude::*;

use crate::bridge::{disconnect, next_conn, notification_of, reaction, BridgeAction, BridgeEvent, Connection, Inbound};
use crate::envelope::{action_of, wraps};
use crate::message::UtopiaRequest;

verus! {

/// `acts` are the actions that events `es` draw, one each, from a session in
/// state `c`.
pub open spec fn run(c: Connection, es: Seq<BridgeEvent>, acts: Seq<BridgeAction>) -> bool
    decreases es.len(),
{
    &&& acts.len() == es.len()
    &&& es.len() > 0 ==> {
        &&& reaction(c, es[0], acts[0])
        &&& run(next_conn(c, es[0]), es.drop_first(), acts.drop_first())
    }
}

/// The state of a session in state `c` after events `es`.
pub open spec fn conn_after(c: Connection, es: Seq<BridgeEvent>) -> Connection
    decreases es.len(),
{
    if es.len() == 0 {
        c
    } else {
        conn_after(next_conn(c, es[0]), es.drop_first())
    }
}

/// Whether an action touches the socket.
pub open spec fn is_socket_op(a: BridgeAction) -> bool {
    a is Handshake || a is Write
}

/// The session a `Disconnect` is delivered from is terminated.
proof fn lemma_disconnect_terminates(c: Connection, e: BridgeEvent, a: BridgeAction)
    requires
        reaction(c, e, a),
        a == disconnect(),
    ensures
        next_conn(c, e) == Connection::Terminated,
{
}

/// A terminated session stays terminated, and answers every event with
/// `Stop`: no read, no write, no notification.
pub proof fn lemma_terminated_stops(es: Seq<BridgeEvent>, acts: Seq<BridgeAction>)
    requires
        run(Connection::Terminated, es, acts),
    ensures
        conn_after(Connection::Terminated, es) == Connection::Terminated,
        forall|i: int| 0 <= i < acts.len() ==> acts[i] is Stop,
    decreases es.len(),
{
    if es.len() > 0 {
        lemma_terminated_stops(es.drop_first(), acts.drop_first());
        assert forall|i: int| 0 <= i < acts.len() implies acts[i] is Stop by {
            if i > 0 {
                assert(acts[i] == acts.drop_first()[i - 1]);
            }
        }
    }
}

/// Once `Disconnect` is delivered, every later action is `Stop`: a second
/// `Disconnect` never comes.
pub proof fn lemma_disconnect_is_last(c: Connection, es: Seq<BridgeEvent>, acts: Seq<BridgeAction>, i: int)
    requires
        run(c, es, acts),
        0 <= i < acts.len(),
        acts[i] == disconnect(),
    ensures
        forall|j: int| i < j < acts.len() ==> acts[j] is Stop,
    decreases es.len(),
{
    if i == 0 {
        lemma_disconnect_terminates(c, es[0], acts[0]);
        lemma_terminated_stops(es.drop_first(), acts.drop_first());
        assert forall|j: int| i < j < acts.len() implies acts[j] is Stop by {
            assert(acts[j] == acts.drop_first()[j - 1]);
        }
    } else {
        assert(acts.drop_first()[i - 1] == acts[i]);
        lemma_disconnect_is_last(next_conn(c, es[0]), es.drop_first(), acts.drop_first(), i - 1);
        assert forall|j: int| i < j < acts.len() implies acts[j] is Stop by {
            assert(acts[j] == acts.drop_first()[j - 1]);
        }
    }
}

/// A session that is not terminated at the end of a run delivered no
/// `Disconnect` during it.
pub proof fn lemma_live_means_no_disconnect(c: Connection, es: Seq<BridgeEvent>, acts: Seq<BridgeAction>)
    requires
        run(c, es, acts),
        conn_after(c, es) != Connection::Terminated,
    ensures
        forall|i: int| 0 <= i < acts.len() ==> acts[i] != disconnect(),
    decreases es.len(),
{
    if es.len() > 0 {
        if acts[0] == disconnect() {
            lemma_disconnect_terminates(c, es[0], acts[0]);
            lemma_terminated_stops(es.drop_first(), acts.drop_first());
        }
        lemma_live_means_no_disconnect(next_conn(c, es[0]), es.drop_first(), acts.drop_first());
        assert forall|i: int| 0 <= i < acts.len() implies acts[i] != disconnect() by {
            if i > 0 {
                assert(acts[i] == acts.drop_first()[i - 1]);
            }
        }
    }
}

/// A run over two stretches of events is a run over the first, then a run
/// over the second from where the first left the session.
pub proof fn lemma_run_split(
    c: Connection,
    es1: Seq<BridgeEvent>,
    es2: Seq<BridgeEvent>,
    acts: Seq<BridgeAction>,
)
    requires
        run(c, es1 + es2, acts),
    ensures
        run(c, es1, acts.take(es1.len() as int)),
        run(conn_after(c, es1), es2, acts.skip(es1.len() as int)),
    decreases es1.len(),
{
    if es1.len() == 0 {
        assert(es1 + es2 =~= es2);
        assert(acts.skip(0) =~= acts);
    } else {
        let es = es1 + es2;
        assert(es.drop_first() =~= es1.drop_first() + es2);
        assert(es[0] == es1[0]);
        lemma_run_split(next_conn(c, es1[0]), es1.drop_first(), es2, acts.drop_first());
        assert(acts.take(es1.len() as int).drop_first() =~= acts.drop_first().take(
            es1.drop_first().len() as int,
        ));
        assert(acts.drop_first().skip(es1.drop_first().len() as int) =~= acts.skip(es1.len() as int));
    }
}

/// A handshake whose reply does not decode ends the session at once: one
/// `Disconnect`, no other notification, and no socket operation after the
/// handshake itself.
pub proof fn lemma_failed_handshake(bad: Inbound, rest: Seq<BridgeEvent>, acts: Seq<BridgeAction>)
    requires
        !(bad is Message),
        run(
            Connection::Unestablished,
            seq![BridgeEvent::Connected, BridgeEvent::HandshakeReply(bad)] + rest,
            acts,
        ),
    ensures
        acts[0] is Handshake,
        acts[1] == disconnect(),
        forall|i: int| 2 <= i < acts.len() ==> acts[i] is Stop,
{
    let es = seq![BridgeEvent::Connected, BridgeEvent::HandshakeReply(bad)] + rest;
    assert(es[0] == BridgeEvent::Connected);
    assert(es.drop_first()[0] == BridgeEvent::HandshakeReply(bad));
    assert(run(Connection::Handshaking, es.drop_first(), acts.drop_first()));
    assert(acts.drop_first()[0] == acts[1]);
    lemma_disconnect_is_last(Connection::Unestablished, es, acts, 1);
}

/// Once the session is active, a read of zero bytes delivers exactly one
/// `Disconnect`, none before it, and nothing but `Stop` after it.
pub proof fn lemma_close_ends_session(
    pre: Seq<BridgeEvent>,
    rest: Seq<BridgeEvent>,
    acts: Seq<BridgeAction>,
)
    requires
        conn_after(Connection::Unestablished, pre) == Connection::Active,
        run(Connection::Unestablished, pre + (seq![BridgeEvent::Received(Inbound::Closed)] + rest), acts),
    ensures
        forall|i: int| 0 <= i < pre.len() ==> acts[i] != disconnect(),
        acts[pre.len() as int] == disconnect(),
        forall|i: int| pre.len() < i < acts.len() ==> acts[i] is Stop,
{
    let tail = seq![BridgeEvent::Received(Inbound::Closed)] + rest;
    lemma_run_split(Connection::Unestablished, pre, tail, acts);
    lemma_live_means_no_disconnect(Connection::Unestablished, pre, acts.take(pre.len() as int));
    assert forall|i: int| 0 <= i < pre.len() implies acts[i] != disconnect() by {
        assert(acts[i] == acts.take(pre.len() as int)[i]);
    }
    let later = acts.skip(pre.len() as int);
    assert(tail[0] == BridgeEvent::Received(Inbound::Closed));
    assert(later[0] == acts[pre.len() as int]);
    lemma_disconnect_is_last(Connection::Active, tail, later, 0);
    assert forall|i: int| pre.len() < i < acts.len() implies acts[i] is Stop by {
        assert(acts[i] == later[i - pre.len()]);
    }
}

/// An inbound message that does not decode, or a failed read, is logged and
/// leaves the session as it was: the next well-formed message is delivered.
pub proof fn lemma_decode_error_is_not_fatal(
    bad: Inbound,
    m: crate::bridge::CoreAction,
    rest: Seq<BridgeEvent>,
    acts: Seq<BridgeAction>,
)
    requires
        bad is Undecodable || bad is ReadFailed,
        notification_of(m) is Some,
        run(
            Connection::Active,
            seq![BridgeEvent::Received(bad), BridgeEvent::Received(Inbound::Message(m))] + rest,
            acts,
        ),
    ensures
        acts[0] is LogDecodeError,
        acts[1] == BridgeAction::Deliver(notification_of(m)->0),
        conn_after(
            Connection::Active,
            seq![BridgeEvent::Received(bad), BridgeEvent::Received(Inbound::Message(m))],
        ) == Connection::Active,
{
    let two = seq![BridgeEvent::Received(bad), BridgeEvent::Received(Inbound::Message(m))];
    let es = two + rest;
    assert(es[0] == BridgeEvent::Received(bad));
    assert(es.drop_first()[0] == BridgeEvent::Received(Inbound::Message(m)));
    assert(run(Connection::Active, es.drop_first(), acts.drop_first()));
    assert(acts.drop_first()[0] == acts[1]);
    assert(two.drop_first()[0] == BridgeEvent::Received(Inbound::Message(m)));
    assert(two.drop_first().drop_first() =~= Seq::<BridgeEvent>::empty());
    assert(conn_after(Connection::Active, two.drop_first().drop_first()) == Connection::Active);
    assert(conn_after(Connection::Active, two.drop_first()) == Connection::Active);
}

/// The events that hand the worker these commands, in order.
pub open spec fn commands(cs: Seq<UtopiaRequest>) -> Seq<BridgeEvent> {
    cs.map_values(|r: UtopiaRequest| BridgeEvent::Command(r))
}

/// In an active session, commands that the protocol carries are written
/// one envelope each, in the order they were taken, and the session stays
/// active.
pub proof fn lemma_commands_written_in_order(cs: Seq<UtopiaRequest>, acts: Seq<BridgeAction>)
    requires
        forall|i: int| 0 <= i < cs.len() ==> action_of(#[trigger] cs[i]) is Some,
        run(Connection::Active, commands(cs), acts),
    ensures
        acts.len() == cs.len(),
        forall|i: int|
            0 <= i < cs.len() ==> (#[trigger] acts[i] matches BridgeAction::Write(env) && wraps(
                env,
                action_of(cs[i])->0,
            )),
        conn_after(Connection::Active, commands(cs)) == Connection::Active,
    decreases cs.len(),
{
    if cs.len() > 0 {
        assert(commands(cs)[0] == BridgeEvent::Command(cs[0]));
        assert(commands(cs).drop_first() =~= commands(cs.drop_first()));
        assert(action_of(cs[0]) is Some);
        assert forall|i: int| 0 <= i < cs.drop_first().len() implies action_of(
            #[trigger] cs.drop_first()[i],
        ) is Some by {
            assert(cs.drop_first()[i] == cs[i + 1]);
        }
        lemma_commands_written_in_order(cs.drop_first(), acts.drop_first());
        assert forall|i: int|
            0 <= i < cs.len() implies (#[trigger] acts[i] matches BridgeAction::Write(env) && wraps(
                env,
                action_of(cs[i])->0,
            )) by {
            if i > 0 {
                assert(acts[i] == acts.drop_first()[i - 1]);
                assert(cs[i] == cs.drop_first()[i - 1]);
            }
        }
    }
}

} // verus!
