//! The writer worker's logic.
//!
//! The writer worker takes outbound messages from the handoff channel one at
//! a time.  For each message it polls the writer shutdown flag: if the flag
//! is set it discards the message without serializing it — and keeps
//! receiving, so later messages are likewise consumed and discarded; if the
//! flag is clear it serializes the message to the connection.  The worker
//! terminates only when the channel closes (the owner drops the send
//! endpoint); the flag alone never stops it.  This asymmetry with the reader
//! worker — which does stop on its flag — is deliberate and kept as found.
//!
//! The serialization itself is the codec's business and happens outside this
//! crate.  The decision one turn takes is [`writer_step`]; a whole session
//! over the messages received before the channel closed is modelled by
//! [`serialized_of`] and executed by [`run_writer`].

use vstd::prelude::*;

use crate::msg::Message;

verus! {

/// What one turn of the writer loop does with the message it received.
#[derive(Debug, PartialEq, Eq)]
pub enum WriteAction {
    /// Serialize this message to the connection.
    Serialize(Message),
    /// Consume the message without writing it.
    Discard,
}

/// The decision one turn takes, given the value of the writer shutdown flag
/// observed at this turn's poll point.
pub open spec fn write_decision(m: Message, exit_requested: bool) -> WriteAction {
    if exit_requested {
        WriteAction::Discard
    } else {
        WriteAction::Serialize(m)
    }
}

/// One turn of the writer loop: decide whether the message just received is
/// serialized or silently discarded.  `exit_requested` is the value of the
/// writer shutdown flag observed at this turn's poll point.
pub fn writer_step(msg: Message, exit_requested: bool) -> (action: WriteAction)
    ensures
        action == write_decision(msg, exit_requested),
{
    if exit_requested {
        WriteAction::Discard
    } else {
        WriteAction::Serialize(msg)
    }
}

/// The messages a whole writer session serializes, in order, where `flags[k]`
/// is the value of the shutdown flag observed when message `k` was handled.
/// Every message is consumed; only those handled under a clear flag reach
/// the connection.
pub open spec fn serialized_of(msgs: Seq<Message>, flags: Seq<bool>) -> Seq<Message>
    decreases msgs.len(),
{
    if msgs.len() == 0 {
        Seq::empty()
    } else {
        let rest = serialized_of(msgs.drop_first(), flags.drop_first());
        if flags[0] {
            rest
        } else {
            seq![msgs[0]] + rest
        }
    }
}

/// Runs the writer loop over the messages received from the handoff channel
/// before it closed, with `flags[k]` the shutdown-flag value observed at
/// turn `k`.  Returns the messages to be serialized, in send order.
#[verifier::loop_isolation(false)]
pub fn run_writer(msgs: Vec<Message>, flags: &Vec<bool>) -> (written: Vec<Message>)
    requires
        flags@.len() == msgs@.len(),
    ensures
        written@ == serialized_of(msgs@, flags@),
{
    let ghost ms0 = msgs@;
    let ghost fl0 = flags@;
    let mut msgs = msgs;
    let mut written: Vec<Message> = Vec::new();
    let mut i: usize = 0;
    let n = msgs.len();
    proof {
        assert(ms0.skip(0) =~= ms0);
        assert(fl0.skip(0) =~= fl0);
    }
    while msgs.len() > 0
        invariant
            i <= n,
            n == ms0.len(),
            msgs@ == ms0.skip(i as int),
            serialized_of(ms0, fl0) == written@ + serialized_of(
                ms0.skip(i as int),
                fl0.skip(i as int),
            ),
        decreases msgs@.len(),
    {
        let m = msgs.remove(0);
        let exit_requested = flags[i];
        proof {
            assert(ms0.skip(i as int)[0] == ms0[i as int]);
            assert(fl0.skip(i as int)[0] == fl0[i as int]);
            assert(ms0.skip(i as int).drop_first() =~= ms0.skip(i as int + 1));
            assert(fl0.skip(i as int).drop_first() =~= fl0.skip(i as int + 1));
        }
        let action = writer_step(m, exit_requested);
        match action {
            WriteAction::Serialize(out) => {
                let ghost w0 = written@;
                written.push(out);
                proof {
                    assert(w0 + (seq![ms0[i as int]] + serialized_of(
                        ms0.skip(i as int + 1),
                        fl0.skip(i as int + 1),
                    )) =~= written@ + serialized_of(ms0.skip(i as int + 1), fl0.skip(i as int + 1)));
                }
            }
            WriteAction::Discard => {}
        }
        i = i + 1;
    }
    proof {
        assert(written@ + serialized_of(ms0.skip(n as int), fl0.skip(n as int)) =~= written@);
    }
    written
}

/// While the shutdown flag stays clear, sending a sequence of messages
/// results in exactly those messages being serialized, in send order.
pub proof fn lemma_writer_writes_all(msgs: Seq<Message>, flags: Seq<bool>)
    requires
        flags.len() == msgs.len(),
        forall|k: int| 0 <= k < flags.len() ==> !flags[k],
    ensures
        serialized_of(msgs, flags) == msgs,
    decreases msgs.len(),
{
    if msgs.len() == 0 {
        assert(serialized_of(msgs, flags) =~= msgs);
    } else {
        lemma_writer_writes_all(msgs.drop_first(), flags.drop_first());
        assert(seq![msgs[0]] + msgs.drop_first() =~= msgs);
    }
}

/// While the shutdown flag stays set, every message sent is consumed but
/// none is serialized.  The flag does not close the channel: later messages
/// are still accepted, and likewise discarded.
pub proof fn lemma_writer_discards_all(msgs: Seq<Message>, flags: Seq<bool>)
    requires
        flags.len() == msgs.len(),
        forall|k: int| 0 <= k < flags.len() ==> flags[k],
    ensures
        serialized_of(msgs, flags) == Seq::<Message>::empty(),
    decreases msgs.len(),
{
    if msgs.len() == 0 {
    } else {
        lemma_writer_discards_all(msgs.drop_first(), flags.drop_first());
    }
}

} // verus!
