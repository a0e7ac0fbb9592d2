//! Classification of messages and the queue of verified messages.

use std::collections::VecDeque;
use vstd::prelude::*;
use vstd::string::StringSliceAdditionalSpecFns;

use crate::tx::{body_messages, Any, AnyView, Tx, TxBody};

verus! {

/// `url` names a message that executes or instantiates a contract.
pub open spec fn is_wasm_type_url(url: Seq<char>) -> bool {
    url == "/secret.compute.v1beta1.MsgExecuteContract"@
        || url == "/secret.compute.v1beta1.MsgInstantiateContract"@
}

/// `url` names a node registration message.
pub open spec fn is_reg_type_url(url: Seq<char>) -> bool {
    url == "/secret.registration.v1beta1.RaAuthenticate"@
}

/// The message is one that the queue keeps: a wasm or a registration message.
pub open spec fn is_forwarded(msg: AnyView) -> bool {
    is_wasm_type_url(msg.type_url) || is_reg_type_url(msg.type_url)
}

/// The values of the forwarded messages of `msgs`, in their order.
pub open spec fn forwarded_values(msgs: Seq<AnyView>) -> Seq<Seq<u8>> {
    msgs.filter(|m: AnyView| is_forwarded(m)).map_values(|m: AnyView| m.value)
}

/// Whether two strings hold the same characters, decided on their UTF-8 bytes.
fn str_eq(a: &str, b: &str) -> (res: bool)
    ensures
        res == (a@ == b@),
{
    let x = a.as_bytes();
    let y = b.as_bytes();
    proof {
        vstd::utf8::encode_utf8_decode_utf8(a@);
        vstd::utf8::encode_utf8_decode_utf8(b@);
    }
    if x.len() != y.len() {
        return false;
    }
    let mut i: usize = 0;
    while i < x.len()
        invariant
            x@ == a.spec_bytes(),
            y@ == b.spec_bytes(),
            x@.len() == y@.len(),
            i <= x@.len(),
            forall|j: int| 0 <= j < i ==> x@[j] == y@[j],
        decreases x@.len() - i,
    {
        if x[i] != y[i] {
            return false;
        }
        i += 1;
    }
    assert(x@ =~= y@);
    true
}

/// Whether `msg` executes or instantiates a contract.
pub fn message_is_wasm(msg: &Any) -> (res: bool)
    ensures
        res == is_wasm_type_url(msg@.type_url),
        res == (msg.type_url@ == "/secret.compute.v1beta1.MsgExecuteContract"@
            || msg.type_url@ == "/secret.compute.v1beta1.MsgInstantiateContract"@),
{
    let url = msg.type_url.as_str();
    str_eq(url, "/secret.compute.v1beta1.MsgExecuteContract")
        || str_eq(url, "/secret.compute.v1beta1.MsgInstantiateContract")
}

/// Whether `msg` registers a node.
pub fn message_is_reg(msg: &Any) -> (res: bool)
    ensures
        res == is_reg_type_url(msg@.type_url),
        res == (msg.type_url@ == "/secret.registration.v1beta1.RaAuthenticate"@),
{
    str_eq(msg.type_url.as_str(), "/secret.registration.v1beta1.RaAuthenticate")
}

/// The verified messages of the current block, waiting to be executed, with
/// the block's height and time.
#[derive(Debug, Clone)]
pub struct VerifiedWasmMessages {
    messages: VecDeque<Vec<u8>>,
    height: u64,
    time: i128,
}

/// The mathematical model of a [`VerifiedWasmMessages`]: the queued message
/// values, oldest first, and the block information.
pub struct VerifiedWasmMessagesView {
    pub messages: Seq<Seq<u8>>,
    pub height: u64,
    pub time: i128,
}

impl VerifiedWasmMessagesView {
    /// The value that the next call of `get_next` hands out.
    pub open spec fn next_message(self) -> Option<Seq<u8>> {
        if self.messages.len() == 0 {
            None
        } else {
            Some(self.messages[0])
        }
    }

    /// The state after a call of `get_next`.
    pub open spec fn after_next(self) -> Self {
        VerifiedWasmMessagesView {
            messages: if self.messages.len() == 0 {
                self.messages
            } else {
                self.messages.drop_first()
            },
            height: self.height,
            time: self.time,
        }
    }

    /// The state after the forwarded messages of `msgs` were queued.
    pub open spec fn appended(self, msgs: Seq<AnyView>) -> Self {
        VerifiedWasmMessagesView {
            messages: self.messages + forwarded_values(msgs),
            height: self.height,
            time: self.time,
        }
    }

    /// The state after the block information was set.
    pub open spec fn with_block_info(self, height: u64, time: i128) -> Self {
        VerifiedWasmMessagesView { messages: self.messages, height, time }
    }

    /// The state after the queue was emptied.
    pub open spec fn cleared(self) -> Self {
        VerifiedWasmMessagesView { messages: Seq::empty(), height: self.height, time: self.time }
    }

    /// The values handed out by `n` successive calls of `get_next`, leaving out
    /// the calls that found the queue empty.
    pub open spec fn drained(self, n: nat) -> Seq<Seq<u8>>
        decreases n,
    {
        if n == 0 {
            Seq::empty()
        } else {
            match self.next_message() {
                Some(v) => seq![v] + self.after_next().drained((n - 1) as nat),
                None => Seq::empty(),
            }
        }
    }
}

impl View for VerifiedWasmMessages {
    type V = VerifiedWasmMessagesView;

    closed spec fn view(&self) -> VerifiedWasmMessagesView {
        VerifiedWasmMessagesView {
            messages: self.messages@.map_values(|v: Vec<u8>| v@),
            height: self.height,
            time: self.time,
        }
    }
}

impl Default for VerifiedWasmMessages {
    /// No queued message, height 0 and time 0.
    fn default() -> (res: Self)
        ensures
            res@.messages == Seq::<Seq<u8>>::empty(),
            res@.height == 0,
            res@.time == 0,
    {
        let res = VerifiedWasmMessages { messages: VecDeque::new(), height: 0, time: 0 };
        assert(res@.messages =~= Seq::<Seq<u8>>::empty());
        res
    }
}

impl VerifiedWasmMessages {
    /// Hands out the oldest queued message and removes it from the queue;
    /// `None` when the queue is empty.
    pub fn get_next(&mut self) -> (res: Option<Vec<u8>>)
        ensures
            final(self)@ == old(self)@.after_next(),
            match res {
                Some(v) => old(self)@.next_message() == Some(v@),
                None => old(self)@.next_message() is None,
            },
    {
        let res = self.messages.pop_front();
        proof {
            let old_msgs = old(self)@.messages;
            if old_msgs.len() > 0 {
                assert(self@.messages =~= old_msgs.drop_first());
            }
        }
        res
    }

    /// The number of queued messages.
    pub fn remaining(&self) -> (res: usize)
        ensures
            res == self@.messages.len(),
    {
        self.messages.len()
    }

    /// Queues the value of each wasm and registration message of `tx`, in
    /// the order in which they stand in the transaction; other messages are
    /// passed over.
    pub fn append_msg_from_tx(&mut self, tx: Tx)
        ensures
            final(self)@ == old(self)@.appended(body_messages(tx@)),
    {
        let body = match tx.body {
            Some(b) => b,
            None => TxBody { messages: Vec::new() },
        };
        let msgs = body.messages;
        let ghost all: Seq<AnyView> = msgs@.map_values(|m: Any| m@);
        assert(all == body_messages(tx@));
        for msg in it: msgs.into_iter()
            invariant
                all == it.seq().map_values(|m: Any| m@),
                self@ == old(self)@.appended(all.take(it.index() as int)),
        {
            let ghost i = it.index() as int;
            let ghost m = msg@;
            let ghost before = self@.messages;
            assert(m == all[i]);
            let is_wasm = message_is_wasm(&msg);
            let is_reg = message_is_reg(&msg);
            if is_wasm || is_reg {
                self.messages.push_back(msg.value);
            }
            proof {
                reveal_with_fuel(Seq::<_>::filter, 1);
                assert(all.take(i + 1).drop_last() =~= all.take(i));
                assert(all.take(i + 1).last() == m);
                let prev = forwarded_values(all.take(i));
                if is_forwarded(m) {
                    assert(forwarded_values(all.take(i + 1)) =~= prev.push(m.value));
                    assert(self@.messages =~= before.push(m.value));
                } else {
                    assert(forwarded_values(all.take(i + 1)) =~= prev);
                }
                assert(self@.messages =~= old(self)@.messages + forwarded_values(all.take(i + 1)));
            }
        }
        assert(all.take(all.len() as int) =~= all);
    }

    /// Records the height and time of the block whose messages are queued.
    pub fn set_block_info(&mut self, height: u64, time: i128)
        ensures
            final(self)@ == old(self)@.with_block_info(height, time),
    {
        self.height = height;
        self.time = time;
    }

    /// The height last recorded.
    pub fn height(&self) -> (res: u64)
        ensures
            res == self@.height,
    {
        self.height
    }

    /// The time last recorded.
    pub fn time(&self) -> (res: i128)
        ensures
            res == self@.time,
    {
        self.time
    }

    /// Drops every queued message; the block information stays.
    pub fn clear(&mut self)
        ensures
            final(self)@ == old(self)@.cleared(),
    {
        self.messages.clear();
        assert(self@.messages =~= Seq::<Seq<u8>>::empty());
    }
}

} // verus!
