//! Properties of message tracking that span several operations.

use vstd::prelude::*;

use crate::tx::{body_messages, AnyView};
use crate::wasm_messages::{
    forwarded_values, is_forwarded, is_reg_type_url, is_wasm_type_url, VerifiedWasmMessagesView,
};

verus! {

/// Successive calls of `get_next` hand out the queued values oldest first,
/// each once, and hand out nothing more once the queue is empty.
pub proof fn lemma_drain_in_order(s: VerifiedWasmMessagesView, n: nat)
    ensures
        s.drained(n) == s.messages.take(if n <= s.messages.len() { n as int } else { s.messages.len() as int }),
    decreases n,
{
    if n == 0 {
        assert(s.messages.take(0) =~= Seq::<Seq<u8>>::empty());
    } else if s.messages.len() == 0 {
        assert(s.messages.take(0) =~= Seq::<Seq<u8>>::empty());
    } else {
        let rest = s.after_next();
        lemma_drain_in_order(rest, (n - 1) as nat);
        let k = if n <= s.messages.len() { n as int } else { s.messages.len() as int };
        assert(s.messages.take(k) =~= seq![s.messages[0]] + rest.messages.take(k - 1));
    }
}

/// First in, first out: after a transaction is appended, draining the queue
/// hands out what was queued before, then the transaction's wasm and
/// registration messages in the order in which they stand in it.
pub proof fn lemma_fifo(s: VerifiedWasmMessagesView, msgs: Seq<AnyView>)
    ensures
        s.appended(msgs).drained(s.messages.len() + forwarded_values(msgs).len())
            == s.messages + forwarded_values(msgs),
{
    let t = s.appended(msgs);
    lemma_drain_in_order(t, s.messages.len() + forwarded_values(msgs).len());
    assert(t.messages.take(t.messages.len() as int) =~= t.messages);
}

/// Appending two transactions, one after the other, queues what appending
/// their messages as one transaction queues.
pub proof fn lemma_append_twice(s: VerifiedWasmMessagesView, a: Seq<AnyView>, b: Seq<AnyView>)
    ensures
        s.appended(a).appended(b) == s.appended(a + b),
{
    let pred = |m: AnyView| is_forwarded(m);
    Seq::filter_distributes_over_add(a, b, pred);
    assert(forwarded_values(a + b) =~= forwarded_values(a) + forwarded_values(b));
    assert(s.messages + forwarded_values(a) + forwarded_values(b)
        =~= s.messages + (forwarded_values(a) + forwarded_values(b)));
}

/// `v` is the value of a wasm or registration message of `msgs`.
pub open spec fn is_value_of_forwarded(msgs: Seq<AnyView>, v: Seq<u8>) -> bool {
    exists|j: int| 0 <= j < msgs.len() && is_forwarded(msgs[j]) && msgs[j].value == v
}

/// A transaction queues the value of every wasm and registration message it
/// carries, and nothing that is not the value of such a message; no more values
/// than it carries messages.
pub proof fn lemma_forwarded_exactly(msgs: Seq<AnyView>)
    ensures
        forwarded_values(msgs).len() <= msgs.len(),
        forall|j: int|
            0 <= j < msgs.len() && is_forwarded(msgs[j]) ==> forwarded_values(msgs).contains(
                #[trigger] msgs[j].value,
            ),
        forall|i: int|
            0 <= i < forwarded_values(msgs).len() ==> is_value_of_forwarded(
                msgs,
                #[trigger] forwarded_values(msgs)[i],
            ),
{
    let pred = |m: AnyView| is_forwarded(m);
    let f = msgs.filter(pred);
    msgs.lemma_filter_len(pred);
    assert forall|j: int| 0 <= j < msgs.len() && is_forwarded(msgs[j]) implies forwarded_values(
        msgs,
    ).contains(#[trigger] msgs[j].value) by {
        msgs.lemma_filter_contains(pred, j);
        let k = choose|k: int| 0 <= k < f.len() && f[k] == msgs[j];
        assert(forwarded_values(msgs)[k] == msgs[j].value);
    }
    assert forall|i: int| 0 <= i < forwarded_values(msgs).len() implies is_value_of_forwarded(
        msgs,
        #[trigger] forwarded_values(msgs)[i],
    ) by {
        msgs.lemma_filter_pred(pred, i);
        assert(f.contains(f[i]));
        msgs.lemma_filter_contains_rev(pred, f[i]);
        let j = choose|j: int| 0 <= j < msgs.len() && msgs[j] == f[i];
        assert(pred(f[i]));
        assert(is_forwarded(msgs[j]));
        assert(msgs[j].value == forwarded_values(msgs)[i]);
    }
}

/// A transaction without a body leaves the queue as it was.
pub proof fn lemma_no_body_no_change(s: VerifiedWasmMessagesView)
    ensures
        s.appended(body_messages(None)) == s,
{
    reveal_with_fuel(Seq::<_>::filter, 1);
    assert(forwarded_values(Seq::<AnyView>::empty()) =~= Seq::<Seq<u8>>::empty());
    assert(s.messages + Seq::<Seq<u8>>::empty() =~= s.messages);
}

/// No type URL names both a wasm message and a registration message.
pub proof fn lemma_kinds_disjoint(url: Seq<char>)
    ensures
        !(is_wasm_type_url(url) && is_reg_type_url(url)),
{
    reveal_strlit("/secret.compute.v1beta1.MsgExecuteContract");
    reveal_strlit("/secret.compute.v1beta1.MsgInstantiateContract");
    reveal_strlit("/secret.registration.v1beta1.RaAuthenticate");
    if is_reg_type_url(url) {
        assert(url[8] == 'r');
        assert("/secret.compute.v1beta1.MsgExecuteContract"@[8] == 'c');
        assert("/secret.compute.v1beta1.MsgInstantiateContract"@[8] == 'c');
    }
}

/// Exactly two type URLs name wasm messages: contract execution and
/// contract instantiation.
pub proof fn lemma_wasm_urls_exact(url: Seq<char>)
    ensures
        is_wasm_type_url(url) <==> (url == "/secret.compute.v1beta1.MsgExecuteContract"@
            || url == "/secret.compute.v1beta1.MsgInstantiateContract"@),
{
}

/// Exactly one type URL names a registration message: `RaAuthenticate`.
pub proof fn lemma_reg_url_exact(url: Seq<char>)
    ensures
        is_reg_type_url(url) <==> url == "/secret.registration.v1beta1.RaAuthenticate"@,
{
}

/// The queue keeps a message exactly when its type URL is one of the two wasm
/// URLs or the registration URL.
pub proof fn lemma_forwarded_urls_exact(m: AnyView)
    ensures
        is_forwarded(m) <==> (m.type_url == "/secret.compute.v1beta1.MsgExecuteContract"@
            || m.type_url == "/secret.compute.v1beta1.MsgInstantiateContract"@
            || m.type_url == "/secret.registration.v1beta1.RaAuthenticate"@),
{
}

/// Appending a transaction of one message queues its value when its type URL
/// is a wasm or the registration URL, and leaves the queue as it was for every
/// other type URL.
pub proof fn lemma_append_one(s: VerifiedWasmMessagesView, m: AnyView)
    ensures
        s.appended(seq![m]).messages == if m.type_url
            == "/secret.compute.v1beta1.MsgExecuteContract"@ || m.type_url
            == "/secret.compute.v1beta1.MsgInstantiateContract"@ || m.type_url
            == "/secret.registration.v1beta1.RaAuthenticate"@ {
            s.messages.push(m.value)
        } else {
            s.messages
        },
{
    reveal_with_fuel(Seq::<_>::filter, 2);
    assert(seq![m].drop_last() =~= Seq::<AnyView>::empty());
    assert(seq![m].last() == m);
    if is_forwarded(m) {
        assert(forwarded_values(seq![m]) =~= seq![m.value]);
        assert(s.messages + seq![m.value] =~= s.messages.push(m.value));
    } else {
        assert(forwarded_values(seq![m]) =~= Seq::<Seq<u8>>::empty());
        assert(s.messages + Seq::<Seq<u8>>::empty() =~= s.messages);
    }
}

/// A transaction none of whose messages has a wasm or the registration type
/// URL leaves the queue as it was.
pub proof fn lemma_append_other_kinds(s: VerifiedWasmMessagesView, msgs: Seq<AnyView>)
    requires
        forall|j: int|
            0 <= j < msgs.len() ==> {
                let u = #[trigger] msgs[j].type_url;
                u != "/secret.compute.v1beta1.MsgExecuteContract"@ && u
                    != "/secret.compute.v1beta1.MsgInstantiateContract"@ && u
                    != "/secret.registration.v1beta1.RaAuthenticate"@
            },
    ensures
        s.appended(msgs) == s,
{
    lemma_forwarded_exactly(msgs);
    if forwarded_values(msgs).len() > 0 {
        assert(is_value_of_forwarded(msgs, forwarded_values(msgs)[0]));
        let j = choose|j: int|
            0 <= j < msgs.len() && is_forwarded(msgs[j]) && msgs[j].value
                == forwarded_values(msgs)[0];
        assert(msgs[j].type_url == msgs[j].type_url);
    }
    assert(forwarded_values(msgs) =~= Seq::<Seq<u8>>::empty());
    assert(s.messages + Seq::<Seq<u8>>::empty() =~= s.messages);
}

/// The queue operations leave the block information as it was, and setting
/// the block information leaves the queue as it was; what was set is read back.
pub proof fn lemma_block_info_independent(
    s: VerifiedWasmMessagesView,
    msgs: Seq<AnyView>,
    height: u64,
    time: i128,
)
    ensures
        s.appended(msgs).height == s.height && s.appended(msgs).time == s.time,
        s.after_next().height == s.height && s.after_next().time == s.time,
        s.cleared().height == s.height && s.cleared().time == s.time,
        s.with_block_info(height, time).messages == s.messages,
        s.with_block_info(height, time).height == height,
        s.with_block_info(height, time).time == time,
{
}

/// After the queue is cleared, `get_next` hands out nothing.
pub proof fn lemma_clear_then_next(s: VerifiedWasmMessagesView, n: nat)
    ensures
        s.cleared().next_message() is None,
        s.cleared().drained(n) == Seq::<Seq<u8>>::empty(),
{
    lemma_drain_in_order(s.cleared(), n);
    assert(s.cleared().messages.take(0) =~= Seq::<Seq<u8>>::empty());
}

} // verus!
