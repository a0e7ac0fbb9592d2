//! The parts of a transaction that message tracking reads.

use vstd::prelude::*;

verus! {

/// A packed protobuf message: the URL that names the message's type and the
/// message's serialized bytes.
#[derive(Debug, Clone, PartialEq, Eq)]
pub struct Any {
    pub type_url: String,
    pub value: Vec<u8>,
}

/// The mathematical model of an [`Any`].
pub struct AnyView {
    pub type_url: Seq<char>,
    pub value: Seq<u8>,
}

impl View for Any {
    type V = AnyView;

    open spec fn view(&self) -> AnyView {
        AnyView { type_url: self.type_url@, value: self.value@ }
    }
}

/// The body of a transaction: the messages that it carries, in order.
#[derive(Debug, Clone, PartialEq, Eq)]
pub struct TxBody {
    pub messages: Vec<Any>,
}

impl View for TxBody {
    type V = Seq<AnyView>;

    open spec fn view(&self) -> Seq<AnyView> {
        self.messages@.map_values(|m: Any| m@)
    }
}

/// A transaction; its body is absent when the encoded transaction carried none.
#[derive(Debug, Clone, PartialEq, Eq)]
pub struct Tx {
    pub body: Option<TxBody>,
}

impl View for Tx {
    type V = Option<Seq<AnyView>>;

    open spec fn view(&self) -> Option<Seq<AnyView>> {
        match self.body {
            Some(b) => Some(b@),
            None => None,
        }
    }
}

/// The messages of a transaction's model; a transaction without a body carries none.
pub open spec fn body_messages(tx: Option<Seq<AnyView>>) -> Seq<AnyView> {
    match tx {
        Some(msgs) => msgs,
        None => Seq::empty(),
    }
}

} // verus!
