//! What an operation hands back to the host: zero or more typed effect
//! instructions for the host to execute, and string attributes for
//! observability. The engine only emits these; it never executes them.

use vstd::prelude::*;

verus! {

use crate::state::{Coin, CoinV, coins_view};

/// One observable attribute: a key/value pair of strings.
#[derive(Clone, Debug, PartialEq, Eq)]
pub struct Attribute {
    pub key: String,
    pub value: String,
}

/// Mathematical view of an `Attribute`.
#[verifier::ext_equal]
pub ghost struct AttributeV {
    pub key: Seq<char>,
    pub value: Seq<char>,
}

impl View for Attribute {
    type V = AttributeV;

    open spec fn view(&self) -> AttributeV {
        AttributeV { key: self.key@, value: self.value@ }
    }
}

/// An effect instruction: transfer the listed coins to the named account.
#[derive(Clone, Debug, PartialEq, Eq)]
pub struct BankSend {
    pub to_address: String,
    pub amount: Vec<Coin>,
}

/// Mathematical view of a `BankSend`.
#[verifier::ext_equal]
pub ghost struct BankSendV {
    pub to_address: Seq<char>,
    pub amount: Seq<CoinV>,
}

impl View for BankSend {
    type V = BankSendV;

    open spec fn view(&self) -> BankSendV {
        BankSendV { to_address: self.to_address@, amount: coins_view(self.amount@) }
    }
}

/// What one operation returns to the host.
#[derive(Clone, Debug, PartialEq, Eq)]
pub struct Response {
    pub messages: Vec<BankSend>,
    pub attributes: Vec<Attribute>,
}

/// Mathematical view of a `Response`.
#[verifier::ext_equal]
pub ghost struct ResponseV {
    pub messages: Seq<BankSendV>,
    pub attributes: Seq<AttributeV>,
}

impl ResponseV {
    /// The view of a response with no effects and no attributes.
    pub open spec fn empty() -> ResponseV {
        ResponseV { messages: Seq::empty(), attributes: Seq::empty() }
    }
}

impl View for Response {
    type V = ResponseV;

    open spec fn view(&self) -> ResponseV {
        ResponseV {
            messages: self.messages@.map_values(|m: BankSend| m@),
            attributes: self.attributes@.map_values(|a: Attribute| a@),
        }
    }
}

impl Response {
    /// A response with no effects and no attributes.
    pub fn new() -> (r: Response)
        ensures
            r@ == ResponseV::empty(),
    {
        let r = Response { messages: Vec::new(), attributes: Vec::new() };
        proof {
            assert(r@.messages =~= Seq::<BankSendV>::empty());
            assert(r@.attributes =~= Seq::<AttributeV>::empty());
            assert(r@ =~= ResponseV::empty());
        }
        r
    }

    /// Appends one observable attribute.
    pub fn add_attribute(self, key: String, value: String) -> (r: Response)
        ensures
            r@.messages == self@.messages,
            r@.attributes == self@.attributes.push(AttributeV { key: key@, value: value@ }),
    {
        let ghost before = self@;
        let mut attributes = self.attributes;
        attributes.push(Attribute { key, value });
        let r = Response { messages: self.messages, attributes };
        proof {
            assert(r@.attributes =~= before.attributes.push(r.attributes@.last()@));
        }
        r
    }

    /// Appends one effect instruction.
    pub fn add_message(self, msg: BankSend) -> (r: Response)
        ensures
            r@.attributes == self@.attributes,
            r@.messages == self@.messages.push(msg@),
    {
        let ghost before = self@;
        let ghost msg_view = msg@;
        let mut messages = self.messages;
        messages.push(msg);
        let r = Response { messages, attributes: self.attributes };
        proof {
            assert(r@.messages =~= before.messages.push(msg_view));
        }
        r
    }
}

} // verus!
