//! Responses of the contracts: attributes and the messages they dispatch.
//!
//! A message body is held as the typed request it stands for; the edge of the
//! contracts encodes it as the JSON the receiving contract expects.
use vstd::prelude::*;

verus! {

/// The decimal representation of `n`, most significant digit first.
pub open spec fn spec_decimal(n: nat) -> Seq<char>
    decreases n,
{
    if n < 10 {
        seq![(48 + n) as char]
    } else {
        spec_decimal(n / 10).push((48 + n % 10) as char)
    }
}

/// The decimal representation of a boolean: `true` or `false`.
pub open spec fn spec_bool_str(b: bool) -> Seq<char> {
    if b {
        seq!['t', 'r', 'u', 'e']
    } else {
        seq!['f', 'a', 'l', 's', 'e']
    }
}

/// `u128::to_string` of std: the decimal representation of an unsigned
/// integer, which the documentation of `Display` for integers gives.
#[verifier::external_body]
fn u128_to_string(x: u128) -> (s: String)
    ensures
        s@ == spec_decimal(x as nat),
{
    x.to_string()
}

/// The decimal representation of an amount.
pub fn uint_to_string(x: u128) -> (s: String)
    ensures
        s@ == spec_decimal(x as nat),
{
    u128_to_string(x)
}

/// The decimal representation of a height or an identifier.
pub fn u64_to_string(x: u64) -> (s: String)
    ensures
        s@ == spec_decimal(x as nat),
{
    u128_to_string(x as u128)
}

/// `true` or `false`.
pub fn bool_to_string(b: bool) -> (s: String)
    ensures
        s@ == spec_bool_str(b),
{
    let r = if b {
        String::from_str("true")
    } else {
        String::from_str("false")
    };
    proof {
        reveal_strlit("true");
        reveal_strlit("false");
    }
    r
}

/// A key-value pair of a response.
#[derive(Clone, Debug, PartialEq, Eq)]
pub struct Attribute {
    pub key: String,
    pub value: String,
}

impl View for Attribute {
    type V = (Seq<char>, Seq<char>);

    open spec fn view(&self) -> (Seq<char>, Seq<char>) {
        (self.key@, self.value@)
    }
}

/// A call that a poll carries out when it is executed: `msg` is sent to
/// `contract`, the calls running by increasing `order`.
#[derive(Clone, Debug, PartialEq, Eq)]
pub struct ExecutionMsg {
    pub order: u64,
    pub contract: String,
    pub msg: Vec<u8>,
}

/// The abstract value of an [`ExecutionMsg`].
pub struct ExecutionMsgView {
    pub order: u64,
    pub contract: Seq<char>,
    pub msg: Seq<u8>,
}

impl View for ExecutionMsg {
    type V = ExecutionMsgView;

    open spec fn view(&self) -> ExecutionMsgView {
        ExecutionMsgView { order: self.order, contract: self.contract@, msg: self.msg@ }
    }
}

/// The request carried by a message to another contract (or to this one).
#[derive(Clone, Debug, PartialEq, Eq)]
pub enum ExecuteBody {
    /// A cw20 `Transfer` of `amount` tokens to `recipient`.
    Cw20Transfer { recipient: String, amount: u128 },
    /// The distributor's `Distribute { id: None }`.
    Distribute,
    /// The governance contract's `StakeGovernanceTokenHook`.
    StakeGovernanceTokenHook { staker: String, amount: u128 },
    /// The governance contract's `UnstakeGovernanceTokenHook`.
    UnstakeGovernanceTokenHook { staker: String, amount: Option<u128> },
    /// The governance contract's `RunExecution`.
    RunExecution { executions: Vec<ExecutionMsg> },
    /// An already encoded message.
    Binary(Vec<u8>),
}

/// The abstract value of an [`ExecuteBody`].
pub enum ExecuteBodyView {
    Cw20Transfer { recipient: Seq<char>, amount: u128 },
    Distribute,
    StakeGovernanceTokenHook { staker: Seq<char>, amount: u128 },
    UnstakeGovernanceTokenHook { staker: Seq<char>, amount: Option<u128> },
    RunExecution { executions: Seq<ExecutionMsgView> },
    Binary(Seq<u8>),
}

impl View for ExecuteBody {
    type V = ExecuteBodyView;

    open spec fn view(&self) -> ExecuteBodyView {
        match self {
            ExecuteBody::Cw20Transfer { recipient, amount } => ExecuteBodyView::Cw20Transfer {
                recipient: recipient@,
                amount: *amount,
            },
            ExecuteBody::Distribute => ExecuteBodyView::Distribute,
            ExecuteBody::StakeGovernanceTokenHook {
                staker,
                amount,
            } => ExecuteBodyView::StakeGovernanceTokenHook { staker: staker@, amount: *amount },
            ExecuteBody::UnstakeGovernanceTokenHook {
                staker,
                amount,
            } => ExecuteBodyView::UnstakeGovernanceTokenHook { staker: staker@, amount: *amount },
            ExecuteBody::RunExecution { executions } => ExecuteBodyView::RunExecution {
                executions: executions@.map_values(|e: ExecutionMsg| e@),
            },
            ExecuteBody::Binary(b) => ExecuteBodyView::Binary(b@),
        }
    }
}

/// When the contract asks to hear back about a sub-message.
#[derive(Clone, Copy, Debug, PartialEq, Eq, Structural)]
pub enum ReplyOn {
    Always,
    Error,
    Success,
    Never,
}

/// A message to execute `msg` on `contract_addr`, with no funds attached.
#[derive(Clone, Debug, PartialEq, Eq)]
pub struct SubMsg {
    pub id: u64,
    pub contract_addr: String,
    pub msg: ExecuteBody,
    pub reply_on: ReplyOn,
}

/// The abstract value of a [`SubMsg`].
pub struct SubMsgView {
    pub id: u64,
    pub contract_addr: Seq<char>,
    pub msg: ExecuteBodyView,
    pub reply_on: ReplyOn,
}

impl View for SubMsg {
    type V = SubMsgView;

    open spec fn view(&self) -> SubMsgView {
        SubMsgView {
            id: self.id,
            contract_addr: self.contract_addr@,
            msg: self.msg@,
            reply_on: self.reply_on,
        }
    }
}

/// The abstract value of a plain message (id 0, no reply).
pub open spec fn plain_msg(contract_addr: Seq<char>, msg: ExecuteBodyView) -> SubMsgView {
    SubMsgView { id: 0, contract_addr, msg, reply_on: ReplyOn::Never }
}

/// The abstract value of a cw20 transfer of `amount` from `token` to `recipient`.
pub open spec fn transfer_msg(token: Seq<char>, recipient: Seq<char>, amount: u128) -> SubMsgView {
    plain_msg(token, ExecuteBodyView::Cw20Transfer { recipient, amount })
}

/// The result of a successful contract call.
#[derive(Clone, Debug, PartialEq, Eq)]
pub struct Response {
    pub messages: Vec<SubMsg>,
    pub attributes: Vec<Attribute>,
}

/// The abstract value of a [`Response`].
pub struct ResponseView {
    pub messages: Seq<SubMsgView>,
    pub attributes: Seq<(Seq<char>, Seq<char>)>,
}

impl View for Response {
    type V = ResponseView;

    open spec fn view(&self) -> ResponseView {
        ResponseView {
            messages: self.messages@.map_values(|m: SubMsg| m@),
            attributes: self.attributes@.map_values(|a: Attribute| a@),
        }
    }
}

/// The response with no message and the single attribute `("action", action)`.
pub open spec fn action_response(action: Seq<char>) -> ResponseView {
    ResponseView { messages: seq![], attributes: seq![("action"@, action)] }
}

/// `r` with `attr` appended.
pub open spec fn with_attr(r: ResponseView, key: Seq<char>, value: Seq<char>) -> ResponseView {
    ResponseView { messages: r.messages, attributes: r.attributes.push((key, value)) }
}

/// `r` with `m` appended to its messages.
pub open spec fn with_msg(r: ResponseView, m: SubMsgView) -> ResponseView {
    ResponseView { messages: r.messages.push(m), attributes: r.attributes }
}

/// A response whose only attribute is `("action", action)`.
pub fn make_response(action: &str) -> (r: Response)
    ensures
        r@ == action_response(action@),
{
    let key = String::from_str("action");
    let value = String::from_str(action);
    let mut attributes: Vec<Attribute> = Vec::new();
    attributes.push(Attribute { key, value });
    let r = Response { messages: Vec::new(), attributes };
    proof {
        assert(r@.attributes =~= action_response(action@).attributes);
        assert(r@.messages =~= action_response(action@).messages);
    }
    r
}

impl Response {
    /// The response with `(key, value)` appended to the attributes.
    pub fn add_attribute(self, key: &str, value: String) -> (r: Response)
        ensures
            r@ == with_attr(self@, key@, value@),
    {
        let mut r = self;
        r.attributes.push(Attribute { key: String::from_str(key), value });
        proof {
            assert(r@.attributes =~= with_attr(self@, key@, value@).attributes);
            assert(r@.messages =~= self@.messages);
        }
        r
    }

    /// The response with `msg` to `contract_addr` appended as a plain message.
    pub fn add_message(self, contract_addr: String, msg: ExecuteBody) -> (r: Response)
        ensures
            r@ == with_msg(self@, plain_msg(contract_addr@, msg@)),
    {
        let mut r = self;
        r.messages.push(SubMsg { id: 0, contract_addr, msg, reply_on: ReplyOn::Never });
        proof {
            assert(r@.messages =~= with_msg(self@, plain_msg(contract_addr@, msg@)).messages);
            assert(r@.attributes =~= self@.attributes);
        }
        r
    }

    /// The response with the sub-message `m` appended.
    pub fn add_submessage(self, m: SubMsg) -> (r: Response)
        ensures
            r@ == with_msg(self@, m@),
    {
        let mut r = self;
        let ghost mv = m@;
        r.messages.push(m);
        proof {
            assert(r@.messages =~= with_msg(self@, mv).messages);
            assert(r@.attributes =~= self@.attributes);
        }
        r
    }
}

/// `r` with `(key, "true")` appended when `present` holds.
pub open spec fn with_flag(r: ResponseView, present: bool, key: Seq<char>) -> ResponseView {
    if present {
        with_attr(r, key, "true"@)
    } else {
        r
    }
}

impl Response {
    /// The response with `(key, "true")` appended.
    pub fn add_flag(self, key: &str) -> (r: Response)
        ensures
            r@ == with_flag(self@, true, key@),
    {
        self.add_attribute(key, String::from_str("true"))
    }
}

} // verus!
