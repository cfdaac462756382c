//! cw20 token transfers sent by the governance contract.
use vstd::prelude::*;
use crate::errors::{StdError, is_parse_err};
use crate::messages::{
    Attribute, ExecuteBody, ReplyOn, Response, SubMsg, SubMsgView, spec_decimal, transfer_msg,
    uint_to_string,
};

verus! {

/// The response that sends `amount` of `token` to `recipient`, labelled
/// with `action`.
pub fn create_send_msg_response(token: &String, recipient: &String, amount: u128, action: &str) -> (r:
    Response)
    ensures
        r@.messages == seq![transfer_msg(token@, recipient@, amount)],
        r@.attributes == seq![
            ("action"@, action@),
            ("recipient"@, recipient@),
            ("amount"@, spec_decimal(amount as nat)),
        ],
{
    let messages = create_send_msg(token, recipient, amount);
    let attributes = create_send_attr(recipient, amount, action);
    let r = Response { messages, attributes };
    proof {
        assert(r@.messages =~= seq![transfer_msg(token@, recipient@, amount)]);
        assert(r@.attributes =~= seq![
            ("action"@, action@),
            ("recipient"@, recipient@),
            ("amount"@, spec_decimal(amount as nat)),
        ]);
    }
    r
}

/// The message that sends `amount` of `token` to `recipient`.
pub fn create_send_msg(token: &String, recipient: &String, amount: u128) -> (r: Vec<SubMsg>)
    ensures
        r@.map_values(|m: SubMsg| m@) == seq![transfer_msg(token@, recipient@, amount)],
{
    let mut v: Vec<SubMsg> = Vec::new();
    v.push(
        SubMsg {
            id: 0,
            contract_addr: token.clone(),
            msg: ExecuteBody::Cw20Transfer { recipient: recipient.clone(), amount },
            reply_on: ReplyOn::Never,
        },
    );
    proof {
        assert(v@.map_values(|m: SubMsg| m@) =~= seq![transfer_msg(token@, recipient@, amount)]);
    }
    v
}

/// The attributes of a transfer: the action, the recipient and the amount.
pub fn create_send_attr(recipient: &String, amount: u128, action: &str) -> (r: Vec<Attribute>)
    ensures
        r@.map_values(|a: Attribute| a@) == seq![
            ("action"@, action@),
            ("recipient"@, recipient@),
            ("amount"@, spec_decimal(amount as nat)),
        ],
{
    let mut v: Vec<Attribute> = Vec::new();
    v.push(Attribute { key: String::from_str("action"), value: String::from_str(action) });
    v.push(Attribute { key: String::from_str("recipient"), value: recipient.clone() });
    v.push(Attribute { key: String::from_str("amount"), value: uint_to_string(amount) });
    proof {
        assert(v@.map_values(|a: Attribute| a@) =~= seq![
            ("action"@, action@),
            ("recipient"@, recipient@),
            ("amount"@, spec_decimal(amount as nat)),
        ]);
    }
    v
}

/// The amount that the JSON bytes `data` decode to as a `Uint128` (a
/// decimal string), or `None` when they do not decode.
pub uninterp spec fn uint128_json(data: Seq<u8>) -> Option<u128>;

/// Decodes `data` with `cosmwasm_std::from_json::<Uint128>`: the amount, or
/// `None` when the bytes do not decode. The result is named `uint128_json` of
/// the bytes; the decoder's error message is not kept.
#[verifier::external_body]
fn parse_uint128_json(data: &Vec<u8>) -> (r: Option<u128>)
    ensures
        r == uint128_json(data@),
{
    match cosmwasm_std::from_json::<cosmwasm_std::Uint128>(data.as_slice()) {
        Ok(v) => Some(v.u128()),
        Err(_) => None,
    }
}

/// The token balance read from a cw20 token's storage: `read_ok` tells
/// whether the raw query succeeded and `data` holds what it gave. A failed
/// read counts as no tokens; the bytes read must decode as an amount.
pub fn cw20_balance_from_read(read_ok: bool, data: Option<Vec<u8>>) -> (r: Result<u128, StdError>)
    requires
        read_ok ==> data is Some,
    ensures
        !read_ok ==> r == Ok::<u128, StdError>(0),
        read_ok && uint128_json(data->Some_0@) is Some ==> r == Ok::<u128, StdError>(
            uint128_json(data->Some_0@)->Some_0,
        ),
        read_ok && uint128_json(data->Some_0@) is None ==> r is Err && is_parse_err(
            r->Err_0,
            "cosmwasm_std::math::uint128::Uint128"@,
        ),
{
    if !read_ok {
        return Ok(0);
    }
    let d = data.unwrap();
    match parse_uint128_json(&d) {
        Some(v) => Ok(v),
        None => Err(
            StdError::ParseErr {
                target_type: String::from_str("cosmwasm_std::math::uint128::Uint128"),
            },
        ),
    }
}

} // verus!
