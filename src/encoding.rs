//! Calls into the outside crates that encode and decode messages.
use vstd::prelude::*;

verus! {

/// The JSON with which the token contract is created: cw20_base's
/// `InstantiateMsg` with these fields and this contract as minter.
pub uninterp spec fn token_init_json(
    name: Seq<char>,
    symbol: Seq<char>,
    decimals: u8,
    initial_balances: Seq<cw20::Cw20Coin>,
    minter: Seq<char>,
    cap: Option<u128>,
    marketing: Option<cw20_base::msg::InstantiateMarketingInfo>,
) -> Seq<u8>;

/// The JSON of cw20's `Mint { recipient, amount }` message.
pub uninterp spec fn mint_json(recipient: Seq<char>, amount: u128) -> Seq<u8>;

/// The JSON of an address.
pub uninterp spec fn address_json(addr: Seq<char>) -> Seq<u8>;

/// The contract address in a protobuf reply to a contract's creation, if the
/// reply decodes.
pub uninterp spec fn created_address(data: Seq<u8>) -> Option<Seq<char>>;

/// Relies on cosmwasm_std::to_json_binary, on cw20_base's `InstantiateMsg`
/// with `mint` set to these `minter` and `cap`: its output depends on the
/// fields alone. It succeeds: its serializer (serde-json-wasm) fails only on
/// a map key that is not a string, and this message holds no map (amounts
/// and embedded logos are written as strings).
#[verifier::external_body]
pub(crate) fn encode_token_init(
    name: String,
    symbol: String,
    decimals: u8,
    initial_balances: Vec<cw20::Cw20Coin>,
    minter: String,
    cap: Option<u128>,
    marketing: Option<cw20_base::msg::InstantiateMarketingInfo>,
) -> (r: Result<Vec<u8>, cosmwasm_std::StdError>)
    ensures
        r is Ok,
        r matches Ok(b) ==> b@ == token_init_json(
            name@,
            symbol@,
            decimals,
            initial_balances@,
            minter@,
            cap,
            marketing,
        ),
{
    let cap = cap.map(cosmwasm_std::Uint128::new);
    let mint = Some(cw20::MinterResponse { minter, cap });
    let msg = cw20_base::msg::InstantiateMsg { name, symbol, decimals, initial_balances, mint, marketing };
    cosmwasm_std::to_json_binary(&msg).map(|b| b.to_vec())
}

/// Relies on cosmwasm_std::to_json_binary, on cw20's `Cw20ExecuteMsg::Mint`:
/// its output depends on the recipient and the amount alone. It succeeds:
/// the message holds two strings (the amount is written as one) and no map.
#[verifier::external_body]
pub(crate) fn encode_mint(recipient: String, amount: u128) -> (r: Result<
    Vec<u8>,
    cosmwasm_std::StdError,
>)
    ensures
        r is Ok,
        r matches Ok(b) ==> b@ == mint_json(recipient@, amount),
{
    let amount = cosmwasm_std::Uint128::new(amount);
    cosmwasm_std::to_json_binary(&cw20::Cw20ExecuteMsg::Mint { recipient, amount }).map(|b| b.to_vec())
}

/// Relies on cosmwasm_std::to_json_binary, on an `Addr`: its output depends on
/// the address alone. It succeeds: an `Addr` is written as a string.
#[verifier::external_body]
pub(crate) fn encode_address(addr: String) -> (r: Result<Vec<u8>, cosmwasm_std::StdError>)
    ensures
        r is Ok,
        r matches Ok(b) ==> b@ == address_json(addr@),
{
    cosmwasm_std::to_json_binary(&cosmwasm_std::Addr::unchecked(addr)).map(|b| b.to_vec())
}

/// Relies on cw_utils::parse_instantiate_response_data, of whose result only
/// the contract address is kept. Its source reads empty data as an empty
/// address.
#[verifier::external_body]
pub(crate) fn parse_created_address(data: &Vec<u8>) -> (r: Result<String, cw_utils::ParseReplyError>)
    ensures
        r matches Ok(a) ==> created_address(data@) == Some(a@),
        r is Err ==> created_address(data@) is None,
        r matches Ok(a) ==> (data@.len() == 0 ==> a@.len() == 0),
        data@.len() == 0 ==> r is Ok,
{
    cw_utils::parse_instantiate_response_data(data.as_slice()).map(|m| m.contract_address)
}

} // verus!
