//! What the four entry points decide: creation, minting, replies and queries.
use vstd::prelude::*;

use crate::encoding::{
    address_json, created_address, encode_address, encode_mint, encode_token_init, mint_json,
    parse_created_address, token_init_json,
};
use crate::error::ContractError;
use crate::msg::{ExecuteMsg, InstantiateMsg, QueryMsg};
use crate::response::{Response, SubMsg, WasmMsg};
use crate::state::State;

verus! {

/// The reply id under which the token contract's creation is reported.
pub const INSTANTIATE_REPLY: u64 = 1;

/// The reply id under which a mint is reported.
pub const MINT_REPLY: u64 = 2;

/// The administrator: the one asked for, else the sender.
pub open spec fn chosen_admin(sender: Seq<char>, admin: Option<String>) -> Seq<char> {
    match admin {
        Some(a) => a@,
        None => sender,
    }
}

/// `r` creates the token contract from `code_id` with `payload`, and says so.
pub open spec fn is_instantiate_response(r: Response, code_id: u64, payload: Seq<u8>) -> bool {
    &&& r.attrs() == seq![("action"@, "instantiate"@)]
    &&& r.messages@.len() == 1
    &&& r.messages@[0].id == INSTANTIATE_REPLY
    &&& r.messages@[0].msg.is_instantiate(code_id, payload, "Cw20 Contract"@)
}

/// `r` runs `payload` on the token contract at `token`, and says so.
pub open spec fn is_mint_response(r: Response, token: Seq<char>, payload: Seq<u8>) -> bool {
    &&& r.attrs() == seq![("action"@, "mint"@)]
    &&& r.messages@.len() == 1
    &&& r.messages@[0].id == MINT_REPLY
    &&& r.messages@[0].msg.is_execute(token, payload)
}

/// `r` carries nothing.
pub open spec fn is_empty_response(r: Response) -> bool {
    &&& r.attrs().len() == 0
    &&& r.messages@.len() == 0
}

/// The state right after creation: the chosen administrator, and no token
/// address yet.
pub fn initial_state(sender: String, admin: Option<String>) -> (r: State)
    ensures
        r.admin@ == chosen_admin(sender@, admin),
        r.token@ == Seq::<char>::empty(),
        !r.token_recorded(),
{
    let admin = match admin {
        Some(a) => a,
        None => sender,
    };
    State { admin, token: String::new() }
}

/// The response to creation, once the token contract's message is encoded as
/// `payload`.
pub fn instantiate_response(code_id: u64, payload: Vec<u8>) -> (r: Response)
    ensures
        is_instantiate_response(r, code_id, payload@),
{
    let label = "Cw20 Contract".to_owned();
    let msg = WasmMsg::Instantiate { code_id, msg: payload, label };
    let r = Response::new().add_attribute("action", "instantiate");
    r.add_submessage(SubMsg { id: INSTANTIATE_REPLY, msg })
}

/// Creates the minter at `contract_address`, called by `sender`: the state to
/// store, and a message that creates the token contract with this contract
/// as its only minter. Always succeeds.
pub fn instantiate(contract_address: String, sender: String, msg: InstantiateMsg) -> (r: Result<
    (State, Response),
    ContractError,
>)
    ensures
        r is Ok,
        r matches Ok((s, resp)) ==> {
            &&& s.admin@ == chosen_admin(sender@, msg.admin)
            &&& !s.token_recorded()
            &&& is_instantiate_response(
                resp,
                msg.cw20_code_id,
                token_init_json(
                    msg.name@,
                    msg.symbol@,
                    msg.decimals,
                    msg.initial_balances@,
                    contract_address@,
                    msg.cap,
                    msg.marketing,
                ),
            )
        },
{
    let InstantiateMsg {
        admin,
        cw20_code_id,
        name,
        symbol,
        decimals,
        initial_balances,
        marketing,
        cap,
    } = msg;
    let state = initial_state(sender, admin);
    match encode_token_init(name, symbol, decimals, initial_balances, contract_address, cap, marketing) {
        Ok(payload) => Ok((state, instantiate_response(cw20_code_id, payload))),
        Err(e) => Err(ContractError::Std(e)),
    }
}

/// The response to a mint, once cw20's mint message is encoded as `payload`.
pub fn mint_response(token: &String, payload: Vec<u8>) -> (r: Response)
    ensures
        is_mint_response(r, token@, payload@),
{
    let msg = WasmMsg::Execute { contract_addr: token.clone(), msg: payload };
    let r = Response::new().add_attribute("action", "mint");
    r.add_submessage(SubMsg { id: MINT_REPLY, msg })
}

/// Handles `msg` sent by `sender`. A mint of zero tokens is refused first,
/// then a mint by anyone but the administrator; an allowed mint asks the
/// token contract to mint. The state is never changed here.
pub fn execute(state: &State, sender: &String, msg: ExecuteMsg) -> (r: Result<Response, ContractError>)
    ensures
        match msg {
            ExecuteMsg::MintToken { to, amount } => {
                &&& amount == 0 ==> (r matches Err(ContractError::ZeroAmount {  }))
                &&& amount != 0 && sender@ != state.admin@ ==> (r matches Err(
                    ContractError::Unauthorized {  },
                ))
                &&& amount != 0 && sender@ == state.admin@ ==> (r matches Ok(resp)
                    && is_mint_response(resp, state.token@, mint_json(to@, amount)))
            },
        },
        r is Ok <==> (msg->amount != 0 && sender@ == state.admin@),
{
    match msg {
        ExecuteMsg::MintToken { to, amount } => {
            if amount == 0 {
                return Err(ContractError::ZeroAmount {  });
            }
            if *sender != state.admin {
                return Err(ContractError::Unauthorized {  });
            }
            match encode_mint(to, amount) {
                Ok(payload) => Ok(mint_response(&state.token, payload)),
                Err(e) => Err(ContractError::Std(e)),
            }
        },
    }
}

/// Records the token contract's address, as decoded from the report of its
/// creation (`parsed`). A report that did not decode is refused and the state
/// kept.
pub fn record_created(state: &mut State, parsed: Result<String, cw_utils::ParseReplyError>) -> (r:
    Result<Response, ContractError>)
    ensures
        final(state).admin@ == old(state).admin@,
        match parsed {
            Ok(a) => {
                &&& r matches Ok(resp) && is_empty_response(resp)
                &&& final(state).token@ == a@
            },
            Err(_) => {
                &&& r matches Err(ContractError::ParseReply(_))
                &&& final(state).token@ == old(state).token@
            },
        },
{
    match parsed {
        Ok(a) => {
            state.token = a;
            Ok(Response::new())
        },
        Err(e) => Err(ContractError::ParseReply(e)),
    }
}

/// Handles the host's report under `id` of a message's success, with the data
/// that came back (`result`, or the failure's text). A report of the token
/// contract's creation records its address; one of a mint is acknowledged;
/// any other id is refused. The state changes only on a creation report whose
/// data decodes.
pub fn reply(state: &mut State, id: u64, result: Result<Option<Vec<u8>>, String>) -> (r: Result<
    Response,
    ContractError,
>)
    ensures
        final(state).admin@ == old(state).admin@,
        final(state).token@ != old(state).token@ ==> {
            &&& id == INSTANTIATE_REPLY
            &&& result matches Ok(Some(data)) && created_address(data@) is Some
        },
        id == INSTANTIATE_REPLY ==> match result {
            Ok(Some(data)) => match created_address(data@) {
                Some(a) => {
                    &&& r matches Ok(resp) && is_empty_response(resp)
                    &&& final(state).token@ == a
                },
                None => {
                    &&& r matches Err(ContractError::ParseReply(_))
                    &&& final(state).token@ == old(state).token@
                },
            },
            Ok(None) => {
                &&& r matches Err(ContractError::MissingReplyData {  })
                &&& final(state).token@ == old(state).token@
            },
            Err(m) => {
                &&& r matches Err(ContractError::ReplyFailed { msg }) && msg@ == m@
                &&& final(state).token@ == old(state).token@
            },
        },
        id == MINT_REPLY ==> {
            &&& r matches Ok(resp) && resp.attrs() == seq![("Operation"@, "mint"@)]
                && resp.messages@.len() == 0
            &&& final(state).token@ == old(state).token@
        },
        id != INSTANTIATE_REPLY && id != MINT_REPLY ==> {
            &&& r matches Err(ContractError::UnrecognizedReply {  })
            &&& final(state).token@ == old(state).token@
        },
{
    if id == INSTANTIATE_REPLY {
        match result {
            Ok(Some(data)) => {
                let parsed = parse_created_address(&data);
                record_created(state, parsed)
            },
            Ok(None) => Err(ContractError::MissingReplyData {  }),
            Err(msg) => Err(ContractError::ReplyFailed { msg }),
        }
    } else if id == MINT_REPLY {
        Ok(Response::new().add_attribute("Operation", "mint"))
    } else {
        Err(ContractError::UnrecognizedReply {  })
    }
}

/// Answers `msg`: the token contract's address, as JSON; empty until the
/// token contract's creation has been recorded.
pub fn query(state: &State, msg: QueryMsg) -> (r: Result<Vec<u8>, cosmwasm_std::StdError>)
    ensures
        r matches Ok(b) && b@ == address_json(state.token@),
{
    match msg {
        QueryMsg::Token {  } => encode_address(state.token.clone()),
    }
}

} // verus!
