use vstd::prelude::*;

verus! {

#[verifier::external_type_specification]
#[verifier::external_body]
pub struct ExCw20Coin(cw20::Cw20Coin);

#[verifier::external_type_specification]
#[verifier::external_body]
pub struct ExInstantiateMarketingInfo(cw20_base::msg::InstantiateMarketingInfo);

/// Parameters for creating the minter and, through it, the token contract.
#[derive(Clone, Debug, PartialEq)]
pub struct InstantiateMsg {
    /// The administrator asked for. The caller passes it on only once the
    /// host has accepted it as an address; when absent, the sender becomes
    /// the administrator.
    pub admin: Option<String>,
    /// The stored code from which the token contract is created.
    pub cw20_code_id: u64,
    pub name: String,
    pub symbol: String,
    pub decimals: u8,
    pub initial_balances: Vec<cw20::Cw20Coin>,
    pub marketing: Option<cw20_base::msg::InstantiateMarketingInfo>,
    /// Upper bound on the token's total supply, if any.
    pub cap: Option<u128>,
}

/// Actions that change the token.
#[derive(Clone, Debug, PartialEq)]
pub enum ExecuteMsg {
    /// Mint `amount` new tokens to the address `to`.
    MintToken { to: String, amount: u128 },
}

/// Questions the contract answers.
#[derive(Clone, Copy, Debug, PartialEq, Eq, Structural)]
pub enum QueryMsg {
    /// The address of the token contract.
    Token {},
}

} // verus!
