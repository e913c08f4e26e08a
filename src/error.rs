use vstd::prelude::*;

verus! {

#[verifier::external_type_specification]
#[verifier::external_body]
pub struct ExStdError(cosmwasm_std::StdError);

#[verifier::external_type_specification]
#[verifier::external_body]
pub struct ExParseReplyError(cw_utils::ParseReplyError);

/// Why a call was rejected.
#[derive(Debug, PartialEq)]
pub enum ContractError {
    /// An error of cosmwasm_std, such as a failed encoding; the encodings made
    /// here succeed, so only callers around this library raise it.
    Std(cosmwasm_std::StdError),
    /// The sender is not the administrator.
    Unauthorized {},
    /// A mint of zero tokens.
    ZeroAmount {},
    /// A reply under an id that this contract never sent.
    UnrecognizedReply {},
    /// The token contract's creation was reported as failed.
    ReplyFailed { msg: String },
    /// The creation report carried no data.
    MissingReplyData {},
    /// The creation report's data could not be decoded.
    ParseReply(cw_utils::ParseReplyError),
}

} // verus!
