//! The contract-invocation session protocol: building invocation
//! descriptors and authorization sets, bundling the pre-execution
//! request, resolving the fee reported by pre-execution into the
//! completion message, and classifying each phase's outcome into the
//! error taxonomy. The network transport itself is the caller's
//! collaborator: it hands each phase's outcome back as plain values.

use vstd::prelude::*;
use std::collections::HashMap;
use crate::decimal::spec_idec;
use crate::decimal::i64_to_dec;
use crate::errors::Error;
use crate::errors::ErrorKind;

verus! {

/// The invoking account: its address, the contract it calls, and the
/// contract account it is bound to (possibly empty).
#[derive(Debug)]
pub struct Account {
    pub address: String,
    pub contract_name: String,
    pub contract_account: String,
}

/// The process-wide compliance-endorsement settings: the endorsement
/// service's signer address and its fixed fee ceiling.
#[derive(Debug)]
pub struct ComplianceCheckConfig {
    pub compliance_check_endorse_service_addr: String,
    pub compliance_check_endorse_service_fee: u64,
}

/// A chain-agnostic invocation descriptor: one method of one contract,
/// with byte-encoded arguments.
#[derive(Debug)]
pub struct InvokeRequest {
    pub module_name: String,
    pub contract_name: String,
    pub method_name: String,
    pub args: HashMap<String, Vec<u8>>,
    pub amount: String,
}

/// The bundle sent for pre-execution: the invocation list, the
/// initiating address, and the authorization requirement list.
#[derive(Debug)]
pub struct InvokeRpcRequest {
    pub bcname: String,
    pub requests: Vec<InvokeRequest>,
    pub initiator: String,
    pub auth_require: Vec<String>,
}

/// The pre-execution request of the write path, which also asks the
/// network to select spendable inputs up to the total-amount ceiling.
#[derive(Debug)]
pub struct PreExecWithSelectUtxoRequest {
    pub bcname: String,
    pub address: String,
    pub total_amount: i64,
    pub request: InvokeRpcRequest,
}

/// A transaction message: the fee starts unknown and is rewritten once
/// after pre-execution reports the gas cost.
#[derive(Debug)]
pub struct Message {
    pub to: String,
    pub fee: String,
    pub desc: String,
    pub auth_require: Vec<String>,
    pub amount: String,
    pub frozen_height: i64,
    pub initiator: String,
}

/// What pre-execution returned for a read-only query: the gas it
/// would cost and the byte payloads of the invoked methods.
#[derive(Debug)]
pub struct InvokeRpcResponse {
    pub gas_used: i64,
    pub response: Vec<Vec<u8>>,
}

/// How the completion-and-submission phase ended, as the transport
/// collaborator reports it.
#[derive(Debug)]
pub enum CompletionOutcome {
    /// The transaction was posted; the ledger returned its id.
    Posted { txid: String },
    /// The ledger was reached but answered with an application-level
    /// status code instead of accepting the transaction.
    Rejected { status: i32, detail: String },
    /// The ledger could not be reached or the call itself failed.
    TransportFailure { detail: String },
    /// Signing the transaction failed before it could be posted.
    SigningFailure { detail: String },
}

/// The authorization requirement list an account must gather: the
/// composite contract-account identity first when the account is bound
/// to one, the endorsement service address always last.
pub open spec fn auth_requires_ok(r: Seq<String>, account: Account, endorse_addr: Seq<char>) -> bool {
    if account.contract_account@.len() == 0 {
        r.len() == 1 && r[0]@ == endorse_addr
    } else {
        r.len() == 2 && r[0]@ == account.contract_account@ + seq!['/'] + account.address@
            && r[1]@ == endorse_addr
    }
}

/// A well-formed invocation descriptor for the fixed contract runtime.
pub open spec fn invoke_request_ok(
    q: InvokeRequest,
    contract_name: Seq<char>,
    method_name: Seq<char>,
    args: HashMap<String, Vec<u8>>,
    amount: Seq<char>,
) -> bool {
    &&& q.module_name@ == "wasm"@
    &&& q.contract_name@ == contract_name
    &&& q.method_name@ == method_name
    &&& q.args == args
    &&& q.amount@ == amount
}

/// A well-formed pre-execution bundle: exactly one invocation, the
/// account's address as initiator, and the authorization list above.
pub open spec fn invoke_rpc_request_ok(
    q: InvokeRpcRequest,
    bcname: Seq<char>,
    account: Account,
    method_name: Seq<char>,
    args: HashMap<String, Vec<u8>>,
    amount: Seq<char>,
    endorse_addr: Seq<char>,
) -> bool {
    &&& q.bcname@ == bcname
    &&& q.initiator@ == account.address@
    &&& q.requests@.len() == 1
    &&& invoke_request_ok(q.requests@[0], account.contract_name@, method_name, args, amount)
    &&& auth_requires_ok(q.auth_require@, account, endorse_addr)
}

/// The message the write path starts from: fee still unknown, the
/// fixed description, and the same authorization list that
/// pre-execution was sent.
pub open spec fn initial_invoke_message_ok(m: Message, account: Account, endorse_addr: Seq<char>) -> bool {
    &&& m.to@ == Seq::<char>::empty()
    &&& m.fee@ == Seq::<char>::empty()
    &&& m.desc@ == "call from contract"@
    &&& auth_requires_ok(m.auth_require@, account, endorse_addr)
    &&& m.amount@ == Seq::<char>::empty()
    &&& m.frozen_height == 0
    &&& m.initiator@ == account.address@
}

/// The message the read path uses: no gas is spent, so the fee is
/// fixed at zero and nothing is ever signed or submitted.
pub open spec fn query_message_ok(m: Message, account: Account, endorse_addr: Seq<char>) -> bool {
    &&& m.to@ == Seq::<char>::empty()
    &&& m.fee@ == "0"@
    &&& m.desc@ == Seq::<char>::empty()
    &&& auth_requires_ok(m.auth_require@, account, endorse_addr)
    &&& m.amount@ == Seq::<char>::empty()
    &&& m.frozen_height == 0
    &&& m.initiator@ == account.address@
}

/// The completion message is the base message with its fee rewritten
/// to the reported gas cost, rendered in decimal; every other field is
/// carried over unchanged.
pub open spec fn fee_resolved(m: Message, base: Message, gas_used: int) -> bool {
    &&& m.fee@ == spec_idec(gas_used)
    &&& m.to@ == base.to@
    &&& m.desc@ == base.desc@
    &&& m.auth_require@ == base.auth_require@
    &&& m.amount@ == base.amount@
    &&& m.frozen_height == base.frozen_height
    &&& m.initiator@ == base.initiator@
}

/// Law: the authorization list is a function of the account and the
/// endorsement address alone, so any two lists derived for the same
/// pair — the one sent with pre-execution and the one the completion
/// message carries — are identical entry for entry, in the same order.
pub proof fn lemma_auth_requires_deterministic(
    a: Seq<String>,
    b: Seq<String>,
    account: Account,
    endorse_addr: Seq<char>,
)
    requires
        auth_requires_ok(a, account, endorse_addr),
        auth_requires_ok(b, account, endorse_addr),
    ensures
        a.len() == b.len(),
        forall|i: int| 0 <= i < a.len() ==> a[i]@ == b[i]@,
{
}

/// Derives the ordered signer-identity list for the account: the
/// composite `contract-account/address` identity first when the
/// account is bound to a contract account, then always the endorsement
/// service address.
pub fn build_auth_requires(account: &Account, endorse_service_addr: &String) -> (r: Vec<String>)
    ensures
        auth_requires_ok(r@, *account, endorse_service_addr@),
{
    let mut auth_requires: Vec<String> = Vec::new();
    if !account.contract_account.as_str().is_empty() {
        let mut composite = account.contract_account.clone();
        composite.append("/");
        composite.append(account.address.as_str());
        proof {
            reveal_strlit("/");
            assert(composite@ =~= account.contract_account@ + seq!['/'] + account.address@);
        }
        auth_requires.push(composite);
    }
    auth_requires.push(endorse_service_addr.clone());
    auth_requires
}

/// Builds the invocation descriptor for one method call: the module
/// name is fixed to the contract runtime identifier, and the amount is
/// whatever the calling path dictates (zero for state-changing
/// invocations, absent for queries).
pub fn build_invoke_request(
    contract_name: &String,
    method_name: &String,
    args: HashMap<String, Vec<u8>>,
    amount: String,
) -> (r: InvokeRequest)
    ensures
        invoke_request_ok(r, contract_name@, method_name@, args, amount@),
{
    InvokeRequest {
        module_name: String::from_str("wasm"),
        contract_name: contract_name.clone(),
        method_name: method_name.clone(),
        args,
        amount,
    }
}

/// Bundles one invocation descriptor with the initiator and the
/// authorization requirement list for the given chain.
pub fn build_invoke_rpc_request(
    account: &Account,
    bcname: &String,
    method_name: &String,
    args: HashMap<String, Vec<u8>>,
    amount: String,
    endorse_service_addr: &String,
) -> (r: InvokeRpcRequest)
    ensures
        invoke_rpc_request_ok(r, bcname@, *account, method_name@, args, amount@, endorse_service_addr@),
{
    let invoke_req = build_invoke_request(&account.contract_name, method_name, args, amount);
    let mut requests: Vec<InvokeRequest> = Vec::new();
    requests.push(invoke_req);
    let auth_requires = build_auth_requires(account, endorse_service_addr);
    InvokeRpcRequest {
        bcname: bcname.clone(),
        requests,
        initiator: account.address.clone(),
        auth_require: auth_requires,
    }
}

/// Build phase of the write path: assembles the pre-execution request
/// (one invocation with amount zero, the authorization list, the
/// initiator, and the configured total-amount ceiling for input
/// selection) together with the initial transaction message whose fee
/// is still unknown.
pub fn prepare_invoke(
    account: &Account,
    chain_name: &String,
    config: &ComplianceCheckConfig,
    method_name: &String,
    args: HashMap<String, Vec<u8>>,
) -> (r: (PreExecWithSelectUtxoRequest, Message))
    requires
        config.compliance_check_endorse_service_fee <= 0x7fff_ffff_ffff_ffffu64,
    ensures
        r.0.bcname@ == chain_name@,
        r.0.address@ == account.address@,
        r.0.total_amount == config.compliance_check_endorse_service_fee,
        invoke_rpc_request_ok(
            r.0.request,
            chain_name@,
            *account,
            method_name@,
            args,
            "0"@,
            config.compliance_check_endorse_service_addr@,
        ),
        initial_invoke_message_ok(r.1, *account, config.compliance_check_endorse_service_addr@),
{
    let invoke_rpc_request = build_invoke_rpc_request(
        account,
        chain_name,
        method_name,
        args,
        String::from_str("0"),
        &config.compliance_check_endorse_service_addr,
    );
    let total_amount: i64 = config.compliance_check_endorse_service_fee as i64;
    let auth_requires = build_auth_requires(account, &config.compliance_check_endorse_service_addr);
    let msg = Message {
        to: String::new(),
        fee: String::new(),
        desc: String::from_str("call from contract"),
        auth_require: auth_requires,
        amount: String::new(),
        frozen_height: 0,
        initiator: account.address.clone(),
    };
    let pre_sel_utxo_req = PreExecWithSelectUtxoRequest {
        bcname: chain_name.clone(),
        address: account.address.clone(),
        total_amount,
        request: invoke_rpc_request,
    };
    (pre_sel_utxo_req, msg)
}

/// Fee resolution: derives the completion message from the base
/// message, identical except that the fee is now the gas cost reported
/// by pre-execution, rendered as a decimal string.
pub fn resolve_fee(msg: &Message, gas_used: i64) -> (m: Message)
    ensures
        fee_resolved(m, *msg, gas_used as int),
{
    let auth_require = msg.auth_require.clone();
    proof {
        assert forall|i: int| 0 <= i < msg.auth_require@.len() implies auth_require@[i]
            == msg.auth_require@[i] by {
            assert(cloned::<String>(msg.auth_require[i], auth_require[i]));
        }
        assert(auth_require@ =~= msg.auth_require@);
    }
    Message {
        to: msg.to.clone(),
        fee: i64_to_dec(gas_used),
        desc: msg.desc.clone(),
        auth_require,
        amount: msg.amount.clone(),
        frozen_height: msg.frozen_height,
        initiator: msg.initiator.clone(),
    }
}

/// Classifies the outcome of the pre-execution phase: on a reported
/// gas cost the session moves on with the fee-resolved completion
/// message and the opaque execution context (the input selection)
/// carried to the completion phase unchanged; a transport failure or
/// non-success status is terminal and classified as a chain RPC error
/// carrying the collaborator's diagnostic.
pub fn on_pre_exec_outcome<Context>(
    msg: &Message,
    outcome: Result<(i64, Context), String>,
) -> (r: Result<(Message, Context), Error>)
    ensures
        r is Ok <==> outcome is Ok,
        outcome matches Ok(reported) ==> r matches Ok(resolved) && fee_resolved(
            resolved.0,
            *msg,
            reported.0 as int,
        ) && resolved.1 == reported.1,
        outcome matches Err(detail) ==> r matches Err(e) && e.kind_spec()
            == ErrorKind::ChainRPCError && e.cause_spec() == Some(detail@),
{
    match outcome {
        Ok((gas_used, context)) => Ok((resolve_fee(msg, gas_used), context)),
        Err(detail) => Err(Error::new(ErrorKind::ChainRPCError, detail)),
    }
}

/// Classifies the outcome of the completion-and-submission phase: a
/// posted transaction hands back its id; a ledger status code greater
/// than 400 means the invocation was rejected by contract logic and is
/// classified apart from transport failure; any other non-success
/// status or transport failure is a chain RPC error; a signing failure
/// is a crypto error.
pub fn on_completion_outcome(outcome: CompletionOutcome) -> (r: Result<String, Error>)
    ensures
        outcome matches CompletionOutcome::Posted { txid } ==> r matches Ok(t) && t@ == txid@,
        outcome matches CompletionOutcome::Rejected { status, detail } ==> r matches Err(e)
            && e.kind_spec() == (if status > 400 {
            ErrorKind::ContractCodeGT400
        } else {
            ErrorKind::ChainRPCError
        }) && e.cause_spec() == Some(detail@),
        outcome matches CompletionOutcome::TransportFailure { detail } ==> r matches Err(e)
            && e.kind_spec() == ErrorKind::ChainRPCError && e.cause_spec() == Some(detail@),
        outcome matches CompletionOutcome::SigningFailure { detail } ==> r matches Err(e)
            && e.kind_spec() == ErrorKind::CryptoError && e.cause_spec() == Some(detail@),
{
    match outcome {
        CompletionOutcome::Posted { txid } => Ok(txid),
        CompletionOutcome::Rejected { status, detail } => {
            if status > 400 {
                Err(Error::new(ErrorKind::ContractCodeGT400, detail))
            } else {
                Err(Error::new(ErrorKind::ChainRPCError, detail))
            }
        },
        CompletionOutcome::TransportFailure { detail } => Err(
            Error::new(ErrorKind::ChainRPCError, detail),
        ),
        CompletionOutcome::SigningFailure { detail } => Err(
            Error::new(ErrorKind::CryptoError, detail),
        ),
    }
}

/// Build phase of the read path: a single pre-execution bundle whose
/// invocation carries no amount, together with a message whose fee is
/// fixed at zero. The read path ends with pre-execution; it has no
/// completion or submission phase to reach.
pub fn prepare_query(
    account: &Account,
    chain_name: &String,
    config: &ComplianceCheckConfig,
    method_name: &String,
    args: HashMap<String, Vec<u8>>,
) -> (r: (InvokeRpcRequest, Message))
    ensures
        invoke_rpc_request_ok(
            r.0,
            chain_name@,
            *account,
            method_name@,
            args,
            Seq::<char>::empty(),
            config.compliance_check_endorse_service_addr@,
        ),
        query_message_ok(r.1, *account, config.compliance_check_endorse_service_addr@),
{
    let invoke_rpc_request = build_invoke_rpc_request(
        account,
        chain_name,
        method_name,
        args,
        String::new(),
        &config.compliance_check_endorse_service_addr,
    );
    let auth_requires = build_auth_requires(account, &config.compliance_check_endorse_service_addr);
    let msg = Message {
        to: String::new(),
        fee: String::from_str("0"),
        desc: String::new(),
        auth_require: auth_requires,
        amount: String::new(),
        frozen_height: 0,
        initiator: account.address.clone(),
    };
    (invoke_rpc_request, msg)
}

/// Classifies the outcome of the read path's single pre-execution
/// call: a response is handed back to the caller unchanged, and a
/// transport failure or non-success status is a chain RPC error.
pub fn on_query_outcome(outcome: Result<InvokeRpcResponse, String>) -> (r: Result<
    InvokeRpcResponse,
    Error,
>)
    ensures
        r is Ok <==> outcome is Ok,
        outcome matches Ok(resp) ==> r matches Ok(q) && q == resp,
        outcome matches Err(detail) ==> r matches Err(e) && e.kind_spec()
            == ErrorKind::ChainRPCError && e.cause_spec() == Some(detail@),
{
    match outcome {
        Ok(resp) => Ok(resp),
        Err(detail) => Err(Error::new(ErrorKind::ChainRPCError, detail)),
    }
}

} // verus!
