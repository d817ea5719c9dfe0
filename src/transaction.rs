//! Transactions as received from the ledger, and the identifiers they are hashed with.

use crate::felt::{left_pad, Felt};
use vstd::prelude::*;

verus! {

/// A block height.
#[derive(Clone, Copy, Debug, PartialEq, Eq, Structural)]
pub struct BlockNumber(pub u64);

/// The identifier of a Starknet network, as a field element.
#[derive(Clone, Copy, Debug, PartialEq)]
pub struct ChainId(pub Felt);

/// "SN_MAIN"
pub open spec fn mainnet_name() -> Seq<u8> {
    seq![83u8, 78, 95, 77, 65, 73, 78]
}

/// "SN_GOERLI"
pub open spec fn testnet_name() -> Seq<u8> {
    seq![83u8, 78, 95, 71, 79, 69, 82, 76, 73]
}

/// "SN_GOERLI2"
pub open spec fn testnet2_name() -> Seq<u8> {
    seq![83u8, 78, 95, 71, 79, 69, 82, 76, 73, 50]
}

/// The last testnet2 block whose transactions were hashed with testnet's chain id.
pub const TESTNET2_LAST_GOERLI_BLOCK: u64 = 21086;

/// The chain id in effect when a transaction of `block` on chain `chain` was hashed:
/// early testnet2 blocks used testnet's id.
pub open spec fn effective_chain_id(chain: Seq<u8>, block: u64) -> Seq<u8> {
    if chain == left_pad(testnet2_name()) && block <= TESTNET2_LAST_GOERLI_BLOCK {
        left_pad(testnet_name())
    } else {
        chain
    }
}

impl ChainId {
    pub fn mainnet() -> (r: ChainId)
        ensures
            r.0@ == left_pad(mainnet_name()),
    {
        let name: [u8; 7] = [83, 78, 95, 77, 65, 73, 78];
        assert(name@ =~= mainnet_name());
        ChainId(Felt::from_short_string(&name))
    }

    pub fn testnet() -> (r: ChainId)
        ensures
            r.0@ == left_pad(testnet_name()),
    {
        let name: [u8; 9] = [83, 78, 95, 71, 79, 69, 82, 76, 73];
        assert(name@ =~= testnet_name());
        ChainId(Felt::from_short_string(&name))
    }

    pub fn testnet2() -> (r: ChainId)
        ensures
            r.0@ == left_pad(testnet2_name()),
    {
        let name: [u8; 10] = [83, 78, 95, 71, 79, 69, 82, 76, 73, 50];
        assert(name@ =~= testnet2_name());
        ChainId(Felt::from_short_string(&name))
    }
}

/// Resolves the chain id in effect at `block_number`, correcting for the
/// rename of testnet2's id.
pub fn resolve_chain_id(chain_id: ChainId, block_number: BlockNumber) -> (r: ChainId)
    ensures
        r.0@ == effective_chain_id(chain_id.0@, block_number.0),
{
    let testnet2 = ChainId::testnet2();
    if chain_id.0 == testnet2.0 && block_number.0 <= TESTNET2_LAST_GOERLI_BLOCK {
        ChainId::testnet()
    } else {
        chain_id
    }
}

/// The kind of entry point that an old invoke transaction called.
#[derive(Clone, Copy, Debug, PartialEq, Eq, Structural)]
pub enum EntryPointType {
    External,
    L1Handler,
    Constructor,
}

/// A declare transaction of version 0 or 1.
#[derive(Clone, Debug)]
pub struct DeclareTransactionV0V1 {
    pub class_hash: Felt,
    pub max_fee: Felt,
    pub nonce: Felt,
    pub sender_address: Felt,
    pub transaction_hash: Felt,
}

/// A declare transaction of version 2.
#[derive(Clone, Debug)]
pub struct DeclareTransactionV2 {
    pub class_hash: Felt,
    pub max_fee: Felt,
    pub nonce: Felt,
    pub sender_address: Felt,
    pub transaction_hash: Felt,
    pub compiled_class_hash: Felt,
}

#[derive(Clone, Debug)]
pub struct DeployTransaction {
    pub contract_address: Felt,
    pub contract_address_salt: Felt,
    pub class_hash: Felt,
    pub constructor_calldata: Vec<Felt>,
    pub transaction_hash: Felt,
    pub version: Felt,
}

#[derive(Clone, Debug)]
pub struct DeployAccountTransaction {
    pub contract_address: Felt,
    pub transaction_hash: Felt,
    pub max_fee: Felt,
    pub version: Felt,
    pub nonce: Felt,
    pub contract_address_salt: Felt,
    pub constructor_calldata: Vec<Felt>,
    pub class_hash: Felt,
}

#[derive(Clone, Debug)]
pub struct InvokeTransactionV0 {
    pub calldata: Vec<Felt>,
    pub sender_address: Felt,
    pub entry_point_selector: Felt,
    pub entry_point_type: Option<EntryPointType>,
    pub max_fee: Felt,
    pub transaction_hash: Felt,
}

#[derive(Clone, Debug)]
pub struct InvokeTransactionV1 {
    pub calldata: Vec<Felt>,
    pub sender_address: Felt,
    pub max_fee: Felt,
    pub nonce: Felt,
    pub transaction_hash: Felt,
}

#[derive(Clone, Debug)]
pub struct L1HandlerTransaction {
    pub contract_address: Felt,
    pub entry_point_selector: Felt,
    pub nonce: Felt,
    pub calldata: Vec<Felt>,
    pub transaction_hash: Felt,
    pub version: Felt,
}

#[derive(Clone, Debug)]
pub enum DeclareTransaction {
    V0(DeclareTransactionV0V1),
    V1(DeclareTransactionV0V1),
    V2(DeclareTransactionV2),
}

#[derive(Clone, Debug)]
pub enum InvokeTransaction {
    V0(InvokeTransactionV0),
    V1(InvokeTransactionV1),
}

#[derive(Clone, Debug)]
pub enum Transaction {
    Declare(DeclareTransaction),
    Deploy(DeployTransaction),
    DeployAccount(DeployAccountTransaction),
    Invoke(InvokeTransaction),
    L1Handler(L1HandlerTransaction),
}

impl Transaction {
    /// The hash that the transaction claims.
    pub open spec fn claimed_hash(&self) -> Seq<u8> {
        match self {
            Transaction::Declare(DeclareTransaction::V0(t)) => t.transaction_hash@,
            Transaction::Declare(DeclareTransaction::V1(t)) => t.transaction_hash@,
            Transaction::Declare(DeclareTransaction::V2(t)) => t.transaction_hash@,
            Transaction::Deploy(t) => t.transaction_hash@,
            Transaction::DeployAccount(t) => t.transaction_hash@,
            Transaction::Invoke(InvokeTransaction::V0(t)) => t.transaction_hash@,
            Transaction::Invoke(InvokeTransaction::V1(t)) => t.transaction_hash@,
            Transaction::L1Handler(t) => t.transaction_hash@,
        }
    }

    /// Every list that is hashed is short enough to be counted in 64 bits,
    /// with room for the two elements that precede a deploy-account's calldata.
    pub open spec fn lists_fit(&self) -> bool {
        match self {
            Transaction::Deploy(t) => t.constructor_calldata@.len() < u64::MAX,
            Transaction::DeployAccount(t) => t.constructor_calldata@.len() + 2 < u64::MAX,
            Transaction::Invoke(InvokeTransaction::V0(t)) => t.calldata@.len() < u64::MAX,
            Transaction::Invoke(InvokeTransaction::V1(t)) => t.calldata@.len() < u64::MAX,
            Transaction::L1Handler(t) => t.calldata@.len() < u64::MAX,
            _ => true,
        }
    }

    /// The hash that the transaction claims.
    pub fn hash(&self) -> (r: Felt)
        ensures
            r@ == self.claimed_hash(),
    {
        match self {
            Transaction::Declare(DeclareTransaction::V0(t)) => t.transaction_hash,
            Transaction::Declare(DeclareTransaction::V1(t)) => t.transaction_hash,
            Transaction::Declare(DeclareTransaction::V2(t)) => t.transaction_hash,
            Transaction::Deploy(t) => t.transaction_hash,
            Transaction::DeployAccount(t) => t.transaction_hash,
            Transaction::Invoke(InvokeTransaction::V0(t)) => t.transaction_hash,
            Transaction::Invoke(InvokeTransaction::V1(t)) => t.transaction_hash,
            Transaction::L1Handler(t) => t.transaction_hash,
        }
    }
}

} // verus!
