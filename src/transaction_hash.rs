//! Transaction hashes: the formula of each kind and version, the legacy
//! formula that old transactions fall back to, and verification of a claimed hash.

use crate::felt::{
    felt_views, is_felt_bytes, left_pad, lemma_short_fits, truncate_to_250_bits, u64_felt_bytes,
    zero_bytes, Felt,
};
use crate::hash_chain::{chain_hash, hash_of_list, HashChain};
use crate::transaction::{
    effective_chain_id, resolve_chain_id, BlockNumber, ChainId, DeclareTransaction,
    DeclareTransactionV0V1, DeclareTransactionV2, DeployAccountTransaction, DeployTransaction,
    EntryPointType, InvokeTransaction, InvokeTransactionV0, InvokeTransactionV1,
    L1HandlerTransaction, Transaction,
};
use vstd::prelude::*;

verus! {

/// The Keccak-256 digest of a byte string.
pub uninterp spec fn keccak256_of(data: Seq<u8>) -> Seq<u8>;

/// Relies on sha3::Keccak256: the 32-byte Keccak-256 digest of `data`, which
/// depends on `data` alone.
#[verifier::external_body]
fn keccak256(data: &[u8]) -> (r: [u8; 32])
    ensures
        r@ == keccak256_of(data@),
{
    <sha3::Keccak256 as sha3::Digest>::digest(data).into()
}

/// "declare"
pub open spec fn declare_prefix() -> Seq<u8> {
    seq![100u8, 101, 99, 108, 97, 114, 101]
}

/// "deploy"
pub open spec fn deploy_prefix() -> Seq<u8> {
    seq![100u8, 101, 112, 108, 111, 121]
}

/// "deploy_account"
pub open spec fn deploy_account_prefix() -> Seq<u8> {
    seq![100u8, 101, 112, 108, 111, 121, 95, 97, 99, 99, 111, 117, 110, 116]
}

/// "invoke"
pub open spec fn invoke_prefix() -> Seq<u8> {
    seq![105u8, 110, 118, 111, 107, 101]
}

/// "l1_handler"
pub open spec fn l1_handler_prefix() -> Seq<u8> {
    seq![108u8, 49, 95, 104, 97, 110, 100, 108, 101, 114]
}

/// "constructor"
pub open spec fn constructor_name() -> Seq<u8> {
    seq![99u8, 111, 110, 115, 116, 114, 117, 99, 116, 111, 114]
}

/// The selector of a constructor: the Starknet Keccak of "constructor".
pub open spec fn constructor_selector() -> Seq<u8> {
    truncate_to_250_bits(keccak256_of(constructor_name()))
}

/// The current formula: the chain over the prefix, the version, the address,
/// the selector, the list hash, the fee and the chain id, then `tail`.
pub open spec fn txn_hash_spec(
    prefix: Seq<u8>,
    version: Seq<u8>,
    address: Seq<u8>,
    selector: Seq<u8>,
    list_hash: Seq<u8>,
    fee: Seq<u8>,
    chain_id: Seq<u8>,
    tail: Seq<Seq<u8>>,
) -> Seq<u8> {
    chain_hash(seq![left_pad(prefix), version, address, selector, list_hash, fee, chain_id] + tail)
}

/// The legacy formula of old transactions: the chain over the prefix, the
/// address, the selector, the list hash and the chain id.
pub open spec fn legacy_hash_spec(
    prefix: Seq<u8>,
    address: Seq<u8>,
    selector: Seq<u8>,
    list_hash: Seq<u8>,
    chain_id: Seq<u8>,
) -> Seq<u8> {
    chain_hash(seq![left_pad(prefix), address, selector, list_hash, chain_id])
}

/// `primary` where it matches the claimed hash, else `legacy`.
pub open spec fn with_fallback(primary: Seq<u8>, claimed: Seq<u8>, legacy: Seq<u8>) -> Seq<u8> {
    if primary == claimed {
        primary
    } else {
        legacy
    }
}

/// An invoke of version 0 marked as calling an L1 handler: no known formula
/// gives its hash.
pub open spec fn is_unverifiable(txn: Transaction) -> bool {
    match txn {
        Transaction::Invoke(InvokeTransaction::V0(t)) => t.entry_point_type == Some(
            EntryPointType::L1Handler,
        ),
        _ => false,
    }
}

/// The primary formula of a deploy transaction.
pub open spec fn deploy_primary(t: DeployTransaction, chain_id: Seq<u8>) -> Seq<u8> {
    txn_hash_spec(
        deploy_prefix(),
        t.version@,
        t.contract_address@,
        constructor_selector(),
        chain_hash(felt_views(t.constructor_calldata@)),
        zero_bytes(),
        chain_id,
        seq![],
    )
}

/// The legacy formula of a deploy transaction.
pub open spec fn deploy_legacy(t: DeployTransaction, chain_id: Seq<u8>) -> Seq<u8> {
    legacy_hash_spec(
        deploy_prefix(),
        t.contract_address@,
        constructor_selector(),
        chain_hash(felt_views(t.constructor_calldata@)),
        chain_id,
    )
}

/// The primary formula of an invoke transaction of version 0.
pub open spec fn invoke_v0_primary(t: InvokeTransactionV0, chain_id: Seq<u8>) -> Seq<u8> {
    txn_hash_spec(
        invoke_prefix(),
        zero_bytes(),
        t.sender_address@,
        t.entry_point_selector@,
        chain_hash(felt_views(t.calldata@)),
        t.max_fee@,
        chain_id,
        seq![],
    )
}

/// The legacy formula of an invoke transaction of version 0.
pub open spec fn invoke_v0_legacy(t: InvokeTransactionV0, chain_id: Seq<u8>) -> Seq<u8> {
    legacy_hash_spec(
        invoke_prefix(),
        t.sender_address@,
        t.entry_point_selector@,
        chain_hash(felt_views(t.calldata@)),
        chain_id,
    )
}

/// The primary formula of an L1 handler transaction.
pub open spec fn l1_handler_primary(t: L1HandlerTransaction, chain_id: Seq<u8>) -> Seq<u8> {
    txn_hash_spec(
        l1_handler_prefix(),
        t.version@,
        t.contract_address@,
        t.entry_point_selector@,
        chain_hash(felt_views(t.calldata@)),
        zero_bytes(),
        chain_id,
        seq![t.nonce@],
    )
}

/// The legacy formula of an L1 handler transaction: the oldest ones were
/// invokes, and keep an invoke's prefix.
pub open spec fn l1_handler_legacy(t: L1HandlerTransaction, chain_id: Seq<u8>) -> Seq<u8> {
    legacy_hash_spec(
        invoke_prefix(),
        t.contract_address@,
        t.entry_point_selector@,
        chain_hash(felt_views(t.calldata@)),
        chain_id,
    )
}

/// The canonical hash of `txn` under `chain_id`, or `None` where no formula is known.
pub open spec fn transaction_hash_spec(txn: Transaction, chain_id: Seq<u8>) -> Option<Seq<u8>> {
    match txn {
        Transaction::Declare(DeclareTransaction::V0(t)) => Some(
            txn_hash_spec(
                declare_prefix(),
                zero_bytes(),
                t.sender_address@,
                zero_bytes(),
                chain_hash(seq![]),
                zero_bytes(),
                chain_id,
                seq![t.class_hash@],
            ),
        ),
        Transaction::Declare(DeclareTransaction::V1(t)) => Some(
            txn_hash_spec(
                declare_prefix(),
                u64_felt_bytes(1),
                t.sender_address@,
                zero_bytes(),
                chain_hash(seq![t.class_hash@]),
                t.max_fee@,
                chain_id,
                seq![t.nonce@],
            ),
        ),
        Transaction::Declare(DeclareTransaction::V2(t)) => Some(
            txn_hash_spec(
                declare_prefix(),
                u64_felt_bytes(2),
                t.sender_address@,
                zero_bytes(),
                chain_hash(seq![t.class_hash@]),
                t.max_fee@,
                chain_id,
                seq![t.nonce@, t.compiled_class_hash@],
            ),
        ),
        Transaction::Deploy(t) => Some(
            with_fallback(
                deploy_primary(t, chain_id),
                t.transaction_hash@,
                deploy_legacy(t, chain_id),
            ),
        ),
        Transaction::DeployAccount(t) => Some(
            txn_hash_spec(
                deploy_account_prefix(),
                t.version@,
                t.contract_address@,
                zero_bytes(),
                chain_hash(
                    seq![t.class_hash@, t.contract_address_salt@] + felt_views(
                        t.constructor_calldata@,
                    ),
                ),
                t.max_fee@,
                chain_id,
                seq![t.nonce@],
            ),
        ),
        Transaction::Invoke(InvokeTransaction::V0(t)) => if t.entry_point_type == Some(
            EntryPointType::L1Handler,
        ) {
            None
        } else {
            Some(
                with_fallback(
                    invoke_v0_primary(t, chain_id),
                    t.transaction_hash@,
                    invoke_v0_legacy(t, chain_id),
                ),
            )
        },
        Transaction::Invoke(InvokeTransaction::V1(t)) => Some(
            txn_hash_spec(
                invoke_prefix(),
                u64_felt_bytes(1),
                t.sender_address@,
                zero_bytes(),
                chain_hash(felt_views(t.calldata@)),
                t.max_fee@,
                chain_id,
                seq![t.nonce@],
            ),
        ),
        Transaction::L1Handler(t) => Some(
            with_fallback(
                l1_handler_primary(t, chain_id),
                t.transaction_hash@,
                l1_handler_legacy(t, chain_id),
            ),
        ),
    }
}

/// The outcome of hashing a transaction, by kind.
#[derive(Clone, Copy, Debug, PartialEq)]
pub enum ComputedTransactionHash {
    DeclareV0(Felt),
    DeclareV1(Felt),
    DeclareV2(Felt),
    Deploy(Felt),
    DeployAccount(Felt),
    InvokeV0(Option<Felt>),
    InvokeV1(Felt),
    L1Handler(Felt),
}

impl ComputedTransactionHash {
    /// The computed hash, or `None` where none could be computed.
    pub open spec fn spec_hash(&self) -> Option<Seq<u8>> {
        match self {
            ComputedTransactionHash::DeclareV0(h) => Some(h@),
            ComputedTransactionHash::DeclareV1(h) => Some(h@),
            ComputedTransactionHash::DeclareV2(h) => Some(h@),
            ComputedTransactionHash::Deploy(h) => Some(h@),
            ComputedTransactionHash::DeployAccount(h) => Some(h@),
            ComputedTransactionHash::InvokeV0(h) => match h {
                Some(x) => Some(x@),
                None => None,
            },
            ComputedTransactionHash::InvokeV1(h) => Some(h@),
            ComputedTransactionHash::L1Handler(h) => Some(h@),
        }
    }

    /// The variant is the one of the transaction's kind and version.
    pub open spec fn mirrors(&self, txn: Transaction) -> bool {
        match (self, txn) {
            (
                ComputedTransactionHash::DeclareV0(_),
                Transaction::Declare(DeclareTransaction::V0(_)),
            ) => true,
            (
                ComputedTransactionHash::DeclareV1(_),
                Transaction::Declare(DeclareTransaction::V1(_)),
            ) => true,
            (
                ComputedTransactionHash::DeclareV2(_),
                Transaction::Declare(DeclareTransaction::V2(_)),
            ) => true,
            (ComputedTransactionHash::Deploy(_), Transaction::Deploy(_)) => true,
            (ComputedTransactionHash::DeployAccount(_), Transaction::DeployAccount(_)) => true,
            (
                ComputedTransactionHash::InvokeV0(_),
                Transaction::Invoke(InvokeTransaction::V0(_)),
            ) => true,
            (
                ComputedTransactionHash::InvokeV1(_),
                Transaction::Invoke(InvokeTransaction::V1(_)),
            ) => true,
            (ComputedTransactionHash::L1Handler(_), Transaction::L1Handler(_)) => true,
            _ => false,
        }
    }

    /// The computed hash, or `None` where none could be computed.
    pub fn hash(&self) -> (r: Option<Felt>)
        ensures
            r is None <==> self.spec_hash() is None,
            r is Some ==> self.spec_hash() == Some(r->Some_0@),
    {
        match self {
            ComputedTransactionHash::DeclareV0(h) => Some(*h),
            ComputedTransactionHash::DeclareV1(h) => Some(*h),
            ComputedTransactionHash::DeclareV2(h) => Some(*h),
            ComputedTransactionHash::Deploy(h) => Some(*h),
            ComputedTransactionHash::DeployAccount(h) => Some(*h),
            ComputedTransactionHash::InvokeV0(h) => *h,
            ComputedTransactionHash::InvokeV1(h) => Some(*h),
            ComputedTransactionHash::L1Handler(h) => Some(*h),
        }
    }
}

/// What follows the chain id in the current formula.
enum NonceOrClassHash {
    Nonce(Felt),
    ClassHash(Felt),
    Absent,
}

spec fn trailing(t: NonceOrClassHash, compiled_class_hash: Option<Felt>) -> Seq<Seq<u8>> {
    let first = match t {
        NonceOrClassHash::Nonce(n) => seq![n@],
        NonceOrClassHash::ClassHash(c) => seq![c@],
        NonceOrClassHash::Absent => Seq::empty(),
    };
    match compiled_class_hash {
        Some(c) => first.push(c@),
        None => first,
    }
}

spec fn or_zero(f: Option<Felt>) -> Seq<u8> {
    match f {
        Some(x) => x@,
        None => zero_bytes(),
    }
}

fn felt_or_zero(f: Option<Felt>) -> (r: Felt)
    ensures
        r@ == or_zero(f),
{
    match f {
        Some(x) => x,
        None => Felt::zero(),
    }
}

/// The field element of a prefix of at most 32 bytes that fits the field.
fn prefix_felt(prefix: &[u8]) -> (r: Felt)
    requires
        prefix@.len() <= 32,
        is_felt_bytes(left_pad(prefix@)),
    ensures
        r@ == left_pad(prefix@),
{
    match Felt::from_be_slice(prefix) {
        Ok(f) => f,
        Err(_) => Felt::zero(),
    }
}

/// The legacy formula of transactions from before version 0.8.
fn legacy_compute_txn_hash(
    prefix: &[u8],
    address: Felt,
    entry_point_selector: Option<Felt>,
    list_hash: Felt,
    chain_id: ChainId,
) -> (r: Felt)
    requires
        prefix@.len() <= 32,
        is_felt_bytes(left_pad(prefix@)),
    ensures
        r@ == legacy_hash_spec(
            prefix@,
            address@,
            or_zero(entry_point_selector),
            list_hash@,
            chain_id.0@,
        ),
{
    let mut h = HashChain::new();
    h.update(prefix_felt(prefix));
    h.update(address);
    h.update(felt_or_zero(entry_point_selector));
    h.update(list_hash);
    h.update(chain_id.0);
    let r = h.finalize();
    assert(h@ =~= seq![
        left_pad(prefix@),
        address@,
        or_zero(entry_point_selector),
        list_hash@,
        chain_id.0@,
    ]);
    r
}

/// The current formula, common to all kinds.
fn compute_txn_hash(
    prefix: &[u8],
    version: Felt,
    address: Felt,
    entry_point_selector: Option<Felt>,
    list_hash: Felt,
    max_fee: Option<Felt>,
    chain_id: ChainId,
    nonce_or_class_hash: NonceOrClassHash,
    compiled_class_hash: Option<Felt>,
) -> (r: Felt)
    requires
        prefix@.len() <= 32,
        is_felt_bytes(left_pad(prefix@)),
    ensures
        r@ == txn_hash_spec(
            prefix@,
            version@,
            address@,
            or_zero(entry_point_selector),
            list_hash@,
            or_zero(max_fee),
            chain_id.0@,
            trailing(nonce_or_class_hash, compiled_class_hash),
        ),
{
    let mut h = HashChain::new();
    h.update(prefix_felt(prefix));
    h.update(version);
    h.update(address);
    h.update(felt_or_zero(entry_point_selector));
    h.update(list_hash);
    h.update(felt_or_zero(max_fee));
    h.update(chain_id.0);
    match nonce_or_class_hash {
        NonceOrClassHash::Nonce(n) => h.update(n),
        NonceOrClassHash::ClassHash(c) => h.update(c),
        NonceOrClassHash::Absent => {},
    }
    match compiled_class_hash {
        Some(c) => h.update(c),
        None => {},
    }
    let r = h.finalize();
    assert(h@ =~= seq![
        left_pad(prefix@),
        version@,
        address@,
        or_zero(entry_point_selector),
        list_hash@,
        or_zero(max_fee),
        chain_id.0@,
    ] + trailing(nonce_or_class_hash, compiled_class_hash));
    r
}

/// The selector of a constructor: Keccak-256 of "constructor", truncated to
/// 250 bits.
pub fn constructor_entry_point() -> (r: Felt)
    ensures
        r@ == constructor_selector(),
{
    let name: [u8; 11] = [99, 111, 110, 115, 116, 114, 117, 99, 116, 111, 114];
    assert(name@ =~= constructor_name());
    Felt::truncated(keccak256(&name))
}

fn declare_prefix_bytes() -> (r: [u8; 7])
    ensures
        r@ == declare_prefix(),
{
    let r: [u8; 7] = [100, 101, 99, 108, 97, 114, 101];
    assert(r@ =~= declare_prefix());
    r
}

fn invoke_prefix_bytes() -> (r: [u8; 6])
    ensures
        r@ == invoke_prefix(),
{
    let r: [u8; 6] = [105, 110, 118, 111, 107, 101];
    assert(r@ =~= invoke_prefix());
    r
}

pub fn compute_declare_v0_hash(txn: &DeclareTransactionV0V1, chain_id: ChainId) -> (r:
    ComputedTransactionHash)
    ensures
        r.mirrors(Transaction::Declare(DeclareTransaction::V0(*txn))),
        r.spec_hash() == transaction_hash_spec(
            Transaction::Declare(DeclareTransaction::V0(*txn)),
            chain_id.0@,
        ),
{
    let prefix = declare_prefix_bytes();
    proof {
        lemma_short_fits(prefix@);
    }
    let empty = HashChain::new();
    let list_hash = empty.finalize();
    let h = compute_txn_hash(
        &prefix,
        Felt::zero(),
        txn.sender_address,
        None,
        list_hash,
        None,
        chain_id,
        NonceOrClassHash::ClassHash(txn.class_hash),
        None,
    );
    ComputedTransactionHash::DeclareV0(h)
}

pub fn compute_declare_v1_hash(txn: &DeclareTransactionV0V1, chain_id: ChainId) -> (r:
    ComputedTransactionHash)
    ensures
        r.mirrors(Transaction::Declare(DeclareTransaction::V1(*txn))),
        r.spec_hash() == transaction_hash_spec(
            Transaction::Declare(DeclareTransaction::V1(*txn)),
            chain_id.0@,
        ),
{
    let prefix = declare_prefix_bytes();
    proof {
        lemma_short_fits(prefix@);
    }
    let mut classes = HashChain::new();
    classes.update(txn.class_hash);
    assert(classes@ =~= seq![txn.class_hash@]);
    let h = compute_txn_hash(
        &prefix,
        Felt::from_u64(1),
        txn.sender_address,
        None,
        classes.finalize(),
        Some(txn.max_fee),
        chain_id,
        NonceOrClassHash::Nonce(txn.nonce),
        None,
    );
    ComputedTransactionHash::DeclareV1(h)
}

pub fn compute_declare_v2_hash(txn: &DeclareTransactionV2, chain_id: ChainId) -> (r:
    ComputedTransactionHash)
    ensures
        r.mirrors(Transaction::Declare(DeclareTransaction::V2(*txn))),
        r.spec_hash() == transaction_hash_spec(
            Transaction::Declare(DeclareTransaction::V2(*txn)),
            chain_id.0@,
        ),
{
    let prefix = declare_prefix_bytes();
    proof {
        lemma_short_fits(prefix@);
    }
    let mut classes = HashChain::new();
    classes.update(txn.class_hash);
    assert(classes@ =~= seq![txn.class_hash@]);
    let h = compute_txn_hash(
        &prefix,
        Felt::from_u64(2),
        txn.sender_address,
        None,
        classes.finalize(),
        Some(txn.max_fee),
        chain_id,
        NonceOrClassHash::Nonce(txn.nonce),
        Some(txn.compiled_class_hash),
    );
    assert(trailing(NonceOrClassHash::Nonce(txn.nonce), Some(txn.compiled_class_hash))
        =~= seq![txn.nonce@, txn.compiled_class_hash@]);
    ComputedTransactionHash::DeclareV2(h)
}

/// Deploy: the current formula, or the legacy one where the current one does
/// not give the claimed hash.
pub fn compute_deploy_hash(txn: &DeployTransaction, chain_id: ChainId) -> (r: ComputedTransactionHash)
    requires
        txn.constructor_calldata@.len() < u64::MAX,
    ensures
        r.mirrors(Transaction::Deploy(*txn)),
        r.spec_hash() == transaction_hash_spec(Transaction::Deploy(*txn), chain_id.0@),
{
    let prefix: [u8; 6] = [100, 101, 112, 108, 111, 121];
    assert(prefix@ =~= deploy_prefix());
    proof {
        lemma_short_fits(prefix@);
    }
    let constructor = constructor_entry_point();
    let constructor_params_hash = hash_of_list(txn.constructor_calldata.as_slice());
    let h = compute_txn_hash(
        &prefix,
        txn.version,
        txn.contract_address,
        Some(constructor),
        constructor_params_hash,
        None,
        chain_id,
        NonceOrClassHash::Absent,
        None,
    );
    assert(trailing(NonceOrClassHash::Absent, None) =~= seq![]);
    let h = if h == txn.transaction_hash {
        h
    } else {
        legacy_compute_txn_hash(
            &prefix,
            txn.contract_address,
            Some(constructor),
            constructor_params_hash,
            chain_id,
        )
    };
    ComputedTransactionHash::Deploy(h)
}

pub fn compute_deploy_account_hash(txn: &DeployAccountTransaction, chain_id: ChainId) -> (r:
    ComputedTransactionHash)
    requires
        txn.constructor_calldata@.len() + 2 < u64::MAX,
    ensures
        r.mirrors(Transaction::DeployAccount(*txn)),
        r.spec_hash() == transaction_hash_spec(Transaction::DeployAccount(*txn), chain_id.0@),
{
    let prefix: [u8; 14] = [100, 101, 112, 108, 111, 121, 95, 97, 99, 99, 111, 117, 110, 116];
    assert(prefix@ =~= deploy_account_prefix());
    proof {
        lemma_short_fits(prefix@);
    }
    let mut hh = HashChain::new();
    hh.update(txn.class_hash);
    hh.update(txn.contract_address_salt);
    hh.update_all(txn.constructor_calldata.as_slice());
    assert(hh@ =~= seq![txn.class_hash@, txn.contract_address_salt@] + felt_views(
        txn.constructor_calldata@,
    ));
    let h = compute_txn_hash(
        &prefix,
        txn.version,
        txn.contract_address,
        None,
        hh.finalize(),
        Some(txn.max_fee),
        chain_id,
        NonceOrClassHash::Nonce(txn.nonce),
        None,
    );
    ComputedTransactionHash::DeployAccount(h)
}

/// Invoke of version 0: none where it is marked as calling an L1 handler, else
/// the current formula, or the legacy one where the current one does not give
/// the claimed hash.
pub fn compute_invoke_v0_hash(txn: &InvokeTransactionV0, chain_id: ChainId) -> (r:
    ComputedTransactionHash)
    requires
        txn.calldata@.len() < u64::MAX,
    ensures
        r.mirrors(Transaction::Invoke(InvokeTransaction::V0(*txn))),
        r.spec_hash() == transaction_hash_spec(
            Transaction::Invoke(InvokeTransaction::V0(*txn)),
            chain_id.0@,
        ),
{
    match txn.entry_point_type {
        Some(EntryPointType::L1Handler) => {
            return ComputedTransactionHash::InvokeV0(None);
        },
        _ => {},
    }
    let prefix = invoke_prefix_bytes();
    proof {
        lemma_short_fits(prefix@);
    }
    let call_params_hash = hash_of_list(txn.calldata.as_slice());
    let h = compute_txn_hash(
        &prefix,
        Felt::zero(),
        txn.sender_address,
        Some(txn.entry_point_selector),
        call_params_hash,
        Some(txn.max_fee),
        chain_id,
        NonceOrClassHash::Absent,
        None,
    );
    assert(trailing(NonceOrClassHash::Absent, None) =~= seq![]);
    let h = if h == txn.transaction_hash {
        h
    } else {
        legacy_compute_txn_hash(
            &prefix,
            txn.sender_address,
            Some(txn.entry_point_selector),
            call_params_hash,
            chain_id,
        )
    };
    ComputedTransactionHash::InvokeV0(Some(h))
}

pub fn compute_invoke_v1_hash(txn: &InvokeTransactionV1, chain_id: ChainId) -> (r:
    ComputedTransactionHash)
    requires
        txn.calldata@.len() < u64::MAX,
    ensures
        r.mirrors(Transaction::Invoke(InvokeTransaction::V1(*txn))),
        r.spec_hash() == transaction_hash_spec(
            Transaction::Invoke(InvokeTransaction::V1(*txn)),
            chain_id.0@,
        ),
{
    let prefix = invoke_prefix_bytes();
    proof {
        lemma_short_fits(prefix@);
    }
    let h = compute_txn_hash(
        &prefix,
        Felt::from_u64(1),
        txn.sender_address,
        None,
        hash_of_list(txn.calldata.as_slice()),
        Some(txn.max_fee),
        chain_id,
        NonceOrClassHash::Nonce(txn.nonce),
        None,
    );
    ComputedTransactionHash::InvokeV1(h)
}

/// L1 handler: the current formula, or the legacy one, with an invoke's
/// prefix, where the current one does not give the claimed hash.
pub fn compute_l1_handler_hash(txn: &L1HandlerTransaction, chain_id: ChainId) -> (r:
    ComputedTransactionHash)
    requires
        txn.calldata@.len() < u64::MAX,
    ensures
        r.mirrors(Transaction::L1Handler(*txn)),
        r.spec_hash() == transaction_hash_spec(Transaction::L1Handler(*txn), chain_id.0@),
{
    let prefix: [u8; 10] = [108, 49, 95, 104, 97, 110, 100, 108, 101, 114];
    assert(prefix@ =~= l1_handler_prefix());
    proof {
        lemma_short_fits(prefix@);
    }
    let call_params_hash = hash_of_list(txn.calldata.as_slice());
    let h = compute_txn_hash(
        &prefix,
        txn.version,
        txn.contract_address,
        Some(txn.entry_point_selector),
        call_params_hash,
        None,
        chain_id,
        NonceOrClassHash::Nonce(txn.nonce),
        None,
    );
    let h = if h == txn.transaction_hash {
        h
    } else {
        let legacy_prefix = invoke_prefix_bytes();
        proof {
            lemma_short_fits(legacy_prefix@);
        }
        legacy_compute_txn_hash(
            &legacy_prefix,
            txn.contract_address,
            Some(txn.entry_point_selector),
            call_params_hash,
            chain_id,
        )
    };
    ComputedTransactionHash::L1Handler(h)
}

/// Computes the canonical hash of `txn` under `chain_id`, by the formula of its
/// kind and version. For invoke of version 0, deploy and L1 handler, the legacy
/// formula is used where the current one does not give the claimed hash.
pub fn compute_transaction_hash(txn: &Transaction, chain_id: ChainId) -> (r:
    ComputedTransactionHash)
    requires
        txn.lists_fit(),
    ensures
        r.mirrors(*txn),
        r.spec_hash() == transaction_hash_spec(*txn, chain_id.0@),
{
    match txn {
        Transaction::Declare(DeclareTransaction::V0(t)) => compute_declare_v0_hash(t, chain_id),
        Transaction::Declare(DeclareTransaction::V1(t)) => compute_declare_v1_hash(t, chain_id),
        Transaction::Declare(DeclareTransaction::V2(t)) => compute_declare_v2_hash(t, chain_id),
        Transaction::Deploy(t) => compute_deploy_hash(t, chain_id),
        Transaction::DeployAccount(t) => compute_deploy_account_hash(t, chain_id),
        Transaction::Invoke(InvokeTransaction::V0(t)) => compute_invoke_v0_hash(t, chain_id),
        Transaction::Invoke(InvokeTransaction::V1(t)) => compute_invoke_v1_hash(t, chain_id),
        Transaction::L1Handler(t) => compute_l1_handler_hash(t, chain_id),
    }
}

/// A claimed transaction hash that verification refutes.
#[derive(Clone, Copy, Debug, PartialEq)]
pub enum VerifyError {
    /// The computed hash differs from the claimed one.
    HashMismatch { expected: Felt, computed: Felt },
    /// The computed hash of the transaction at `txn_idx` of `block_number`
    /// stands against the claimed one.
    IndexedHashMismatch {
        block_number: BlockNumber,
        txn_idx: usize,
        expected: Felt,
        computed: Felt,
    },
}

/// The hash that verification computes for `txn` of `block` on chain `chain`.
pub open spec fn verified_hash(txn: Transaction, chain: Seq<u8>, block: u64) -> Option<Seq<u8>> {
    transaction_hash_spec(txn, effective_chain_id(chain, block))
}

/// Checks the claimed hash of `txn`, a transaction of `block_number` on chain
/// `chain_id`. `Ok(true)`: no formula is known, the check is skipped.
/// `Ok(false)`: the computed hash is the claimed one. An error: it is not.
pub fn verify(txn: &Transaction, chain_id: ChainId, block_number: BlockNumber) -> (r: Result<
    bool,
    VerifyError,
>)
    requires
        txn.lists_fit(),
    ensures
        match verified_hash(*txn, chain_id.0@, block_number.0) {
            None => r == Ok::<bool, VerifyError>(true),
            Some(h) => if h == txn.claimed_hash() {
                r == Ok::<bool, VerifyError>(false)
            } else {
                match r {
                    Err(VerifyError::HashMismatch { expected, computed }) => expected@
                        == txn.claimed_hash() && computed@ == h,
                    _ => false,
                }
            },
        },
{
    let chain_id = resolve_chain_id(chain_id, block_number);
    let computed = compute_transaction_hash(txn, chain_id);
    match computed.hash() {
        Some(h) => {
            let claimed = txn.hash();
            if h == claimed {
                Ok(false)
            } else {
                Err(VerifyError::HashMismatch { expected: claimed, computed: h })
            }
        },
        None => Ok(true),
    }
}

/// The check of `verify` with its verdict on a computed hash turned round:
/// the error where the computed hash is the claimed one, `Ok(false)` where it
/// is not; `Ok(true)` where no formula is known. The error names the block and
/// the transaction's index in it.
pub fn verify2(
    txn: &Transaction,
    chain_id: ChainId,
    block_number: BlockNumber,
    txn_idx: usize,
) -> (r: Result<bool, VerifyError>)
    requires
        txn.lists_fit(),
    ensures
        match verified_hash(*txn, chain_id.0@, block_number.0) {
            None => r == Ok::<bool, VerifyError>(true),
            Some(h) => if h != txn.claimed_hash() {
                r == Ok::<bool, VerifyError>(false)
            } else {
                match r {
                    Err(
                        VerifyError::IndexedHashMismatch {
                            block_number: b,
                            txn_idx: i,
                            expected,
                            computed,
                        },
                    ) => b == block_number && i == txn_idx && expected@ == txn.claimed_hash()
                        && computed@ == h,
                    _ => false,
                }
            },
        },
{
    let chain_id = resolve_chain_id(chain_id, block_number);
    let computed = compute_transaction_hash(txn, chain_id);
    match computed.hash() {
        Some(h) => {
            let claimed = txn.hash();
            if h == claimed {
                Err(
                    VerifyError::IndexedHashMismatch {
                        block_number,
                        txn_idx,
                        expected: claimed,
                        computed: h,
                    },
                )
            } else {
                Ok(false)
            }
        },
        None => Ok(true),
    }
}

/// Verification is skipped, with no verdict, exactly for invoke transactions
/// of version 0 that are marked as calling an L1 handler.
pub proof fn lemma_skip_iff_unverifiable(txn: Transaction, chain: Seq<u8>, block: u64)
    ensures
        verified_hash(txn, chain, block) is None <==> is_unverifiable(txn),
{
}

/// Where the current formula does not give the claimed hash of a deploy, an
/// invoke of version 0 or an L1 handler, the legacy formula decides the hash;
/// a claimed hash that only the legacy formula gives is then confirmed.
pub proof fn lemma_legacy_fallback(txn: Transaction, chain: Seq<u8>)
    ensures
        match txn {
            Transaction::Deploy(t) => {
                &&& deploy_primary(t, chain) != t.transaction_hash@ ==> transaction_hash_spec(
                    txn,
                    chain,
                ) == Some(deploy_legacy(t, chain))
                &&& deploy_legacy(t, chain) == t.transaction_hash@ ==> transaction_hash_spec(
                    txn,
                    chain,
                ) == Some(t.transaction_hash@)
            },
            Transaction::Invoke(InvokeTransaction::V0(t)) => t.entry_point_type != Some(
                EntryPointType::L1Handler,
            ) ==> {
                &&& invoke_v0_primary(t, chain) != t.transaction_hash@ ==> transaction_hash_spec(
                    txn,
                    chain,
                ) == Some(invoke_v0_legacy(t, chain))
                &&& invoke_v0_legacy(t, chain) == t.transaction_hash@ ==> transaction_hash_spec(
                    txn,
                    chain,
                ) == Some(t.transaction_hash@)
            },
            Transaction::L1Handler(t) => {
                &&& l1_handler_primary(t, chain) != t.transaction_hash@ ==> transaction_hash_spec(
                    txn,
                    chain,
                ) == Some(l1_handler_legacy(t, chain))
                &&& l1_handler_legacy(t, chain) == t.transaction_hash@ ==> transaction_hash_spec(
                    txn,
                    chain,
                ) == Some(t.transaction_hash@)
            },
            _ => true,
        },
{
}

} // verus!
