//! The state-update stages of synchronisation: the check of a state diff's
//! commitment, the check of the state root that applying it gives, the search
//! for the first block without a state update, and the batched reading of
//! per-block diff lengths and commitments.

use crate::felt::{felt_views, left_pad, poseidon_many, poseidon_many_of, zero_bytes, Felt};
use crate::transaction::BlockNumber;
use vstd::prelude::*;

verus! {

/// The commitment to one block's state diff.
#[derive(Clone, Copy, Debug, PartialEq)]
pub struct StateDiffCommitment(pub Felt);

/// The commitment to the whole state after a block.
#[derive(Clone, Copy, Debug, PartialEq)]
pub struct StateCommitment(pub Felt);

/// The root of the contract storage trie.
#[derive(Clone, Copy, Debug, PartialEq)]
pub struct StorageCommitment(pub Felt);

/// The root of the class trie.
#[derive(Clone, Copy, Debug, PartialEq)]
pub struct ClassCommitment(pub Felt);

/// "STARKNET_STATE_V0"
pub open spec fn global_state_version() -> Seq<u8> {
    seq![83u8, 84, 65, 82, 75, 78, 69, 84, 95, 83, 84, 65, 84, 69, 95, 86, 48]
}

/// The state commitment of two trie roots: the storage root alone where the
/// class root is zero, else the Poseidon hash of the version tag and both roots.
pub open spec fn state_commitment_of(storage: Seq<u8>, class: Seq<u8>) -> Seq<u8> {
    if class == zero_bytes() {
        storage
    } else {
        poseidon_many_of(seq![left_pad(global_state_version()), storage, class])
    }
}

impl StateCommitment {
    /// Combines the roots of the storage trie and of the class trie.
    pub fn calculate(
        storage_commitment: StorageCommitment,
        class_commitment: ClassCommitment,
    ) -> (r: StateCommitment)
        ensures
            r.0@ == state_commitment_of(storage_commitment.0@, class_commitment.0@),
    {
        if class_commitment.0 == Felt::zero() {
            StateCommitment(storage_commitment.0)
        } else {
            let tag: [u8; 17] = [
                83, 84, 65, 82, 75, 78, 69, 84, 95, 83, 84, 65, 84, 69, 95, 86, 48,
            ];
            assert(tag@ =~= global_state_version());
            let items = vec![
                Felt::from_short_string(&tag),
                storage_commitment.0,
                class_commitment.0,
            ];
            let r = poseidon_many(items.as_slice());
            assert(felt_views(items@) =~= seq![
                left_pad(global_state_version()),
                storage_commitment.0@,
                class_commitment.0@,
            ]);
            StateCommitment(r)
        }
    }
}

/// The class that a contract is deployed with or replaced by.
#[derive(Clone, Copy, Debug, PartialEq)]
pub enum ContractClassUpdate {
    Deploy(Felt),
    Replace(Felt),
}

/// What one block changes of one contract.
#[derive(Clone, Debug, PartialEq)]
pub struct ContractUpdate {
    pub address: Felt,
    pub storage: Vec<(Felt, Felt)>,
    pub class: Option<ContractClassUpdate>,
    pub nonce: Option<Felt>,
}

/// What one block changes of one system contract: its storage alone.
#[derive(Clone, Debug, PartialEq)]
pub struct SystemContractUpdate {
    pub address: Felt,
    pub storage: Vec<(Felt, Felt)>,
}

/// The state diff of one block.
#[derive(Clone, Debug, PartialEq)]
pub struct StateUpdateData {
    pub contract_updates: Vec<ContractUpdate>,
    pub system_contract_updates: Vec<SystemContractUpdate>,
    pub declared_cairo_classes: Vec<Felt>,
    /// Sierra class hashes, each with its compiled class hash.
    pub declared_sierra_classes: Vec<(Felt, Felt)>,
}

/// A state diff as a peer delivered it, with the commitment it claims.
#[derive(Clone, Debug, PartialEq)]
pub struct UnverifiedStateUpdateData {
    pub expected_commitment: StateDiffCommitment,
    pub state_diff: StateUpdateData,
}

/// A block header, as far as the state stages read it.
#[derive(Clone, Copy, Debug, PartialEq)]
pub struct BlockHeader {
    pub hash: Felt,
    pub parent_hash: Felt,
    pub number: BlockNumber,
    pub state_commitment: StateCommitment,
}

/// The full state update record of one block.
#[derive(Clone, Debug, PartialEq)]
pub struct StateUpdate {
    pub block_hash: Felt,
    pub parent_state_commitment: StateCommitment,
    pub state_commitment: StateCommitment,
    pub contract_updates: Vec<ContractUpdate>,
    pub system_contract_updates: Vec<SystemContractUpdate>,
    pub declared_cairo_classes: Vec<Felt>,
    pub declared_sierra_classes: Vec<(Felt, Felt)>,
}

/// Why a state-update stage refused its input.
#[derive(Clone, Copy, Debug, PartialEq)]
pub enum SyncError {
    /// The recomputed commitment of a state diff is not the claimed one.
    StateDiffCommitmentMismatch,
    /// The state commitment of the updated tries is not the header's.
    StateRootMismatch,
    /// No header of the block that the stage expects is at hand.
    BlockHeaderMissing { block: BlockNumber },
    /// The state commitment of the parent of `block` is not at hand.
    ParentStateCommitmentMissing { block: BlockNumber },
    /// The store returned no entries from `start` on, though the range asked
    /// for goes on.
    DataGap { start: BlockNumber, batch_size: u64 },
}

/// The stage that checks a state diff against the commitment it claims.
pub struct VerifyCommitment;

impl VerifyCommitment {
    /// Name of the stage, for diagnostics.
    pub fn name(&self) -> (r: &'static str)
        ensures
            r@ == "StateDiff::Verify"@,
    {
        "StateDiff::Verify"
    }

    /// Passes the diff of `input.0` on where `input.1`, the commitment
    /// recomputed from it under its protocol version, is the one it claims;
    /// else fails and forwards nothing.
    pub fn map(&mut self, input: (UnverifiedStateUpdateData, StateDiffCommitment)) -> (r: Result<
        StateUpdateData,
        SyncError,
    >)
        ensures
            input.1.0@ == input.0.expected_commitment.0@ ==> r == Ok::<
                StateUpdateData,
                SyncError,
            >(input.0.state_diff),
            input.1.0@ != input.0.expected_commitment.0@ ==> r == Err::<
                StateUpdateData,
                SyncError,
            >(SyncError::StateDiffCommitmentMismatch),
    {
        let (unverified, actual) = input;
        if actual.0 != unverified.expected_commitment.0 {
            return Err(SyncError::StateDiffCommitmentMismatch);
        }
        Ok(unverified.state_diff)
    }
}

/// The stage that applies verified state diffs block by block and checks the
/// resulting state root against each block's header. Its cursor is the next
/// block it expects.
///
/// One block goes: `prepare` with the header of the cursor's block and the
/// parent's state commitment; the tries updated with the record it returns
/// give their roots to `check_root`; once the record and the roots are
/// written and committed, `advance` moves the cursor on.
pub struct UpdateStarknetState {
    pub current_block: BlockNumber,
    pub verify_tree_hashes: bool,
}

/// The roots to persist for a block whose state root was confirmed.
#[derive(Clone, Copy, Debug, PartialEq)]
pub struct TrieCommitments {
    pub block: BlockNumber,
    pub storage_commitment: StorageCommitment,
    pub class_commitment: ClassCommitment,
    pub state_commitment: StateCommitment,
}

/// `prepare` accepts a header and parent commitment for the block at `cursor`:
/// the header is that block's, and, past genesis, the parent's commitment is known.
pub open spec fn prepare_accepts(
    cursor: u64,
    header: Option<BlockHeader>,
    parent_state_commitment: Option<StateCommitment>,
) -> bool {
    &&& header is Some
    &&& header->Some_0.number.0 == cursor
    &&& (cursor > 0 ==> parent_state_commitment is Some)
}

impl UpdateStarknetState {
    /// Name of the stage, for diagnostics.
    pub fn name(&self) -> (r: &'static str)
        ensures
            r@ == "StateDiff::UpdateStarknetState"@,
    {
        "StateDiff::UpdateStarknetState"
    }

    /// Assembles the full state update record of the cursor's block from its
    /// header, its parent's state commitment (zero at genesis) and its diff.
    pub fn prepare(
        &self,
        state_update: StateUpdateData,
        header: Option<BlockHeader>,
        parent_state_commitment: Option<StateCommitment>,
    ) -> (r: Result<StateUpdate, SyncError>)
        ensures
            r is Ok <==> prepare_accepts(
                self.current_block.0,
                header,
                parent_state_commitment,
            ),
            !(header is Some && header->Some_0.number == self.current_block) ==> r == Err::<
                StateUpdate,
                SyncError,
            >(SyncError::BlockHeaderMissing { block: self.current_block }),
            header is Some && header->Some_0.number == self.current_block
                && self.current_block.0 > 0 && parent_state_commitment is None ==> r == Err::<
                StateUpdate,
                SyncError,
            >(SyncError::ParentStateCommitmentMissing { block: self.current_block }),
            r is Ok ==> ({
                let u = r->Ok_0;
                let h = header->Some_0;
                &&& u.block_hash == h.hash
                &&& u.state_commitment == h.state_commitment
                &&& u.parent_state_commitment.0@ == (if self.current_block.0 == 0 {
                    zero_bytes()
                } else {
                    parent_state_commitment->Some_0.0@
                })
                &&& u.contract_updates == state_update.contract_updates
                &&& u.system_contract_updates == state_update.system_contract_updates
                &&& u.declared_cairo_classes == state_update.declared_cairo_classes
                &&& u.declared_sierra_classes == state_update.declared_sierra_classes
            }),
    {
        let header = match header {
            Some(h) if h.number.0 == self.current_block.0 => h,
            _ => {
                return Err(SyncError::BlockHeaderMissing { block: self.current_block });
            },
        };
        let parent_state_commitment = if self.current_block.0 == 0 {
            StateCommitment(Felt::zero())
        } else {
            match parent_state_commitment {
                Some(c) => c,
                None => {
                    return Err(
                        SyncError::ParentStateCommitmentMissing { block: self.current_block },
                    );
                },
            }
        };
        Ok(
            StateUpdate {
                block_hash: header.hash,
                parent_state_commitment,
                state_commitment: header.state_commitment,
                contract_updates: state_update.contract_updates,
                system_contract_updates: state_update.system_contract_updates,
                declared_cairo_classes: state_update.declared_cairo_classes,
                declared_sierra_classes: state_update.declared_sierra_classes,
            },
        )
    }

    /// Combines the roots of the updated tries and compares the result with
    /// the state commitment that `update` declares: the roots to persist where
    /// they agree, the root-mismatch error (and nothing to persist) where not.
    pub fn check_root(
        &self,
        update: &StateUpdate,
        storage_commitment: StorageCommitment,
        class_commitment: ClassCommitment,
    ) -> (r: Result<TrieCommitments, SyncError>)
        ensures
            r is Ok <==> state_commitment_of(storage_commitment.0@, class_commitment.0@)
                == update.state_commitment.0@,
            r is Err ==> r == Err::<TrieCommitments, SyncError>(SyncError::StateRootMismatch),
            r is Ok ==> r->Ok_0.block == self.current_block && r->Ok_0.storage_commitment
                == storage_commitment && r->Ok_0.class_commitment == class_commitment
                && r->Ok_0.state_commitment.0@ == update.state_commitment.0@,
    {
        let state_commitment = StateCommitment::calculate(storage_commitment, class_commitment);
        if state_commitment.0 != update.state_commitment.0 {
            return Err(SyncError::StateRootMismatch);
        }
        Ok(
            TrieCommitments {
                block: self.current_block,
                storage_commitment,
                class_commitment,
                state_commitment,
            },
        )
    }

    /// Moves the cursor past the block whose update was committed, and
    /// returns that block.
    pub fn advance(&mut self) -> (r: BlockNumber)
        requires
            old(self).current_block.0 < u64::MAX,
        ensures
            r == old(self).current_block,
            final(self).current_block.0 == old(self).current_block.0 + 1,
            final(self).verify_tree_hashes == old(self).verify_tree_hashes,
    {
        let tail = self.current_block;
        self.current_block = BlockNumber(tail.0 + 1);
        tail
    }
}

/// Once the stage has advanced past block `n`, the same block handed in
/// again is refused: its header is not that of the block the stage expects.
pub proof fn lemma_repeated_block_refused(
    before: UpdateStarknetState,
    after: UpdateStarknetState,
    header: BlockHeader,
    parent_state_commitment: Option<StateCommitment>,
)
    requires
        before.current_block.0 < u64::MAX,
        after.current_block.0 == before.current_block.0 + 1,
        header.number == before.current_block,
    ensures
        !prepare_accepts(after.current_block.0, Some(header), parent_state_commitment),
{
}

/// The first block without a state update: genesis where there is none and
/// `head` is past genesis, the block after the highest one with an update
/// where that is below `head`, and none otherwise.
pub fn next_missing(highest: Option<BlockNumber>, head: BlockNumber) -> (r: Option<BlockNumber>)
    ensures
        r == match highest {
            None => if head.0 != 0 {
                Some(BlockNumber(0))
            } else {
                None::<BlockNumber>
            },
            Some(h) => if h.0 < head.0 {
                Some(BlockNumber((h.0 + 1) as u64))
            } else {
                None::<BlockNumber>
            },
        },
{
    match highest {
        None => if head.0 != 0 {
            Some(BlockNumber(0))
        } else {
            None
        },
        Some(h) => if h.0 < head.0 {
            Some(BlockNumber(h.0 + 1))
        } else {
            None
        },
    }
}

/// The most blocks that one read from the store covers.
pub const BATCH_SIZE: u64 = 1000;

/// The per-block diff lengths and commitments of the blocks `start..=stop`, in
/// order, read from the store in batches of at most `BATCH_SIZE` blocks.
///
/// The reader asks `next_request` what to read next, hands what the store
/// returned to `feed`, and takes items from `next_item`. An empty batch while
/// blocks of the range remain is a gap in the data: the stream then fails and
/// ends.
pub struct CommitmentStream {
    /// The first block not yet read.
    next_fetch: u64,
    stop: u64,
    /// Items read but not yet taken, in block order; the first is block
    /// `next_fetch - pending.len()`.
    pending: Vec<(usize, StateDiffCommitment)>,
    failed: bool,
}

impl CommitmentStream {
    pub closed spec fn wf(&self) -> bool {
        &&& self.stop < u64::MAX
        &&& self.pending@.len() <= self.next_fetch
        &&& self.next_fetch <= self.stop + 1
        &&& self.failed ==> self.pending@.len() == 0
    }

    /// Items read and not yet taken.
    pub closed spec fn pending_items(&self) -> Seq<(usize, StateDiffCommitment)> {
        self.pending@
    }

    /// The block of the next item to be taken.
    pub closed spec fn front_block(&self) -> int {
        self.next_fetch - self.pending@.len()
    }

    /// The first block not yet read.
    pub closed spec fn read_up_to(&self) -> int {
        self.next_fetch as int
    }

    pub closed spec fn last_block(&self) -> int {
        self.stop as int
    }

    pub closed spec fn has_failed(&self) -> bool {
        self.failed
    }

    /// What the next read asks for: its first block and how many blocks.
    pub open spec fn request_spec(&self) -> Option<(u64, u64)> {
        if self.has_failed() || self.pending_items().len() > 0 || self.read_up_to()
            > self.last_block() {
            None
        } else {
            let left = self.last_block() - self.read_up_to() + 1;
            Some(
                (
                    self.read_up_to() as u64,
                    (if left < BATCH_SIZE {
                        left
                    } else {
                        BATCH_SIZE as int
                    }) as u64,
                ),
            )
        }
    }

    /// A stream over the blocks `start..=stop`; empty where `start > stop`.
    pub fn new(start: BlockNumber, stop: BlockNumber) -> (r: CommitmentStream)
        requires
            stop.0 < u64::MAX,
        ensures
            r.wf(),
            r.pending_items().len() == 0,
            r.read_up_to() == if start.0 <= stop.0 {
                start.0 as int
            } else {
                stop.0 + 1
            },
            r.last_block() == stop.0,
            !r.has_failed(),
    {
        let next_fetch = if start.0 <= stop.0 {
            start.0
        } else {
            stop.0 + 1
        };
        CommitmentStream { next_fetch, stop: stop.0, pending: Vec::new(), failed: false }
    }

    /// The read that the stream needs next, if any: where nothing is pending,
    /// blocks remain and no gap was met, the first unread block and the
    /// number of blocks to read, `BATCH_SIZE` or what remains if fewer.
    pub fn next_request(&self) -> (r: Option<(BlockNumber, u64)>)
        requires
            self.wf(),
        ensures
            match self.request_spec() {
                None => r is None,
                Some((s, n)) => r == Some((BlockNumber(s), n)),
            },
    {
        if self.failed || self.pending.len() > 0 || self.next_fetch > self.stop {
            return None;
        }
        let left = self.stop - self.next_fetch + 1;
        let n = if left < BATCH_SIZE {
            left
        } else {
            BATCH_SIZE
        };
        Some((BlockNumber(self.next_fetch), n))
    }

    /// Takes the store's answer to the pending request: the entries of the
    /// blocks from the request's first block on, of which at most the number
    /// asked for are kept. An empty answer is a gap: the stream fails.
    pub fn feed(&mut self, batch: Vec<(usize, StateDiffCommitment)>) -> (r: Result<(), SyncError>)
        requires
            old(self).wf(),
            old(self).request_spec() is Some,
        ensures
            final(self).wf(),
            final(self).last_block() == old(self).last_block(),
            ({
                let (s, n) = old(self).request_spec()->Some_0;
                if batch@.len() == 0 {
                    &&& r == Err::<(), SyncError>(
                        SyncError::DataGap { start: BlockNumber(s), batch_size: n },
                    )
                    &&& final(self).has_failed()
                    &&& final(self).request_spec() is None
                    &&& final(self).pending_items().len() == 0
                } else {
                    let kept = if batch@.len() < n {
                        batch@.len() as int
                    } else {
                        n as int
                    };
                    &&& r is Ok
                    &&& !final(self).has_failed()
                    &&& final(self).pending_items() == batch@.subrange(0, kept)
                    &&& final(self).read_up_to() == s + kept
                    &&& final(self).front_block() == s
                }
            }),
    {
        let start = self.next_fetch;
        let left = self.stop - self.next_fetch + 1;
        let n = if left < BATCH_SIZE {
            left
        } else {
            BATCH_SIZE
        };
        if batch.len() == 0 {
            self.failed = true;
            return Err(SyncError::DataGap { start: BlockNumber(start), batch_size: n });
        }
        let mut batch = batch;
        if batch.len() as u64 > n {
            batch.truncate(n as usize);
        }
        let kept = batch.len() as u64;
        self.pending = batch;
        self.next_fetch = start + kept;
        Ok(())
    }

    /// The next item, that of block `front_block()`, if one was read and not
    /// yet taken.
    pub fn next_item(&mut self) -> (r: Option<(usize, StateDiffCommitment)>)
        requires
            old(self).wf(),
        ensures
            final(self).wf(),
            final(self).last_block() == old(self).last_block(),
            final(self).read_up_to() == old(self).read_up_to(),
            final(self).has_failed() == old(self).has_failed(),
            old(self).pending_items().len() == 0 ==> r is None && final(self).pending_items()
                == old(self).pending_items(),
            old(self).pending_items().len() > 0 ==> r == Some(old(self).pending_items()[0])
                && final(self).pending_items() == old(self).pending_items().drop_first()
                && final(self).front_block() == old(self).front_block() + 1,
    {
        if self.pending.len() == 0 {
            return None;
        }
        let item = self.pending.remove(0);
        assert(self.pending@ =~= old(self).pending@.drop_first());
        Some(item)
    }

    /// The stream is over: nothing pending and nothing more to read, or a gap
    /// was met.
    pub fn is_finished(&self) -> (r: bool)
        requires
            self.wf(),
        ensures
            r == (self.pending_items().len() == 0 && self.request_spec() is None),
    {
        self.pending.len() == 0 && (self.failed || self.next_fetch > self.stop)
    }
}

} // verus!
