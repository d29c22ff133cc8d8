//! The plain values that a wallet session is made of.

use vstd::prelude::*;

use crate::keys::{bytes_equal, PublicKey};

verus! {

/// A hash of 256 bits: it names a message or a transaction.
#[derive(Clone, Copy, Debug, PartialEq, Eq)]
pub struct UInt256 {
    pub bytes: [u8; 32],
}

impl UInt256 {
    /// Whether two hashes are the same.
    pub fn same_as(&self, other: &UInt256) -> (same: bool)
        ensures
            same == (*self == *other),
    {
        bytes_equal(&self.bytes, &other.bytes)
    }
}

/// A pointer to one transaction of an account.
#[derive(Clone, Copy, Debug, PartialEq, Eq)]
pub struct TransactionId {
    /// The logical time of the transaction.
    pub lt: u64,
    /// The hash of the transaction.
    pub hash: UInt256,
}

impl TransactionId {
    /// Whether two pointers are the same.
    pub fn same_as(&self, other: &TransactionId) -> (same: bool)
        ensures
            same == (*self == *other),
    {
        self.lt == other.lt && self.hash.same_as(&other.hash)
    }
}

/// A snapshot of an account: what the chain said of it at one moment.
#[derive(Clone, Copy, Debug, PartialEq, Eq)]
pub struct ContractState {
    /// The balance, in the smallest unit.
    pub balance: u64,
    /// Whether the account's contract is deployed.
    pub is_deployed: bool,
    /// The last transaction of the account, if it has had one.
    pub last_transaction_id: Option<TransactionId>,
}

impl ContractState {
    /// Whether two snapshots say the same.
    pub fn same_as(&self, other: &ContractState) -> (same: bool)
        ensures
            same == (*self == *other),
    {
        if self.balance != other.balance || self.is_deployed != other.is_deployed {
            return false;
        }
        match (self.last_transaction_id, other.last_transaction_id) {
            (None, None) => true,
            (Some(a), Some(b)) => a.same_as(&b),
            _ => false,
        }
    }
}

/// A message that this session submitted and that the chain has neither
/// confirmed nor outlived yet.
#[derive(Clone, Copy, Debug, PartialEq, Eq)]
pub struct PendingTransaction {
    /// The hash of the submitted message; it is the key of the entry.
    pub message_hash: UInt256,
    /// The time, in seconds, from which the chain refuses the message.
    pub expire_at: u32,
}

/// A multisig proposal that waits for further confirmations of custodians.
#[derive(Clone, Copy, Debug, PartialEq, Eq, Structural)]
pub struct UnconfirmedTransaction {
    /// The number that the contract gave the proposal; it is the key of
    /// the entry.
    pub id: u64,
    /// How many custodians have signed.
    pub signs_received: u8,
    /// How many custodians must sign.
    pub signs_required: u8,
}

/// The kinds of multisig contract.
#[derive(Clone, Copy, Debug, PartialEq, Eq, Structural)]
pub enum MultisigType {
    SafeMultisigWallet,
    SafeMultisigWallet24h,
    SetcodeMultisigWallet,
    SetcodeMultisigWallet24h,
    BridgeMultisigWallet,
    SurfWallet,
    Multisig2,
}

/// The kinds of wallet contract.
#[derive(Clone, Copy, Debug, PartialEq, Eq, Structural)]
pub enum WalletType {
    Multisig(MultisigType),
    WalletV3,
    HighloadWalletV2,
    EverWallet,
}

impl WalletType {
    /// Whether the kind has custodians.
    pub open spec fn is_multisig(self) -> bool {
        self is Multisig
    }

    /// Whether the kind has custodians.
    #[verifier::when_used_as_spec(is_multisig)]
    pub fn multisig(self) -> (b: bool)
        ensures
            b == self.is_multisig(),
    {
        match self {
            WalletType::Multisig(_) => true,
            _ => false,
        }
    }
}

/// What a wallet contract of some kind can do. The subscription reports
/// it, and the session hands it on as it is.
#[derive(Clone, Copy, Debug, PartialEq, Eq, Structural)]
pub struct TonWalletDetails {
    pub requires_separate_deploy: bool,
    pub min_amount: u64,
    pub supports_payload: bool,
    pub supports_multiple_owners: bool,
    pub expiration_time: u32,
}

/// How the owner of a session should poll the chain for this wallet.
#[derive(Clone, Copy, Debug, PartialEq, Eq, Structural)]
pub enum PollingMethod {
    /// Nothing is in flight: poll at leisure.
    Manual,
    /// Messages are in flight: poll until they are settled.
    Reliable,
}

/// The expiration policy of a message that is being prepared.
#[derive(Clone, Copy, Debug, PartialEq, Eq, Structural)]
pub enum Expiration {
    /// The message does not expire.
    Never,
    /// The message expires this many seconds after it is made or its
    /// timeout is refreshed.
    Timeout(u32),
    /// The message expires at this time, in seconds.
    Timestamp(u32),
}

/// A wallet that was found on the chain for some public key.
#[derive(Debug)]
pub struct ExistingWalletInfo {
    pub address: String,
    pub public_key: PublicKey,
    pub wallet_type: WalletType,
    pub contract_state: ContractState,
}

/// What one confirmed message did: the chain has executed the message with
/// this hash, and with it a multisig proposal may have reached the number
/// of confirmations it needs.
#[derive(Clone, Copy, Debug, PartialEq, Eq)]
pub struct Confirmation {
    /// The hash of the message that the chain executed.
    pub message_hash: UInt256,
    /// The proposal that is fully confirmed with this message, if any.
    pub completes: Option<u64>,
}

/// What one block says of one account.
#[derive(Debug)]
pub struct BlockRecord {
    /// The time of the block, in seconds.
    pub time: u32,
    /// The snapshot of the account after the block, if the block touched
    /// the account.
    pub contract_state: Option<ContractState>,
    /// The messages to the account that the block executed.
    pub confirmations: Vec<Confirmation>,
}

/// The mathematical value of a [`BlockRecord`].
pub struct BlockRecordView {
    pub time: u32,
    pub contract_state: Option<ContractState>,
    pub confirmations: Seq<Confirmation>,
}

impl View for BlockRecord {
    type V = BlockRecordView;

    open spec fn view(&self) -> BlockRecordView {
        BlockRecordView {
            time: self.time,
            contract_state: self.contract_state,
            confirmations: self.confirmations@,
        }
    }
}

impl BlockRecordView {
    /// Whether the block executed the message with this hash.
    pub open spec fn confirms(self, hash: UInt256) -> bool {
        exists|i: int|
            0 <= i < self.confirmations.len() && (#[trigger] self.confirmations[i]).message_hash
                == hash
    }

    /// Whether the block brought this proposal to full confirmation.
    pub open spec fn completes(self, id: u64) -> bool {
        exists|i: int|
            0 <= i < self.confirmations.len() && (#[trigger] self.confirmations[i]).completes
                == Some(id)
    }
}

impl BlockRecord {
    /// Whether the block executed the message with this hash.
    pub fn confirms(&self, hash: &UInt256) -> (b: bool)
        ensures
            b == self@.confirms(*hash),
    {
        let mut i: usize = 0;
        while i < self.confirmations.len()
            invariant
                i <= self.confirmations.len(),
                forall|k: int| 0 <= k < i ==> (#[trigger] self.confirmations@[k]).message_hash != *hash,
            decreases self.confirmations.len() - i,
        {
            if self.confirmations[i].message_hash.same_as(hash) {
                return true;
            }
            i += 1;
        }
        false
    }

    /// Whether the block brought this proposal to full confirmation.
    pub fn completes(&self, id: u64) -> (b: bool)
        ensures
            b == self@.completes(id),
    {
        let mut i: usize = 0;
        while i < self.confirmations.len()
            invariant
                i <= self.confirmations.len(),
                forall|k: int| 0 <= k < i ==> (#[trigger] self.confirmations@[k]).completes != Some(id),
            decreases self.confirmations.len() - i,
        {
            match self.confirmations[i].completes {
                Some(done) => {
                    if done == id {
                        return true;
                    }
                },
                None => {},
            }
            i += 1;
        }
        false
    }
}

} // verus!
