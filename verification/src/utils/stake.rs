//! What the staking subsystem says of a stake account: its lifecycle status at
//! an epoch, and the smallest delegation it accepts.

use crate::error::InstructionError;
use crate::state::Pubkey;
use anchor_lang::solana_program::stake::state::{Delegation, StakeStateV2};
use anchor_lang::solana_program::stake_history::StakeHistory;
use anchor_lang::solana_program::stake_history::StakeHistoryEntry;
use anchor_lang::AnchorDeserialize;
use vstd::prelude::*;

verus! {

/// Lifecycle status of a stake account at one epoch.
#[derive(Clone, Copy, Debug, PartialEq, Eq, Structural)]
pub enum StakeStatus {
    /// No stake account has been laid out at the address.
    Empty,
    /// Laid out, but the staking subsystem never wrote a state into it.
    Uninitialized,
    /// Nothing is delegated any more: the balance can be withdrawn.
    Inactive,
    /// Delegated, not yet effective.
    Activating,
    /// Delegated and wholly effective.
    FullyActive,
    /// Part of the stake is still effective while it cools down.
    Deactivating,
}

/// The part of a delegation that decides its activation.
#[derive(Clone, Copy, Debug, PartialEq, Eq, Structural)]
pub struct StakeDelegation {
    /// Delegated amount.
    pub stake: u64,
    /// Epoch at which the stake was activated.
    pub activation_epoch: u64,
    /// Epoch at which the stake was deactivated, the largest epoch if never.
    pub deactivation_epoch: u64,
}

/// What a stake account's payload holds.
#[derive(Clone, Copy, Debug, PartialEq, Eq, Structural)]
pub enum StakeAccountState {
    /// The staking subsystem never wrote a state.
    Uninitialized,
    /// Authorities are set, nothing is delegated.
    Initialized,
    /// Stake is delegated.
    Stake(StakeDelegation),
    /// Legacy rewards pool.
    RewardsPool,
}

/// How much of a delegation counts at one epoch.
#[derive(Clone, Copy, Debug, PartialEq, Eq, Structural)]
pub struct StakeActivation {
    /// Stake that is effective.
    pub effective: u64,
    /// Stake on its way to becoming effective.
    pub activating: u64,
    /// Stake asked to cool down and not yet released.
    pub deactivating: u64,
}

/// Which authority over a stake account changes hands.
#[derive(Clone, Copy, Debug, PartialEq, Eq, Structural)]
pub enum StakeAuthorize {
    /// The authority to delegate and deactivate.
    Staker,
    /// The authority to withdraw.
    Withdrawer,
}

/// The laying out of an account as a stake account: its bytes are allocated
/// and it is handed to the staking subsystem.
#[derive(Clone, Copy, Debug, PartialEq, Eq)]
pub struct StakeAccountLayout {
    /// Address of the account.
    pub stake_account: Pubkey,
    /// Bytes laid out in it.
    pub space: u64,
    /// Who owns it from then on.
    pub owner: Pubkey,
}

/// The split of stake out of one stake account into another.
#[derive(Clone, Copy, Debug, PartialEq, Eq)]
pub struct StakeSplit {
    /// The stake account that gives.
    pub source: Pubkey,
    /// The stake account that receives.
    pub destination: Pubkey,
    /// Who signs for the source.
    pub authority: Pubkey,
    /// How much is split.
    pub lamports: u64,
}

/// The handing over of one authority over a stake account.
#[derive(Clone, Copy, Debug, PartialEq, Eq)]
pub struct StakeAuthorization {
    /// The stake account.
    pub stake_account: Pubkey,
    /// Who holds the authority now and signs.
    pub authority: Pubkey,
    /// Who holds it afterwards.
    pub new_authority: Pubkey,
    /// Which authority.
    pub stake_authorize: StakeAuthorize,
}

/// The start of a stake account's cooling down.
#[derive(Clone, Copy, Debug, PartialEq, Eq)]
pub struct StakeDeactivation {
    /// The stake account.
    pub stake_account: Pubkey,
    /// Who signs for it.
    pub authority: Pubkey,
}

/// A withdrawal from a stake account.
#[derive(Clone, Copy, Debug, PartialEq, Eq)]
pub struct StakeWithdrawal {
    /// The stake account.
    pub stake_account: Pubkey,
    /// Who signs for it.
    pub authority: Pubkey,
    /// Who receives the lamports.
    pub to: Pubkey,
    /// How much is withdrawn.
    pub lamports: u64,
}

/// The delegation of a stake account to a validator.
#[derive(Clone, Copy, Debug, PartialEq, Eq)]
pub struct StakeDelegationRequest {
    /// The stake account to delegate.
    pub stake_account: Pubkey,
    /// The authority that signs for it.
    pub authority: Pubkey,
    /// The validator that receives the delegation.
    pub vote_account: Pubkey,
}

/// Bytes that the staking subsystem lays out for every stake account. At run
/// time the number is asked of the staking subsystem, see
/// `stake_account_space`.
pub const STAKE_ACCOUNT_SPACE: usize = 200;

/// Address of the staking subsystem.
pub const STAKE_PROGRAM_ID: [u8; 32] = [
    6, 161, 216, 23, 145, 55, 84, 42, 152, 52, 55, 189, 254, 42, 122, 178,
    85, 127, 83, 92, 138, 120, 114, 43, 104, 164, 157, 192, 0, 0, 0, 0,
];

/// Largest delegation to which a further warm-up step is added.
pub const MAX_SCHEDULED_STAKE: u64 = 0x8000_0000_0000_0000;

/// The activation schedule: the staking subsystem's table of cluster-wide
/// stake per epoch, opaque to the verifier.
#[verifier::external_type_specification]
#[verifier::external_body]
pub struct ExStakeHistory(StakeHistory);

/// One row of the activation schedule, without its epoch; opaque to the
/// verifier. No signature of this crate names it: it is declared because a
/// `StakeHistory` dereferences to a vector of such rows, and the verifier reads
/// that impl with the schedule's declaration.
#[verifier::external_type_specification]
#[verifier::external_body]
pub struct ExStakeHistoryEntry(StakeHistoryEntry);

/// The rows of an activation schedule in stored order, each as
/// (epoch, effective, activating, deactivating).
pub uninterp spec fn stake_history_entries(history: StakeHistory) -> Seq<(u64, u64, u64, u64)>;

/// What the staking subsystem's decoder reads from a stake account's payload;
/// `None` where it rejects the bytes.
pub uninterp spec fn decoded_stake_state(data: Seq<u8>) -> Option<StakeAccountState>;

/// The rows that the ledger's encoding of an activation schedule holds; `None`
/// where the bytes are no such encoding.
pub uninterp spec fn decoded_stake_history(data: Seq<u8>) -> Option<Seq<(u64, u64, u64, u64)>>;

/// What the staking subsystem computes for a delegation at `epoch` from the
/// rows of the activation schedule.
pub uninterp spec fn activation_status(
    stake: u64,
    activation_epoch: u64,
    deactivation_epoch: u64,
    epoch: u64,
    entries: Seq<(u64, u64, u64, u64)>,
) -> StakeActivation;

/// The status that an activation stands for.
pub open spec fn status_of_activation(activation: StakeActivation) -> StakeStatus {
    if activation.effective == 0 {
        if activation.activating == 0 && activation.deactivating == 0 {
            StakeStatus::Inactive
        } else {
            StakeStatus::Activating
        }
    } else if activation.activating == 0 && activation.deactivating == 0 {
        StakeStatus::FullyActive
    } else {
        StakeStatus::Deactivating
    }
}

/// Whether one row keeps a further warm-up step of `stake` within 64 bits: a
/// row without activating stake ends the warm-up before anything is added;
/// otherwise the step, the row's effective stake weighted by `stake` over the
/// row's activating stake, stays within 62 bits and is added to less than
/// `MAX_SCHEDULED_STAKE`.
pub open spec fn row_in_range(stake: u64, row: (u64, u64, u64, u64)) -> bool {
    row.2 != 0 ==> stake <= MAX_SCHEDULED_STAKE && stake * row.1 <= row.2
        * 0x1_0000_0000_0000_0000
}

/// Whether the staking subsystem adds warm-up steps for `delegation` at
/// `epoch`. It does so only for a delegation that is no bootstrap stake, was
/// not deactivated in the epoch of its activation, and is asked about after
/// that epoch, and only from a row of that epoch that holds activating stake.
pub open spec fn warms_up(
    delegation: StakeDelegation,
    epoch: u64,
    entries: Seq<(u64, u64, u64, u64)>,
) -> bool {
    &&& delegation.activation_epoch != u64::MAX
    &&& delegation.activation_epoch != delegation.deactivation_epoch
    &&& epoch > delegation.activation_epoch
    &&& exists|i: int|
        0 <= i < entries.len() && (#[trigger] entries[i]).0 == delegation.activation_epoch
            && entries[i].2 != 0
}

/// Whether a row's epoch is one from which a further warm-up step is taken:
/// after the activation, before the epoch asked about and before the
/// deactivation.
pub open spec fn continues_warm_up(delegation: StakeDelegation, epoch: u64, row: (
    u64,
    u64,
    u64,
    u64,
)) -> bool {
    delegation.activation_epoch < row.0 && row.0 < epoch && row.0 < delegation.deactivation_epoch
}

/// The range on which the schedule is evaluated. The staking subsystem adds
/// the warm-up steps of a delegation without checking the sum. The first step
/// is added to nothing. Every further step is taken from a row that
/// `continues_warm_up`, and is added to less than the delegation; on this
/// range each such sum stays within 64 bits. Where the subsystem adds no step,
/// nothing is asked. The range is told from the rows alone: which rows the
/// warm-up reaches before it ends is known only by evaluating the schedule.
pub open spec fn schedule_in_range(
    delegation: StakeDelegation,
    epoch: u64,
    entries: Seq<(u64, u64, u64, u64)>,
) -> bool {
    warms_up(delegation, epoch, entries) ==> forall|i: int|
        0 <= i < entries.len() && continues_warm_up(delegation, epoch, #[trigger] entries[i])
            ==> row_in_range(delegation.stake, entries[i])
}

/// The status of a stake account with payload `data`, at `epoch`, under the
/// schedule with rows `entries`.
pub open spec fn stake_status(
    data: Seq<u8>,
    epoch: u64,
    entries: Seq<(u64, u64, u64, u64)>,
) -> Result<StakeStatus, InstructionError> {
    if data.len() != STAKE_ACCOUNT_SPACE {
        Ok(StakeStatus::Empty)
    } else {
        match decoded_stake_state(data) {
            None => Err(InstructionError::InvalidAccountData),
            Some(StakeAccountState::Uninitialized) => Ok(StakeStatus::Uninitialized),
            Some(StakeAccountState::Stake(delegation)) => {
                if schedule_in_range(delegation, epoch, entries) {
                    Ok(
                        status_of_activation(
                            activation_status(
                                delegation.stake,
                                delegation.activation_epoch,
                                delegation.deactivation_epoch,
                                epoch,
                                entries,
                            ),
                        ),
                    )
                } else {
                    Err(InstructionError::ArithmeticOverflow)
                }
            },
            Some(_) => Ok(StakeStatus::Inactive),
        }
    }
}

/// The number that eight bytes stand for, least significant byte first.
pub open spec fn u64_from_le(bytes: Seq<u8>) -> int
    recommends
        bytes.len() == 8,
{
    bytes[0] + 0x100 * bytes[1] + 0x1_0000 * bytes[2] + 0x100_0000 * bytes[3] + 0x1_0000_0000
        * bytes[4] + 0x100_0000_0000 * bytes[5] + 0x1_0000_0000_0000 * bytes[6]
        + 0x100_0000_0000_0000 * bytes[7]
}

/// The minimum delegation that the staking subsystem's answer holds.
pub open spec fn minimum_stake_amount(return_data: Option<(Pubkey, Vec<u8>)>) -> Result<
    u64,
    InstructionError,
> {
    match return_data {
        None => Err(InstructionError::InvalidInstructionData),
        Some((program_id, data)) => {
            if program_id@ != STAKE_PROGRAM_ID@ {
                Err(InstructionError::IncorrectProgramId)
            } else if data@.len() != 8 {
                Err(InstructionError::InvalidInstructionData)
            } else {
                Ok(u64_from_le(data@) as u64)
            }
        },
    }
}

/// Decodes a stake account's payload with the staking subsystem's own decoder,
/// `StakeStateV2::deserialize`, and keeps of a delegation the three fields that
/// decide activation. Trusted: the result is the decoder's, given the name
/// `decoded_stake_state`; bytes that the decoder rejects give `None`.
#[verifier::external_body]
fn decode_stake_state(data: &[u8]) -> (state: Option<StakeAccountState>)
    ensures
        state == decoded_stake_state(data@),
{
    let mut input: &[u8] = data;
    match StakeStateV2::deserialize(&mut input) {
        Ok(StakeStateV2::Uninitialized) => Some(StakeAccountState::Uninitialized),
        Ok(StakeStateV2::Initialized(_)) => Some(StakeAccountState::Initialized),
        Ok(StakeStateV2::Stake(_, stake, _)) => Some(StakeAccountState::Stake(StakeDelegation {
            stake: stake.delegation.stake,
            activation_epoch: stake.delegation.activation_epoch,
            deactivation_epoch: stake.delegation.deactivation_epoch,
        })),
        Ok(StakeStateV2::RewardsPool) => Some(StakeAccountState::RewardsPool),
        Err(_) => None,
    }
}

/// Evaluates `Delegation::stake_activating_and_deactivating` for a delegation
/// with the given amount and epochs, under the crate's standing warm-up rate.
/// Trusted: the result is the staking subsystem's, given the name
/// `activation_status`. The call is made only within `schedule_in_range`:
/// the subsystem's one unchecked sum, of the warm-up steps, may overflow
/// outside of it.
#[verifier::external_body]
#[allow(deprecated)]
fn stake_activating_and_deactivating(
    delegation: &StakeDelegation,
    epoch: u64,
    history: &StakeHistory,
) -> (activation: StakeActivation)
    requires
        schedule_in_range(*delegation, epoch, stake_history_entries(*history)),
    ensures
        activation == activation_status(
            delegation.stake,
            delegation.activation_epoch,
            delegation.deactivation_epoch,
            epoch,
            stake_history_entries(*history),
        ),
{
    let outside = Delegation {
        stake: delegation.stake,
        activation_epoch: delegation.activation_epoch,
        deactivation_epoch: delegation.deactivation_epoch,
        ..Default::default()
    };
    let status = outside.stake_activating_and_deactivating(epoch, history, None);
    StakeActivation {
        effective: status.effective,
        activating: status.activating,
        deactivating: status.deactivating,
    }
}

/// Decodes the ledger's record of the activation schedule with
/// `bincode::deserialize`. Trusted: the rows of the result are the decoder's,
/// given the name `decoded_stake_history`; bytes that the decoder rejects give
/// `None`.
#[verifier::external_body]
pub(crate) fn decode_stake_history(data: &[u8]) -> (history: Option<StakeHistory>)
    ensures
        match history {
            Some(h) => decoded_stake_history(data@) == Some(stake_history_entries(h)),
            None => decoded_stake_history(data@) is None,
        },
{
    bincode::deserialize::<StakeHistory>(data).ok()
}

/// The number of rows of the schedule: `len` of the vector that a
/// `StakeHistory` dereferences to. Trusted.
#[verifier::external_body]
fn stake_history_len(history: &StakeHistory) -> (len: usize)
    ensures
        len == stake_history_entries(*history).len(),
{
    history.len()
}

/// Row `index` of the schedule, read from the vector that a `StakeHistory`
/// dereferences to. Trusted.
#[verifier::external_body]
fn stake_history_row(history: &StakeHistory, index: usize) -> (row: (u64, u64, u64, u64))
    requires
        index < stake_history_entries(*history).len(),
    ensures
        row == stake_history_entries(*history)[index as int],
{
    let (epoch, entry) = &history[index];
    (*epoch, entry.effective, entry.activating, entry.deactivating)
}

/// The number of bytes of a stake account, by the staking subsystem's own
/// `StakeStateV2::size_of`. Trusted: the number is `STAKE_ACCOUNT_SPACE`.
#[verifier::external_body]
pub(crate) fn stake_account_space() -> (space: usize)
    ensures
        space == STAKE_ACCOUNT_SPACE,
{
    StakeStateV2::size_of()
}

/// Whether `key` is the staking subsystem's address, by the subsystem's own
/// `check_id`. Trusted: the address is `STAKE_PROGRAM_ID`.
#[verifier::external_body]
fn is_stake_program(key: &Pubkey) -> (matches: bool)
    ensures
        matches == (key@ == STAKE_PROGRAM_ID@),
{
    anchor_lang::solana_program::stake::program::check_id(
        &anchor_lang::solana_program::pubkey::Pubkey::new_from_array(key.bytes),
    )
}

/// Requests that `stake_account` be laid out as a stake account: the bytes of
/// the staking subsystem's layout, owned by the staking subsystem.
pub fn stake_create(stake_account: Pubkey) -> (layout: StakeAccountLayout)
    ensures
        layout == (StakeAccountLayout {
            stake_account,
            space: STAKE_ACCOUNT_SPACE as u64,
            owner: Pubkey { bytes: STAKE_PROGRAM_ID },
        }),
{
    StakeAccountLayout {
        stake_account,
        space: stake_account_space() as u64,
        owner: Pubkey::new(STAKE_PROGRAM_ID),
    }
}

/// Requests the split of `lamports` out of `source_stake` into
/// `destination_stake`, signed for by `authority`.
pub fn stake_split(
    source_stake: Pubkey,
    destination_stake: Pubkey,
    authority: Pubkey,
    lamports: u64,
) -> (split: StakeSplit)
    ensures
        split == (StakeSplit {
            source: source_stake,
            destination: destination_stake,
            authority,
            lamports,
        }),
{
    StakeSplit { source: source_stake, destination: destination_stake, authority, lamports }
}

/// Requests that one authority over `stake_account` pass from `authority` to
/// `new_authority`.
pub fn stake_authorize(
    stake_account: Pubkey,
    authority: Pubkey,
    new_authority: Pubkey,
    which: StakeAuthorize,
) -> (authorization: StakeAuthorization)
    ensures
        authorization == (StakeAuthorization {
            stake_account,
            authority,
            new_authority,
            stake_authorize: which,
        }),
{
    StakeAuthorization { stake_account, authority, new_authority, stake_authorize: which }
}

/// Requests that `stake_account` start to cool down, signed for by
/// `authority`.
pub fn stake_deactivate(stake_account: Pubkey, authority: Pubkey) -> (deactivation:
    StakeDeactivation)
    ensures
        deactivation == (StakeDeactivation { stake_account, authority }),
{
    StakeDeactivation { stake_account, authority }
}

/// Requests the withdrawal of `lamports` from `stake_account` to `to`, signed
/// for by `authority`.
pub fn stake_withdraw(stake_account: Pubkey, authority: Pubkey, to: Pubkey, lamports: u64) -> (withdrawal:
    StakeWithdrawal)
    ensures
        withdrawal == (StakeWithdrawal { stake_account, authority, to, lamports }),
{
    StakeWithdrawal { stake_account, authority, to, lamports }
}

/// Requests the delegation of `stake_account` to `vote_account`, signed for by
/// `authority`.
pub fn stake_delegate(stake_account: Pubkey, authority: Pubkey, vote_account: Pubkey) -> (delegation:
    StakeDelegationRequest)
    ensures
        delegation == (StakeDelegationRequest { stake_account, authority, vote_account }),
{
    StakeDelegationRequest { stake_account, authority, vote_account }
}

/// Classifies an activation.
pub fn classify_activation(activation: &StakeActivation) -> (status: StakeStatus)
    ensures
        status == status_of_activation(*activation),
{
    if activation.effective == 0 {
        if activation.activating == 0 && activation.deactivating == 0 {
            StakeStatus::Inactive
        } else {
            StakeStatus::Activating
        }
    } else if activation.activating == 0 && activation.deactivating == 0 {
        StakeStatus::FullyActive
    } else {
        StakeStatus::Deactivating
    }
}

/// Whether the schedule can be evaluated for `delegation` at `epoch`.
pub fn check_schedule_range(delegation: &StakeDelegation, epoch: u64, history: &StakeHistory) -> (in_range:
    bool)
    ensures
        in_range == schedule_in_range(*delegation, epoch, stake_history_entries(*history)),
{
    if delegation.activation_epoch == u64::MAX || delegation.activation_epoch
        == delegation.deactivation_epoch || epoch <= delegation.activation_epoch {
        return true;
    }
    let stake: u64 = delegation.stake;
    let len: usize = stake_history_len(history);
    let mut starts: bool = false;
    let mut fits: bool = true;
    let mut i: usize = 0;
    while i < len
        invariant
            i <= len,
            len == stake_history_entries(*history).len(),
            stake == delegation.stake,
            starts == exists|j: int|
                0 <= j < i && (#[trigger] stake_history_entries(*history)[j]).0
                    == delegation.activation_epoch && stake_history_entries(*history)[j].2 != 0,
            fits == forall|j: int|
                0 <= j < i && continues_warm_up(
                    *delegation,
                    epoch,
                    #[trigger] stake_history_entries(*history)[j],
                ) ==> row_in_range(stake, stake_history_entries(*history)[j]),
        decreases len - i,
    {
        let row = stake_history_row(history, i);
        if row.0 == delegation.activation_epoch && row.2 != 0 {
            starts = true;
        }
        if row.0 > delegation.activation_epoch && row.0 < epoch && row.0
            < delegation.deactivation_epoch && row.2 != 0 {
            if stake > MAX_SCHEDULED_STAKE {
                fits = false;
            } else {
                assert(stake * row.1 <= 0xffff_ffff_ffff_ffff * 0xffff_ffff_ffff_ffff)
                    by (nonlinear_arith)
                    requires
                        stake <= 0xffff_ffff_ffff_ffff,
                        row.1 <= 0xffff_ffff_ffff_ffff,
                ;
                let weighted: u128 = (stake as u128) * (row.1 as u128);
                let limit: u128 = (row.2 as u128) * 0x1_0000_0000_0000_0000u128;
                if weighted > limit {
                    fits = false;
                }
            }
        }
        i += 1;
    }
    !starts || fits
}

/// The lifecycle status of the stake account with payload `stake_data`, at
/// `epoch`, under the activation schedule `stake_history`.
///
/// A payload of any length but the staking subsystem's layout means that no
/// stake account exists. Otherwise the payload is decoded: a delegation is
/// classified by its activation at `epoch`, an unwritten state is reported as
/// such, and every other state counts as inactive. A delegation whose warm-up
/// the staking subsystem could not sum within 64 bits is refused with
/// `ArithmeticOverflow`, see `schedule_in_range`.
pub fn get_stake_status(stake_data: &[u8], epoch: u64, stake_history: &StakeHistory) -> (status:
    Result<StakeStatus, InstructionError>)
    ensures
        status == stake_status(stake_data@, epoch, stake_history_entries(*stake_history)),
{
    if stake_data.len() != stake_account_space() {
        return Ok(StakeStatus::Empty);
    }
    match decode_stake_state(stake_data) {
        None => Err(InstructionError::InvalidAccountData),
        Some(StakeAccountState::Uninitialized) => Ok(StakeStatus::Uninitialized),
        Some(StakeAccountState::Stake(delegation)) => {
            if check_schedule_range(&delegation, epoch, stake_history) {
                let activation = stake_activating_and_deactivating(
                    &delegation,
                    epoch,
                    stake_history,
                );
                Ok(classify_activation(&activation))
            } else {
                Err(InstructionError::ArithmeticOverflow)
            }
        },
        Some(_) => Ok(StakeStatus::Inactive),
    }
}

/// Reads eight bytes as a number, least significant byte first.
fn read_u64_le(bytes: &[u8]) -> (value: u64)
    requires
        bytes@.len() == 8,
    ensures
        value == u64_from_le(bytes@),
{
    let b7: u64 = bytes[7] as u64;
    let b6: u64 = b7 * 256 + bytes[6] as u64;
    let b5: u64 = b6 * 256 + bytes[5] as u64;
    let b4: u64 = b5 * 256 + bytes[4] as u64;
    let b3: u64 = b4 * 256 + bytes[3] as u64;
    let b2: u64 = b3 * 256 + bytes[2] as u64;
    let b1: u64 = b2 * 256 + bytes[1] as u64;
    b1 * 256 + bytes[0] as u64
}

/// Reads the staking subsystem's answer to the question of its minimum
/// delegation.
///
/// `return_data` is what the ledger holds after the question was put: the
/// address of the program that answered, and its answer. The answer counts
/// only if the staking subsystem gave it and it is eight bytes long; it is
/// then read least significant byte first.
pub fn get_minimum_stake_amount(return_data: Option<(Pubkey, Vec<u8>)>) -> (amount: Result<
    u64,
    InstructionError,
>)
    ensures
        amount == minimum_stake_amount(return_data),
{
    match return_data {
        None => Err(InstructionError::InvalidInstructionData),
        Some((program_id, data)) => {
            if !is_stake_program(&program_id) {
                Err(InstructionError::IncorrectProgramId)
            } else if data.len() != 8 {
                Err(InstructionError::InvalidInstructionData)
            } else {
                Ok(read_u64_le(data.as_slice()))
            }
        },
    }
}

} // verus!
