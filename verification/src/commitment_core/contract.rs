use vstd::prelude::*;
use soroban_sdk::Env;
use crate::time::TimeUtils;
use crate::commitment_core::error::CommitmentError;
use crate::commitment_core::types::{Commitment, CommitmentRules, CommitmentStatus, CoreError, RuleViolation};
use crate::fee::fee_of_bps;
use crate::ids::{format_id, id_text, law_ids_unique};
use crate::math::{SafeMath, loss_percent_of, percent_of};
use crate::registry::{AddressSet, AssetLedger};
use crate::rate_limit::RateLimiter;
use crate::validation::{ValidationError, Validation};

verus! {

/// Largest page `get_owner_commitments` returns.
pub const MAX_PAGE_SIZE: u32 = 50;

/// The strkey of the all-zero account, which may not own commitments or
/// receive fees.
pub open spec fn zero_address() -> Seq<char> {
    "GAAAAAAAAAAAAAAAAAAAAAAAAAAAAAAAAAAAAAAAAAAAAAAAAAAAAWHF"@
}

/// Whether `address` is the all-zero account.
pub fn is_zero_address(address: &String) -> (r: bool)
    ensures
        r == (address@ == zero_address()),
{
    *address == "GAAAAAAAAAAAAAAAAAAAAAAAAAAAAAAAAAAAAAAAAAAAAAAAAAAAAWHF".to_owned()
}

/// The id of the commitment created when `n` commitments already exist.
pub open spec fn commitment_id_text(n: nat) -> Seq<char> {
    id_text("c_"@, n)
}

/// The first rule that `rules` breaks, in the order the contract checks them.
pub open spec fn rules_check(rules: CommitmentRules) -> Option<CoreError> {
    let t = rules.commitment_type@;
    if rules.duration_days == 0 {
        Some(CoreError::Invalid(ValidationError::ZeroDuration))
    } else if rules.max_loss_percent > 100 {
        Some(CoreError::Invalid(ValidationError::PercentOutOfRange))
    } else if !(t == "safe"@ || t == "balanced"@ || t == "aggressive"@) {
        Some(CoreError::Invalid(ValidationError::UnknownCommitmentType))
    } else if t == "safe"@ && rules.max_loss_percent > 10 {
        Some(CoreError::Rule(RuleViolation::SafeMaxLoss))
    } else if t == "safe"@ && rules.early_exit_penalty < 15 {
        Some(CoreError::Rule(RuleViolation::SafePenalty))
    } else if t == "balanced"@ && rules.max_loss_percent > 30 {
        Some(CoreError::Rule(RuleViolation::BalancedMaxLoss))
    } else if t == "balanced"@ && rules.early_exit_penalty < 10 {
        Some(CoreError::Rule(RuleViolation::BalancedPenalty))
    } else if t == "aggressive"@ && rules.early_exit_penalty < 5 {
        Some(CoreError::Rule(RuleViolation::AggressivePenalty))
    } else {
        None
    }
}

/// The ids, in creation order, of the commitments of `owner` that are not
/// settled.
pub open spec fn owner_ids(s: Seq<Commitment>, owner: Seq<char>) -> Seq<String>
    decreases s.len(),
{
    if s.len() == 0 {
        Seq::empty()
    } else {
        let rest = owner_ids(s.drop_last(), owner);
        if s.last().owner@ == owner && s.last().status != CommitmentStatus::Settled {
            rest.push(s.last().commitment_id)
        } else {
            rest
        }
    }
}

/// The ids, in creation order, of the commitments created in `[from, to]`.
pub open spec fn ids_created_between(s: Seq<Commitment>, from: u64, to: u64) -> Seq<String>
    decreases s.len(),
{
    if s.len() == 0 {
        Seq::empty()
    } else {
        let rest = ids_created_between(s.drop_last(), from, to);
        if from <= s.last().created_at <= to {
            rest.push(s.last().commitment_id)
        } else {
            rest
        }
    }
}

/// What commitment `c` still holds in the contract: its current value while
/// it is active or violated, nothing once it is settled or exited.
pub open spec fn locked_value(c: Commitment) -> int {
    if c.status == CommitmentStatus::Active || c.status == CommitmentStatus::Violated {
        c.current_value as int
    } else {
        0
    }
}

/// The sum of what the commitments in `s` still hold.
pub open spec fn locked_total(s: Seq<Commitment>) -> int
    decreases s.len(),
{
    if s.len() == 0 {
        0
    } else {
        locked_total(s.drop_last()) + locked_value(s.last())
    }
}

proof fn lemma_locked_total_update(s: Seq<Commitment>, i: int, c: Commitment)
    requires
        0 <= i < s.len(),
    ensures
        locked_total(s.update(i, c)) == locked_total(s) - locked_value(s[i]) + locked_value(c),
    decreases s.len(),
{
    let t = s.update(i, c);
    if i == s.len() - 1 {
        assert(t.drop_last() =~= s.drop_last());
    } else {
        assert(t.drop_last() =~= s.drop_last().update(i, c));
        lemma_locked_total_update(s.drop_last(), i, c);
    }
}

proof fn lemma_locked_total_nonneg(s: Seq<Commitment>)
    requires
        forall|j: int| 0 <= j < s.len() ==> #[trigger] s[j].current_value >= 0,
    ensures
        locked_total(s) >= 0,
    decreases s.len(),
{
    if s.len() > 0 {
        let d = s.drop_last();
        assert forall|j: int| 0 <= j < d.len() implies #[trigger] d[j].current_value >= 0 by {
            assert(d[j] == s[j]);
        }
        lemma_locked_total_nonneg(d);
    }
}

/// What one commitment holds is part of the total.
proof fn lemma_locked_total_covers(s: Seq<Commitment>, i: int)
    requires
        0 <= i < s.len(),
        forall|j: int| 0 <= j < s.len() ==> #[trigger] s[j].current_value >= 0,
    ensures
        locked_value(s[i]) <= locked_total(s),
{
    let gone = Commitment { current_value: 0, ..s[i] };
    let t = s.update(i, gone);
    lemma_locked_total_update(s, i, gone);
    assert forall|j: int| 0 <= j < t.len() implies #[trigger] t[j].current_value >= 0 by {
        if j != i {
            assert(t[j] == s[j]);
        }
    }
    lemma_locked_total_nonneg(t);
}

/// The page of `all` that starts at `offset` and holds at most
/// `min(limit, MAX_PAGE_SIZE)` ids.
pub open spec fn page_of(all: Seq<String>, offset: u32, limit: u32) -> Seq<String> {
    if offset >= all.len() || limit == 0 {
        Seq::empty()
    } else {
        let size = if limit < MAX_PAGE_SIZE { limit as int } else { MAX_PAGE_SIZE as int };
        let end = if offset + size < all.len() { offset + size } else { all.len() as int };
        all.subrange(offset as int, end)
    }
}

/// What remains to be done after `create_commitment` succeeds: move `amount`
/// of the asset from the owner to the contract, then mint the commitment's
/// NFT for `net_amount` on `nft_contract`.
pub struct CreatedCommitment {
    pub commitment_id: String,
    pub net_amount: i128,
    pub creation_fee: i128,
    pub nft_contract: String,
}

/// A payment the contract owes once a state change is recorded, together
/// with the NFT to update: `amount` of `asset_address` to `recipient`.
pub struct Payout {
    pub recipient: String,
    pub asset_address: String,
    pub amount: i128,
    pub nft_contract: String,
    pub nft_token_id: u32,
}

/// The outcome of an early exit: the penalty kept as a fee, and the rest,
/// `returned`, owed to the owner when positive.
pub struct EarlyExitOutcome {
    pub penalty: i128,
    pub returned: i128,
    pub payout: Payout,
}

/// The outcome of a value update.
pub struct ValueUpdate {
    pub loss_percent: i128,
    pub violated: bool,
}

/// The roles the admin grants and revokes.
#[derive(Clone, Copy, Debug, PartialEq, Eq, Structural)]
pub enum Role {
    Allocator,
    Updater,
    Guardian,
    Treasurer,
    Operator,
}

/// The state of the commitment core contract.
///
/// Commitment number `i` (counted from zero) is kept at position `i` and is
/// named `c_i`; the commitment counter is the number of commitments. An
/// owner's commitment list is the ids of that owner's unsettled commitments,
/// in creation order, and the list of all ids is the ids of all commitments.
pub struct CommitmentCoreContract {
    pub admin: Option<String>,
    pub nft_contract: Option<String>,
    pub allocation_contract: Option<String>,
    pub commitments: Vec<Commitment>,
    pub total_value_locked: i128,
    pub reentrancy_guard: bool,
    pub paused: bool,
    pub emergency_mode: bool,
    pub allocators: AddressSet,
    pub updaters: AddressSet,
    pub guardians: AddressSet,
    pub treasurers: AddressSet,
    pub operators: AddressSet,
    pub fee_recipient: Option<String>,
    pub creation_fee_bps: u32,
    pub collected_fees: AssetLedger,
    pub rate_limits: RateLimiter,
}

impl CommitmentCoreContract {
    /// The state is consistent: commitment `i` is named `c_i` and never holds
    /// a negative value, the fee rate is at most 10 000 bps and the fee ledger
    /// names each asset once.
    pub open spec fn wf(&self) -> bool {
        &&& forall|i: int|
            0 <= i < self.commitments@.len() ==> {
                &&& #[trigger] self.commitments@[i].commitment_id@ == commitment_id_text(i as nat)
                &&& self.commitments@[i].current_value >= 0
            }
        &&& self.creation_fee_bps <= 10_000
        &&& self.collected_fees.wf()
    }

    pub open spec fn is_admin(&self, x: Seq<char>) -> bool {
        self.admin matches Some(a) && a@ == x
    }

    pub open spec fn allocator(&self, x: Seq<char>) -> bool {
        self.is_admin(x) || (self.allocation_contract matches Some(c) && c@ == x)
            || self.allocators.has(x)
    }

    pub open spec fn updater(&self, x: Seq<char>) -> bool {
        self.is_admin(x) || self.updaters.has(x)
    }

    pub open spec fn guardian(&self, x: Seq<char>) -> bool {
        self.is_admin(x) || self.guardians.has(x)
    }

    pub open spec fn treasurer(&self, x: Seq<char>) -> bool {
        self.is_admin(x) || self.treasurers.has(x)
    }

    pub open spec fn operator(&self, x: Seq<char>) -> bool {
        self.is_admin(x) || self.operators.has(x)
    }

    /// Whether an admin-only call by `caller` is refused, and why.
    pub open spec fn admin_check(&self, caller: Seq<char>) -> Option<CoreError> {
        if self.admin is None {
            Some(CoreError::Contract(CommitmentError::NotInitialized))
        } else if !self.is_admin(caller) {
            Some(CoreError::Contract(CommitmentError::Unauthorized))
        } else {
            None
        }
    }

    /// Whether commitment `i` exists and is named `id`.
    pub open spec fn names(&self, i: int, id: Seq<char>) -> bool {
        0 <= i < self.commitments@.len() && self.commitments@[i].commitment_id@ == id
    }

    /// The position of the commitment named `id`, if any.
    pub open spec fn position(&self, id: Seq<char>) -> Option<int> {
        if exists|i: int| #[trigger] self.names(i, id) {
            Some(choose|i: int| #[trigger] self.names(i, id))
        } else {
            None
        }
    }

    /// The commitment named `id`, if any.
    pub open spec fn commitment(&self, id: Seq<char>) -> Option<Commitment> {
        match self.position(id) {
            Some(i) => Some(self.commitments@[i]),
            None => None,
        }
    }

    /// Everything but the commitments, the value locked, the guard and the
    /// collected fees is the same in `self` and `other`.
    pub open spec fn same_settings(&self, other: &Self) -> bool {
        &&& self.admin == other.admin
        &&& self.nft_contract == other.nft_contract
        &&& self.allocation_contract == other.allocation_contract
        &&& self.paused == other.paused
        &&& self.emergency_mode == other.emergency_mode
        &&& self.allocators == other.allocators
        &&& self.updaters == other.updaters
        &&& self.guardians == other.guardians
        &&& self.treasurers == other.treasurers
        &&& self.operators == other.operators
        &&& self.fee_recipient == other.fee_recipient
        &&& self.creation_fee_bps == other.creation_fee_bps
    }

    /// Commitments are only ever added, keep their names, and once one
    /// leaves the active status its status never changes again.
    pub open spec fn statuses_evolve(&self, next: &Self) -> bool {
        &&& self.commitments@.len() <= next.commitments@.len()
        &&& forall|i: int| 0 <= i < self.commitments@.len() ==> {
            &&& #[trigger] next.commitments@[i].commitment_id == self.commitments@[i].commitment_id
            &&& next.commitments@[i].owner == self.commitments@[i].owner
            &&& next.commitments@[i].amount == self.commitments@[i].amount
            &&& (self.commitments@[i].status != CommitmentStatus::Active
                ==> next.commitments@[i].status == self.commitments@[i].status)
        }
    }

    /// The value locked is exactly what the commitments still hold: the sum
    /// of the current values of the active and violated commitments.
    pub open spec fn value_balanced(&self) -> bool {
        self.total_value_locked == locked_total(self.commitments@)
    }

    proof fn lemma_position(&self, i: int)
        requires
            self.wf(),
            0 <= i < self.commitments@.len(),
        ensures
            self.position(self.commitments@[i].commitment_id@) == Some(i),
    {
        let id = self.commitments@[i].commitment_id@;
        assert(self.names(i, id));
        let j = choose|j: int| #[trigger] self.names(j, id);
        if j != i {
            assert(self.commitments@[j].commitment_id@ == commitment_id_text(j as nat));
            assert(self.commitments@[i].commitment_id@ == commitment_id_text(i as nat));
            law_ids_unique("c_"@, i as nat, j as nat);
        }
    }

    /// The contract before `initialize`: no admin, no commitments, nothing
    /// locked, no fees, not paused.
    pub fn new() -> (s: Self)
        ensures
            s.wf(),
            s.admin is None,
            s.commitments@.len() == 0,
            s.total_value_locked == 0,
            !s.reentrancy_guard,
            !s.paused,
            !s.emergency_mode,
            s.creation_fee_bps == 0,
            s.fee_recipient is None,
            s.value_balanced(),
    {
        CommitmentCoreContract {
            admin: None,
            nft_contract: None,
            allocation_contract: None,
            commitments: Vec::new(),
            total_value_locked: 0,
            reentrancy_guard: false,
            paused: false,
            emergency_mode: false,
            allocators: AddressSet::new(),
            updaters: AddressSet::new(),
            guardians: AddressSet::new(),
            treasurers: AddressSet::new(),
            operators: AddressSet::new(),
            fee_recipient: None,
            creation_fee_bps: 0,
            collected_fees: AssetLedger::new(),
            rate_limits: RateLimiter::new(),
        }
    }

    fn find(&self, id: &String) -> (r: Option<usize>)
        requires
            self.wf(),
        ensures
            r matches Some(i) ==> self.position(id@) == Some(i as int),
            r is None ==> self.position(id@) is None,
    {
        let mut i: usize = 0;
        while i < self.commitments.len()
            invariant
                self.wf(),
                0 <= i <= self.commitments@.len(),
                forall|j: int| 0 <= j < i ==> self.commitments@[j].commitment_id@ != id@,
            decreases self.commitments@.len() - i,
        {
            if self.commitments[i].commitment_id == *id {
                proof {
                    self.lemma_position(i as int);
                }
                return Some(i);
            }
            i = i + 1;
        }
        None
    }

    fn require_admin(&self, caller: &String) -> (r: Result<(), CoreError>)
        ensures
            r is Ok <==> self.admin_check(caller@) is None,
            r matches Err(e) ==> self.admin_check(caller@) == Some(e),
    {
        match &self.admin {
            None => Err(CoreError::Contract(CommitmentError::NotInitialized)),
            Some(a) => {
                if *caller != *a {
                    Err(CoreError::Contract(CommitmentError::Unauthorized))
                } else {
                    Ok(())
                }
            },
        }
    }

    fn is_admin_address(&self, address: &String) -> (r: bool)
        ensures
            r == self.is_admin(address@),
    {
        match &self.admin {
            Some(a) => *address == *a,
            None => false,
        }
    }

    /// Checks the rules of a new commitment: duration, loss limit, type, and
    /// the limits of that type.
    pub fn validate_rules(rules: &CommitmentRules) -> (r: Result<(), CoreError>)
        ensures
            r is Ok <==> rules_check(*rules) is None,
            r matches Err(e) ==> rules_check(*rules) == Some(e),
    {
        if let Err(e) = Validation::require_valid_duration(rules.duration_days) {
            return Err(CoreError::Invalid(e));
        }
        if let Err(e) = Validation::require_valid_percent(rules.max_loss_percent) {
            return Err(CoreError::Invalid(e));
        }
        let safe = rules.commitment_type == "safe".to_owned();
        let balanced = rules.commitment_type == "balanced".to_owned();
        let aggressive = rules.commitment_type == "aggressive".to_owned();
        if !safe && !balanced && !aggressive {
            return Err(CoreError::Invalid(ValidationError::UnknownCommitmentType));
        }
        if safe {
            if rules.max_loss_percent > 10 {
                return Err(CoreError::Rule(RuleViolation::SafeMaxLoss));
            }
            if rules.early_exit_penalty < 15 {
                return Err(CoreError::Rule(RuleViolation::SafePenalty));
            }
        } else if balanced {
            if rules.max_loss_percent > 30 {
                return Err(CoreError::Rule(RuleViolation::BalancedMaxLoss));
            }
            if rules.early_exit_penalty < 10 {
                return Err(CoreError::Rule(RuleViolation::BalancedPenalty));
            }
        } else if aggressive && rules.early_exit_penalty < 5 {
            return Err(CoreError::Rule(RuleViolation::AggressivePenalty));
        }
        Ok(())
    }

    /// The id of the commitment created when `counter` commitments exist.
    pub fn generate_commitment_id(counter: u64) -> (id: String)
        ensures
            id@ == commitment_id_text(counter as nat),
    {
        format_id("c_", counter)
    }

    /// Sets the admin and the NFT contract; refused once an admin is set.
    pub fn initialize(&mut self, admin: String, nft_contract: String) -> (r: Result<
        (),
        CoreError,
    >)
        requires
            old(self).wf(),
        ensures
            final(self).wf(),
            old(self).admin is Some ==> r == Err::<(), CoreError>(
                CoreError::Contract(CommitmentError::AlreadyInitialized),
            ) && *final(self) == *old(self),
            old(self).value_balanced() ==> final(self).value_balanced(),
            old(self).admin is None ==> r is Ok && final(self).admin == Some(admin)
                && final(self).nft_contract == Some(nft_contract) && !final(self).reentrancy_guard
                && !final(self).paused && !final(self).emergency_mode
                && final(self).commitments == old(self).commitments
                && final(self).total_value_locked == old(self).total_value_locked,
    {
        if self.admin.is_some() {
            return Err(CoreError::Contract(CommitmentError::AlreadyInitialized));
        }
        self.admin = Some(admin);
        self.nft_contract = Some(nft_contract);
        self.reentrancy_guard = false;
        self.paused = false;
        self.emergency_mode = false;
        Ok(())
    }

    /// The commitment named `commitment_id`.
    pub fn get_commitment(&self, commitment_id: &String) -> (r: Result<Commitment, CoreError>)
        requires
            self.wf(),
        ensures
            self.commitment(commitment_id@) matches Some(c) ==> r == Ok::<Commitment, CoreError>(
                c,
            ),
            self.commitment(commitment_id@) is None ==> r == Err::<Commitment, CoreError>(
                CoreError::Contract(CommitmentError::CommitmentNotFound),
            ),
    {
        match self.find(commitment_id) {
            Some(i) => Ok(self.commitments[i].clone()),
            None => Err(CoreError::Contract(CommitmentError::CommitmentNotFound)),
        }
    }

    fn all_owner_ids(&self, owner: &String) -> (ids: Vec<String>)
        ensures
            ids@ == owner_ids(self.commitments@, owner@),
    {
        let mut ids: Vec<String> = Vec::new();
        let mut i: usize = 0;
        while i < self.commitments.len()
            invariant
                0 <= i <= self.commitments@.len(),
                ids@ == owner_ids(self.commitments@.take(i as int), owner@),
            decreases self.commitments@.len() - i,
        {
            let c = &self.commitments[i];
            assert(self.commitments@.take(i + 1).drop_last() =~= self.commitments@.take(i as int));
            if c.owner == *owner && c.status != CommitmentStatus::Settled {
                ids.push(c.commitment_id.clone());
            }
            i = i + 1;
        }
        assert(self.commitments@.take(i as int) =~= self.commitments@);
        ids
    }

    /// A page of the ids of `owner`'s unsettled commitments, in creation
    /// order: from position `offset`, at most `min(limit, MAX_PAGE_SIZE)` ids.
    pub fn get_owner_commitments(&self, owner: &String, offset: u32, limit: u32) -> (ids: Vec<
        String,
    >)
        ensures
            ids@ == page_of(owner_ids(self.commitments@, owner@), offset, limit),
            ids@.len() <= limit,
            ids@.len() <= MAX_PAGE_SIZE,
            forall|k: int| 0 <= k < ids@.len() ==> #[trigger] ids@[k] == owner_ids(self.commitments@, owner@)[offset + k],
            offset < owner_ids(self.commitments@, owner@).len() && limit <= MAX_PAGE_SIZE ==> ids@.len() == if limit
                < owner_ids(self.commitments@, owner@).len() - offset {
                limit as int
            } else {
                owner_ids(self.commitments@, owner@).len() - offset
            },
    {
        proof {
            law_page_bounds(owner_ids(self.commitments@, owner@), offset, limit);
        }
        let all = self.all_owner_ids(owner);
        let total = all.len();
        if offset as usize >= total || limit == 0 {
            return Vec::new();
        }
        let size: usize = if limit < MAX_PAGE_SIZE { limit as usize } else { MAX_PAGE_SIZE as usize };
        let remaining: usize = total - offset as usize;
        let end: usize = if size < remaining { offset as usize + size } else { total };
        let mut page: Vec<String> = Vec::new();
        let mut i: usize = offset as usize;
        while i < end
            invariant
                offset <= i <= end <= all@.len(),
                page@ == all@.subrange(offset as int, i as int),
            decreases end - i,
        {
            page.push(all[i].clone());
            assert(page@ =~= all@.subrange(offset as int, i + 1));
            i = i + 1;
        }
        page
    }

    /// The ids of all of `owner`'s unsettled commitments, up to the first
    /// `MAX_PAGE_SIZE`.
    pub fn list_commitments_by_owner(&self, owner: &String) -> (ids: Vec<String>)
        ensures
            ids@ == page_of(owner_ids(self.commitments@, owner@), 0, MAX_PAGE_SIZE),
    {
        self.get_owner_commitments(owner, 0, MAX_PAGE_SIZE)
    }

    /// How many commitments have been created.
    pub fn get_total_commitments(&self) -> (n: u64)
        requires
            self.commitments@.len() <= u64::MAX,
        ensures
            n == self.commitments@.len(),
    {
        self.commitments.len() as u64
    }

    /// The value locked across commitments.
    pub fn get_total_value_locked(&self) -> (v: i128)
        ensures
            v == self.total_value_locked,
    {
        self.total_value_locked
    }

    /// The ids of the commitments created between `from_ts` and `to_ts`,
    /// both included, in creation order.
    pub fn get_commitments_created_between(&self, from_ts: u64, to_ts: u64) -> (ids: Vec<String>)
        ensures
            ids@ == ids_created_between(self.commitments@, from_ts, to_ts),
    {
        let mut ids: Vec<String> = Vec::new();
        let mut i: usize = 0;
        while i < self.commitments.len()
            invariant
                0 <= i <= self.commitments@.len(),
                ids@ == ids_created_between(self.commitments@.take(i as int), from_ts, to_ts),
            decreases self.commitments@.len() - i,
        {
            let c = &self.commitments[i];
            assert(self.commitments@.take(i + 1).drop_last() =~= self.commitments@.take(i as int));
            if c.created_at >= from_ts && c.created_at <= to_ts {
                ids.push(c.commitment_id.clone());
            }
            i = i + 1;
        }
        assert(self.commitments@.take(i as int) =~= self.commitments@);
        ids
    }

    /// The admin.
    pub fn get_admin(&self) -> (r: Result<String, CoreError>)
        ensures
            self.admin matches Some(a) ==> r == Ok::<String, CoreError>(a),
            self.admin is None ==> r == Err::<String, CoreError>(
                CoreError::Contract(CommitmentError::NotInitialized),
            ),
    {
        match &self.admin {
            Some(a) => Ok(a.clone()),
            None => Err(CoreError::Contract(CommitmentError::NotInitialized)),
        }
    }

    /// The NFT contract.
    pub fn get_nft_contract(&self) -> (r: Result<String, CoreError>)
        ensures
            self.nft_contract matches Some(a) ==> r == Ok::<String, CoreError>(a),
            self.nft_contract is None ==> r == Err::<String, CoreError>(
                CoreError::Contract(CommitmentError::NotInitialized),
            ),
    {
        match &self.nft_contract {
            Some(a) => Ok(a.clone()),
            None => Err(CoreError::Contract(CommitmentError::NotInitialized)),
        }
    }

    /// The explicit holders of `role` (the admin holds every role besides).
    pub open spec fn role_set(&self, role: Role) -> AddressSet {
        match role {
            Role::Allocator => self.allocators,
            Role::Updater => self.updaters,
            Role::Guardian => self.guardians,
            Role::Treasurer => self.treasurers,
            Role::Operator => self.operators,
        }
    }

    /// `self` and `other` differ at most in the explicit role holders.
    pub open spec fn same_but_roles(&self, other: &Self) -> bool {
        &&& self.admin == other.admin
        &&& self.nft_contract == other.nft_contract
        &&& self.allocation_contract == other.allocation_contract
        &&& self.commitments == other.commitments
        &&& self.total_value_locked == other.total_value_locked
        &&& self.reentrancy_guard == other.reentrancy_guard
        &&& self.paused == other.paused
        &&& self.emergency_mode == other.emergency_mode
        &&& self.fee_recipient == other.fee_recipient
        &&& self.creation_fee_bps == other.creation_fee_bps
        &&& self.collected_fees == other.collected_fees
    }

    /// `after` is `before` with `x` granted (`grant`) or revoked (`!grant`)
    /// `role`, and nothing else changed.
    pub open spec fn role_changed(before: &Self, after: &Self, role: Role, x: Seq<char>, grant: bool) -> bool {
        &&& before.same_but_roles(after)
        &&& forall|r: Role, y: Seq<char>| #[trigger] after.role_set(r).has(y) == if r == role && y == x {
            grant
        } else {
            before.role_set(r).has(y)
        }
    }

    fn change_role(&mut self, role: Role, x: &String, grant: bool)
        requires
            old(self).wf(),
        ensures
            final(self).wf(),
            Self::role_changed(&*old(self), &*final(self), role, x@, grant),
    {
        match role {
            Role::Allocator => if grant { self.allocators.insert(x) } else { self.allocators.remove(x) },
            Role::Updater => if grant { self.updaters.insert(x) } else { self.updaters.remove(x) },
            Role::Guardian => if grant { self.guardians.insert(x) } else { self.guardians.remove(x) },
            Role::Treasurer => if grant { self.treasurers.insert(x) } else { self.treasurers.remove(x) },
            Role::Operator => if grant { self.operators.insert(x) } else { self.operators.remove(x) },
        }
    }

    /// Grants or revokes `role` for `address` on behalf of `caller`, who must
    /// be the admin.
    fn admin_set_role(&mut self, caller: &String, role: Role, address: &String, grant: bool) -> (r:
        Result<(), CoreError>)
        requires
            old(self).wf(),
        ensures
            final(self).wf(),
            r is Ok <==> old(self).admin_check(caller@) is None,
            r matches Err(e) ==> old(self).admin_check(caller@) == Some(e) && *final(self) == *old(
                self,
            ),
            r is Ok ==> Self::role_changed(&*old(self), &*final(self), role, address@, grant),
    {
        self.require_admin(caller)?;
        self.change_role(role, address, grant);
        Ok(())
    }

    /// Lets `allocator` allocate commitment funds; admin only.
    pub fn add_allocator(&mut self, caller: &String, allocator: &String) -> (r: Result<(), CoreError>)
        requires
            old(self).wf(),
        ensures
            final(self).wf(),
            r is Ok <==> old(self).admin_check(caller@) is None,
            r matches Err(e) ==> old(self).admin_check(caller@) == Some(e) && *final(self) == *old(
                self,
            ),
            r is Ok ==> Self::role_changed(&*old(self), &*final(self), Role::Allocator, allocator@, true),
    {
        self.admin_set_role(caller, Role::Allocator, allocator, true)
    }

    /// Withdraws `allocator`'s explicit allocator role; admin only.
    pub fn remove_allocator(&mut self, caller: &String, allocator: &String) -> (r: Result<(), CoreError>)
        requires
            old(self).wf(),
        ensures
            final(self).wf(),
            r is Ok <==> old(self).admin_check(caller@) is None,
            r matches Err(e) ==> old(self).admin_check(caller@) == Some(e) && *final(self) == *old(
                self,
            ),
            r is Ok ==> Self::role_changed(&*old(self), &*final(self), Role::Allocator, allocator@, false),
    {
        self.admin_set_role(caller, Role::Allocator, allocator, false)
    }

    /// Same as `add_allocator`.
    pub fn add_authorized_contract(&mut self, caller: &String, contract_address: &String) -> (r: Result<(), CoreError>)
        requires
            old(self).wf(),
        ensures
            final(self).wf(),
            r is Ok <==> old(self).admin_check(caller@) is None,
            r matches Err(e) ==> old(self).admin_check(caller@) == Some(e) && *final(self) == *old(
                self,
            ),
            r is Ok ==> Self::role_changed(&*old(self), &*final(self), Role::Allocator, contract_address@, true),
    {
        self.add_allocator(caller, contract_address)
    }

    /// Same as `remove_allocator`.
    pub fn remove_authorized_contract(&mut self, caller: &String, contract_address: &String) -> (r: Result<(), CoreError>)
        requires
            old(self).wf(),
        ensures
            final(self).wf(),
            r is Ok <==> old(self).admin_check(caller@) is None,
            r matches Err(e) ==> old(self).admin_check(caller@) == Some(e) && *final(self) == *old(
                self,
            ),
            r is Ok ==> Self::role_changed(&*old(self), &*final(self), Role::Allocator, contract_address@, false),
    {
        self.remove_allocator(caller, contract_address)
    }

    /// Lets `updater` update commitment values; admin only.
    pub fn add_updater(&mut self, caller: &String, updater: &String) -> (r: Result<(), CoreError>)
        requires
            old(self).wf(),
        ensures
            final(self).wf(),
            r is Ok <==> old(self).admin_check(caller@) is None,
            r matches Err(e) ==> old(self).admin_check(caller@) == Some(e) && *final(self) == *old(
                self,
            ),
            r is Ok ==> Self::role_changed(&*old(self), &*final(self), Role::Updater, updater@, true),
    {
        self.admin_set_role(caller, Role::Updater, updater, true)
    }

    /// Withdraws `updater`'s explicit updater role; admin only.
    pub fn remove_updater(&mut self, caller: &String, updater: &String) -> (r: Result<(), CoreError>)
        requires
            old(self).wf(),
        ensures
            final(self).wf(),
            r is Ok <==> old(self).admin_check(caller@) is None,
            r matches Err(e) ==> old(self).admin_check(caller@) == Some(e) && *final(self) == *old(
                self,
            ),
            r is Ok ==> Self::role_changed(&*old(self), &*final(self), Role::Updater, updater@, false),
    {
        self.admin_set_role(caller, Role::Updater, updater, false)
    }

    /// Makes `guardian` a guardian; admin only.
    pub fn add_guardian(&mut self, caller: &String, guardian: &String) -> (r: Result<(), CoreError>)
        requires
            old(self).wf(),
        ensures
            final(self).wf(),
            r is Ok <==> old(self).admin_check(caller@) is None,
            r matches Err(e) ==> old(self).admin_check(caller@) == Some(e) && *final(self) == *old(
                self,
            ),
            r is Ok ==> Self::role_changed(&*old(self), &*final(self), Role::Guardian, guardian@, true),
    {
        self.admin_set_role(caller, Role::Guardian, guardian, true)
    }

    /// Withdraws `guardian`'s explicit guardian role; admin only.
    pub fn remove_guardian(&mut self, caller: &String, guardian: &String) -> (r: Result<(), CoreError>)
        requires
            old(self).wf(),
        ensures
            final(self).wf(),
            r is Ok <==> old(self).admin_check(caller@) is None,
            r matches Err(e) ==> old(self).admin_check(caller@) == Some(e) && *final(self) == *old(
                self,
            ),
            r is Ok ==> Self::role_changed(&*old(self), &*final(self), Role::Guardian, guardian@, false),
    {
        self.admin_set_role(caller, Role::Guardian, guardian, false)
    }

    /// Makes `treasurer` a treasurer; admin only.
    pub fn add_treasurer(&mut self, caller: &String, treasurer: &String) -> (r: Result<(), CoreError>)
        requires
            old(self).wf(),
        ensures
            final(self).wf(),
            r is Ok <==> old(self).admin_check(caller@) is None,
            r matches Err(e) ==> old(self).admin_check(caller@) == Some(e) && *final(self) == *old(
                self,
            ),
            r is Ok ==> Self::role_changed(&*old(self), &*final(self), Role::Treasurer, treasurer@, true),
    {
        self.admin_set_role(caller, Role::Treasurer, treasurer, true)
    }

    /// Withdraws `treasurer`'s explicit treasurer role; admin only.
    pub fn remove_treasurer(&mut self, caller: &String, treasurer: &String) -> (r: Result<(), CoreError>)
        requires
            old(self).wf(),
        ensures
            final(self).wf(),
            r is Ok <==> old(self).admin_check(caller@) is None,
            r matches Err(e) ==> old(self).admin_check(caller@) == Some(e) && *final(self) == *old(
                self,
            ),
            r is Ok ==> Self::role_changed(&*old(self), &*final(self), Role::Treasurer, treasurer@, false),
    {
        self.admin_set_role(caller, Role::Treasurer, treasurer, false)
    }

    /// Makes `operator` an operator; admin only.
    pub fn add_operator(&mut self, caller: &String, operator: &String) -> (r: Result<(), CoreError>)
        requires
            old(self).wf(),
        ensures
            final(self).wf(),
            r is Ok <==> old(self).admin_check(caller@) is None,
            r matches Err(e) ==> old(self).admin_check(caller@) == Some(e) && *final(self) == *old(
                self,
            ),
            r is Ok ==> Self::role_changed(&*old(self), &*final(self), Role::Operator, operator@, true),
    {
        self.admin_set_role(caller, Role::Operator, operator, true)
    }

    /// Withdraws `operator`'s explicit operator role; admin only.
    pub fn remove_operator(&mut self, caller: &String, operator: &String) -> (r: Result<(), CoreError>)
        requires
            old(self).wf(),
        ensures
            final(self).wf(),
            r is Ok <==> old(self).admin_check(caller@) is None,
            r matches Err(e) ==> old(self).admin_check(caller@) == Some(e) && *final(self) == *old(
                self,
            ),
            r is Ok ==> Self::role_changed(&*old(self), &*final(self), Role::Operator, operator@, false),
    {
        self.admin_set_role(caller, Role::Operator, operator, false)
    }

    /// Registers the allocation contract, which may then allocate; admin only.
    pub fn set_allocation_contract(&mut self, caller: &String, addr: String) -> (r: Result<(), CoreError>)
        requires
            old(self).wf(),
        ensures
            final(self).wf(),
            r is Ok <==> old(self).admin_check(caller@) is None,
            r matches Err(e) ==> old(self).admin_check(caller@) == Some(e) && *final(self) == *old(
                self,
            ),
            r is Ok ==> *final(self) == (CommitmentCoreContract { allocation_contract: Some(addr), ..*old(self) }),
    {
        self.require_admin(caller)?;
        self.allocation_contract = Some(addr);
        Ok(())
    }

    /// Limits calls to `function` to `max_calls` per caller in each window of
    /// `window_seconds`; admin only. Other limits, the exempt callers and the
    /// call windows are unchanged.
    pub fn set_rate_limit(&mut self, caller: &String, function: &String, window_seconds: u64, max_calls: u32) -> (r: Result<(), CoreError>)
        requires
            old(self).wf(),
        ensures
            final(self).wf(),
            r is Ok <==> old(self).admin_check(caller@) is None,
            r matches Err(e) ==> old(self).admin_check(caller@) == Some(e) && *final(self) == *old(
                self,
            ),
            r is Ok ==> {
                &&& final(self).rate_limits.limit_of(function@) matches Some(l) && l.window_seconds
                    == window_seconds && l.max_calls == max_calls
                &&& forall|g: Seq<char>| g != function@ ==> #[trigger] final(self).rate_limits.limit_of(g)
                    == old(self).rate_limits.limit_of(g)
                &&& final(self).rate_limits.exempt == old(self).rate_limits.exempt
                &&& final(self).rate_limits.usage == old(self).rate_limits.usage
                &&& *final(self) == (CommitmentCoreContract { rate_limits: final(self).rate_limits, ..*old(self) })
            },
    {
        self.require_admin(caller)?;
        self.rate_limits.set_limit(function, window_seconds, max_calls);
        Ok(())
    }

    /// Makes `address` exempt from every rate limit, or subject to them
    /// again; admin only.
    pub fn set_rate_limit_exempt(&mut self, caller: &String, address: &String, exempt: bool) -> (r: Result<(), CoreError>)
        requires
            old(self).wf(),
        ensures
            final(self).wf(),
            r is Ok <==> old(self).admin_check(caller@) is None,
            r matches Err(e) ==> old(self).admin_check(caller@) == Some(e) && *final(self) == *old(
                self,
            ),
            r is Ok ==> {
                &&& forall|y: Seq<char>| #[trigger] final(self).rate_limits.exempt.has(y) == if y == address@ {
                    exempt
                } else {
                    old(self).rate_limits.exempt.has(y)
                }
                &&& final(self).rate_limits.limits == old(self).rate_limits.limits
                &&& final(self).rate_limits.usage == old(self).rate_limits.usage
                &&& *final(self) == (CommitmentCoreContract { rate_limits: final(self).rate_limits, ..*old(self) })
            },
    {
        self.require_admin(caller)?;
        self.rate_limits.set_exempt(address, exempt);
        Ok(())
    }

    /// Whether `address` may allocate: the admin, the allocation contract,
    /// or an explicit allocator.
    pub fn is_allocator(&self, address: &String) -> (r: bool)
        ensures
            r == self.allocator(address@),
    {
        if self.is_admin_address(address) {
            return true;
        }
        if let Some(c) = &self.allocation_contract {
            if *address == *c {
                return true;
            }
        }
        self.allocators.contains(address)
    }

    /// Same as `is_allocator`.
    pub fn is_authorized(&self, contract_address: &String) -> (r: bool)
        ensures
            r == self.allocator(contract_address@),
    {
        self.is_allocator(contract_address)
    }

    /// Whether `address` may update values: the admin or an explicit updater.
    pub fn is_updater(&self, address: &String) -> (r: bool)
        ensures
            r == self.updater(address@),
    {
        self.is_admin_address(address) || self.updaters.contains(address)
    }

    /// Whether `address` is a guardian: the admin or an explicit guardian.
    pub fn is_guardian(&self, address: &String) -> (r: bool)
        ensures
            r == self.guardian(address@),
    {
        self.is_admin_address(address) || self.guardians.contains(address)
    }

    /// Whether `address` is a treasurer: the admin or an explicit treasurer.
    pub fn is_treasurer(&self, address: &String) -> (r: bool)
        ensures
            r == self.treasurer(address@),
    {
        self.is_admin_address(address) || self.treasurers.contains(address)
    }

    /// Whether `address` is an operator: the admin or an explicit operator.
    pub fn is_operator(&self, address: &String) -> (r: bool)
        ensures
            r == self.operator(address@),
    {
        self.is_admin_address(address) || self.operators.contains(address)
    }

    /// Pauses the contract; operators only.
    pub fn pause(&mut self, caller: &String) -> (r: Result<(), CoreError>)
        ensures
            r is Ok <==> old(self).operator(caller@),
            r is Err ==> r == Err::<(), CoreError>(CoreError::Contract(CommitmentError::Unauthorized))
                && *final(self) == *old(self),
            r is Ok ==> *final(self) == (CommitmentCoreContract { paused: true, ..*old(self) }),
    {
        if !self.is_operator(caller) {
            return Err(CoreError::Contract(CommitmentError::Unauthorized));
        }
        self.paused = true;
        Ok(())
    }

    /// Lifts a pause; operators only.
    pub fn unpause(&mut self, caller: &String) -> (r: Result<(), CoreError>)
        ensures
            r is Ok <==> old(self).operator(caller@),
            r is Err ==> r == Err::<(), CoreError>(CoreError::Contract(CommitmentError::Unauthorized))
                && *final(self) == *old(self),
            r is Ok ==> *final(self) == (CommitmentCoreContract { paused: false, ..*old(self) }),
    {
        if !self.is_operator(caller) {
            return Err(CoreError::Contract(CommitmentError::Unauthorized));
        }
        self.paused = false;
        Ok(())
    }

    /// Whether the contract is paused.
    pub fn is_paused(&self) -> (r: bool)
        ensures
            r == self.paused,
    {
        self.paused
    }

    /// Whether the contract is in emergency mode.
    pub fn is_emergency_mode(&self) -> (r: bool)
        ensures
            r == self.emergency_mode,
    {
        self.emergency_mode
    }

    /// Turns emergency mode on or off; guardians only.
    pub fn set_emergency_mode(&mut self, caller: &String, enabled: bool) -> (r: Result<(), CoreError>)
        ensures
            r is Ok <==> old(self).guardian(caller@),
            r is Err ==> r == Err::<(), CoreError>(CoreError::Contract(CommitmentError::Unauthorized))
                && *final(self) == *old(self),
            r is Ok ==> *final(self) == (CommitmentCoreContract { emergency_mode: enabled, ..*old(self) }),
    {
        if !self.is_guardian(caller) {
            return Err(CoreError::Contract(CommitmentError::Unauthorized));
        }
        self.emergency_mode = enabled;
        Ok(())
    }

    /// Decides an emergency withdrawal of `amount`: allowed to guardians, in
    /// emergency mode, for a positive amount. The transfer itself is made by
    /// the caller of this function; the state does not change.
    pub fn emergency_withdraw(&self, caller: &String, amount: i128) -> (r: Result<(), CoreError>)
        ensures
            !self.guardian(caller@) ==> r == Err::<(), CoreError>(
                CoreError::Contract(CommitmentError::Unauthorized),
            ),
            self.guardian(caller@) && !self.emergency_mode ==> r == Err::<(), CoreError>(
                CoreError::NotEmergencyMode,
            ),
            self.guardian(caller@) && self.emergency_mode && amount <= 0 ==> r == Err::<(), CoreError>(
                CoreError::Invalid(ValidationError::NonPositiveAmount),
            ),
            r is Ok <==> self.guardian(caller@) && self.emergency_mode && amount > 0,
    {
        if !self.is_guardian(caller) {
            return Err(CoreError::Contract(CommitmentError::Unauthorized));
        }
        if !self.emergency_mode {
            return Err(CoreError::NotEmergencyMode);
        }
        if let Err(e) = Validation::require_positive(amount) {
            return Err(CoreError::Invalid(e));
        }
        Ok(())
    }

    /// Sets the creation fee rate; treasurers only, at most 10 000 bps.
    pub fn set_creation_fee_bps(&mut self, caller: &String, bps: u32) -> (r: Result<(), CoreError>)
        requires
            old(self).wf(),
        ensures
            final(self).wf(),
            !old(self).treasurer(caller@) ==> r == Err::<(), CoreError>(
                CoreError::Contract(CommitmentError::Unauthorized),
            ),
            old(self).treasurer(caller@) && bps > 10_000 ==> r == Err::<(), CoreError>(
                CoreError::Contract(CommitmentError::InvalidFeeBps),
            ),
            r is Ok <==> old(self).treasurer(caller@) && bps <= 10_000,
            r is Err ==> *final(self) == *old(self),
            r is Ok ==> *final(self) == (CommitmentCoreContract { creation_fee_bps: bps, ..*old(self) }),
    {
        if !self.is_treasurer(caller) {
            return Err(CoreError::Contract(CommitmentError::Unauthorized));
        }
        if bps > crate::fee::MAX_FEE_BPS {
            return Err(CoreError::Contract(CommitmentError::InvalidFeeBps));
        }
        self.creation_fee_bps = bps;
        Ok(())
    }

    /// Sets the address that withdrawn fees go to; treasurers only, never the
    /// zero address.
    pub fn set_fee_recipient(&mut self, caller: &String, recipient: String) -> (r: Result<(), CoreError>)
        ensures
            !old(self).treasurer(caller@) ==> r == Err::<(), CoreError>(
                CoreError::Contract(CommitmentError::Unauthorized),
            ),
            old(self).treasurer(caller@) && recipient@ == zero_address() ==> r == Err::<(), CoreError>(
                CoreError::Contract(CommitmentError::ZeroAddress),
            ),
            r is Ok <==> old(self).treasurer(caller@) && recipient@ != zero_address(),
            r is Err ==> *final(self) == *old(self),
            r is Ok ==> *final(self) == (CommitmentCoreContract { fee_recipient: Some(recipient), ..*old(self) }),
    {
        if !self.is_treasurer(caller) {
            return Err(CoreError::Contract(CommitmentError::Unauthorized));
        }
        if is_zero_address(&recipient) {
            return Err(CoreError::Contract(CommitmentError::ZeroAddress));
        }
        self.fee_recipient = Some(recipient);
        Ok(())
    }

    /// The creation fee rate in basis points.
    pub fn get_creation_fee_bps(&self) -> (bps: u32)
        ensures
            bps == self.creation_fee_bps,
    {
        self.creation_fee_bps
    }

    /// The fee recipient, if one is set.
    pub fn get_fee_recipient(&self) -> (r: Option<String>)
        ensures
            r == self.fee_recipient,
    {
        match &self.fee_recipient {
            Some(a) => Some(a.clone()),
            None => None,
        }
    }

    /// The fees collected so far in asset `asset_address`.
    pub fn get_collected_fees(&self, asset_address: &String) -> (v: i128)
        requires
            self.wf(),
        ensures
            v == self.collected_fees.amount_of(asset_address@),
    {
        self.collected_fees.get(asset_address)
    }

    /// The creation fee on `amount` at the current rate.
    pub open spec fn creation_fee_on(&self, amount: int) -> int {
        fee_of_bps(amount, self.creation_fee_bps as int)
    }

    /// Why `create_commitment` would be refused, in the order it checks.
    pub open spec fn create_check(
        &self,
        owner: Seq<char>,
        amount: i128,
        asset: Seq<char>,
        rules: CommitmentRules,
        now: u64,
        owner_balance: i128,
    ) -> Option<CoreError> {
        let fee = self.creation_fee_on(amount as int);
        if self.reentrancy_guard {
            Some(CoreError::Contract(CommitmentError::ReentrancyDetected))
        } else if self.paused {
            Some(CoreError::Paused)
        } else if self.emergency_mode {
            Some(CoreError::EmergencyMode)
        } else if owner == zero_address() {
            Some(CoreError::Contract(CommitmentError::ZeroAddress))
        } else if !self.rate_limits.allows(owner, "create"@, now) {
            Some(CoreError::RateLimited)
        } else if amount <= 0 {
            Some(CoreError::Invalid(ValidationError::NonPositiveAmount))
        } else if rules_check(rules) is Some {
            rules_check(rules)
        } else if amount * self.creation_fee_bps > i128::MAX {
            Some(CoreError::Contract(CommitmentError::ArithmeticOverflow))
        } else if now + rules.duration_days * 86_400 > u64::MAX {
            Some(CoreError::Contract(CommitmentError::ExpirationOverflow))
        } else if owner_balance < amount {
            Some(CoreError::Contract(CommitmentError::InsufficientBalance))
        } else if self.nft_contract is None {
            Some(CoreError::Contract(CommitmentError::NotInitialized))
        } else if self.total_value_locked + (amount - fee) > i128::MAX {
            Some(CoreError::Contract(CommitmentError::ArithmeticOverflow))
        } else if fee > 0 && self.collected_fees.amount_of(asset) + fee > i128::MAX {
            Some(CoreError::Contract(CommitmentError::ArithmeticOverflow))
        } else {
            None
        }
    }

    /// What creating a commitment at time `now` does: refused, with the state
    /// unchanged, exactly when `create_check` names a reason; otherwise the
    /// commitment is appended as `c_N` and the value locked and the fees grow.
    pub open spec fn create_outcome(
        &self,
        next: &Self,
        owner: String,
        amount: i128,
        asset_address: String,
        rules: CommitmentRules,
        now: u64,
        owner_balance: i128,
        r: Result<CreatedCommitment, CoreError>,
    ) -> bool {
        &&& r is Ok <==> self.create_check(owner@, amount, asset_address@, rules, now, owner_balance) is None
        &&& r matches Err(e) ==> self.create_check(owner@, amount, asset_address@, rules, now, owner_balance)
            == Some(e) && *next == *self
        &&& r matches Ok(created) ==> {
            let n = self.commitments@.len();
            let fee = self.creation_fee_on(amount as int);
            let c = next.commitments@[n as int];
            &&& created.commitment_id@ == commitment_id_text(n)
            &&& created.creation_fee == fee
            &&& created.net_amount == amount - fee
            &&& self.nft_contract == Some(created.nft_contract)
            &&& next.commitments@.len() == n + 1
            &&& next.commitments@.take(n as int) == self.commitments@
            &&& c.commitment_id@ == commitment_id_text(n)
            &&& c.owner == owner
            &&& c.nft_token_id == 0
            &&& c.rules == rules
            &&& c.amount == amount
            &&& c.asset_address == asset_address
            &&& c.created_at == now
            &&& c.expires_at == now + rules.duration_days * 86_400
            &&& c.current_value == amount - fee
            &&& c.status == CommitmentStatus::Active
            &&& next.total_value_locked == self.total_value_locked + (amount - fee)
            &&& next.collected_fees.amount_of(asset_address@) == self.collected_fees.amount_of(asset_address@) + fee
            &&& self.rate_limits.recorded(&next.rate_limits, owner@, "create"@, now)
            &&& forall|a: Seq<char>| a != asset_address@ ==> #[trigger] next.collected_fees.amount_of(a) == self.collected_fees.amount_of(a)
            &&& next.reentrancy_guard
            &&& next.same_settings(self)
        }
    }

    /// Creates a commitment of `amount` for `owner` at time `now`, given the
    /// owner's token balance, and names it `c_N` where N is the number of
    /// commitments before it.
    ///
    /// The commitment is recorded for `amount` and holds the amount net of the
    /// creation fee, by which the value locked grows; the fee is added to the
    /// fees collected in that asset. The reentrancy guard stays set until the
    /// token transfer and the NFT mint that the result calls for are done.
    #[verifier::spinoff_prover]
    pub fn create_commitment_at(
        &mut self,
        owner: String,
        amount: i128,
        asset_address: String,
        rules: CommitmentRules,
        now: u64,
        owner_balance: i128,
    ) -> (r: Result<CreatedCommitment, CoreError>)
        requires
            old(self).wf(),
            old(self).commitments@.len() < u64::MAX,
        ensures
            final(self).wf(),
            old(self).statuses_evolve(&*final(self)),
            old(self).value_balanced() ==> final(self).value_balanced(),
            old(self).create_outcome(&*final(self), owner, amount, asset_address, rules, now, owner_balance, r),
    {
        if self.reentrancy_guard {
            return Err(CoreError::Contract(CommitmentError::ReentrancyDetected));
        }
        if self.paused {
            return Err(CoreError::Paused);
        }
        if self.emergency_mode {
            return Err(CoreError::EmergencyMode);
        }
        if is_zero_address(&owner) {
            return Err(CoreError::Contract(CommitmentError::ZeroAddress));
        }
        let create_fn = "create".to_owned();
        if !self.rate_limits.allows_call(&owner, &create_fn, now) {
            return Err(CoreError::RateLimited);
        }
        if let Err(e) = Validation::require_positive(amount) {
            return Err(CoreError::Invalid(e));
        }
        Self::validate_rules(&rules)?;
        let product = match amount.checked_mul(self.creation_fee_bps as i128) {
            Some(p) => p,
            None => return Err(CoreError::Contract(CommitmentError::ArithmeticOverflow)),
        };
        let creation_fee = product / 10_000;
        proof {
            crate::fee::lemma_fee_bounds(amount as int, self.creation_fee_bps as int);
        }
        let net_amount = amount - creation_fee;
        let expires_at = match crate::time::TimeUtils::checked_expiration_at(now, rules.duration_days) {
            Some(t) => t,
            None => return Err(CoreError::Contract(CommitmentError::ExpirationOverflow)),
        };
        if owner_balance < amount {
            return Err(CoreError::Contract(CommitmentError::InsufficientBalance));
        }
        let nft_contract = match &self.nft_contract {
            Some(a) => a.clone(),
            None => return Err(CoreError::Contract(CommitmentError::NotInitialized)),
        };
        let updated_tvl = match self.total_value_locked.checked_add(net_amount) {
            Some(v) => v,
            None => return Err(CoreError::Contract(CommitmentError::ArithmeticOverflow)),
        };
        let current_fees = self.collected_fees.get(&asset_address);
        let updated_fees = if creation_fee > 0 {
            match current_fees.checked_add(creation_fee) {
                Some(v) => v,
                None => return Err(CoreError::Contract(CommitmentError::ArithmeticOverflow)),
            }
        } else {
            current_fees
        };
        let counter = self.commitments.len() as u64;
        let commitment_id = Self::generate_commitment_id(counter);
        let commitment = Commitment {
            commitment_id: commitment_id.clone(),
            owner,
            nft_token_id: 0,
            rules,
            amount,
            asset_address: asset_address.clone(),
            created_at: now,
            expires_at,
            current_value: net_amount,
            status: CommitmentStatus::Active,
        };
        self.rate_limits.record_call(&commitment.owner, &create_fn, now);
        self.reentrancy_guard = true;
        self.commitments.push(commitment);
        self.total_value_locked = updated_tvl;
        if creation_fee > 0 {
            self.collected_fees.set(&asset_address, updated_fees);
        }
        proof {
            assert(self.commitments@.take(counter as int) =~= old(self).commitments@);
            assert forall|i: int| 0 <= i < self.commitments@.len() implies {
                &&& #[trigger] self.commitments@[i].commitment_id@ == commitment_id_text(i as nat)
                &&& self.commitments@[i].current_value >= 0
            } by {
                if i < counter {
                    assert(self.commitments@[i] == old(self).commitments@[i]);
                }
            }
            assert(self.commitments@.drop_last() =~= old(self).commitments@);
        }
        Ok(CreatedCommitment { commitment_id, net_amount, creation_fee, nft_contract })
    }

    /// Creates a commitment of `amount` for `owner` at the current ledger
    /// time, given the owner's token balance; see `create_commitment_at`.
    pub fn create_commitment(
        &mut self,
        e: &Env,
        owner: String,
        amount: i128,
        asset_address: String,
        rules: CommitmentRules,
        owner_balance: i128,
    ) -> (r: Result<CreatedCommitment, CoreError>)
        requires
            old(self).wf(),
            old(self).commitments@.len() < u64::MAX,
        ensures
            final(self).wf(),
            old(self).statuses_evolve(&*final(self)),
            old(self).value_balanced() ==> final(self).value_balanced(),
            exists|now: u64|
                old(self).create_outcome(&*final(self), owner, amount, asset_address, rules, now, owner_balance, r),
    {
        let now = TimeUtils::now(e);
        let ghost (o, a, ru) = (owner, asset_address, rules);
        let r = self.create_commitment_at(owner, amount, asset_address, rules, now, owner_balance);
        assert(old(self).create_outcome(&*self, o, amount, a, ru, now, owner_balance, r));
        r
    }

    /// Records the token id that the NFT contract minted for commitment
    /// `commitment_id`.
    pub fn set_nft_token_id(&mut self, commitment_id: &String, nft_token_id: u32) -> (r: Result<(), CoreError>)
        requires
            old(self).wf(),
        ensures
            final(self).wf(),
            old(self).statuses_evolve(&*final(self)),
            old(self).value_balanced() ==> final(self).value_balanced(),
            old(self).position(commitment_id@) is None ==> r == Err::<(), CoreError>(
                CoreError::Contract(CommitmentError::CommitmentNotFound),
            ) && *final(self) == *old(self),
            old(self).position(commitment_id@) matches Some(i) ==> r is Ok && *final(self) == (CommitmentCoreContract {
                commitments: final(self).commitments,
                ..*old(self)
            }) && final(self).commitments@ == old(self).commitments@.update(
                i,
                Commitment { nft_token_id, ..old(self).commitments@[i] },
            ),
    {
        let i = match self.find(commitment_id) {
            Some(i) => i,
            None => return Err(CoreError::Contract(CommitmentError::CommitmentNotFound)),
        };
        let mut c = self.commitments[i].clone();
        c.nft_token_id = nft_token_id;
        self.commitments.set(i, c);
        proof {
            assert forall|j: int| 0 <= j < self.commitments@.len() implies {
                &&& #[trigger] self.commitments@[j].commitment_id@ == commitment_id_text(j as nat)
                &&& self.commitments@[j].current_value >= 0
            } by {
                assert(old(self).commitments@[j].commitment_id@ == commitment_id_text(j as nat));
            }
        }
        proof {
            assert(locked_total(self.commitments@) == locked_total(old(self).commitments@)
                - locked_value(old(self).commitments@[i as int]) + locked_value(self.commitments@[i as int])) by {
                assert(self.commitments@ =~= old(self).commitments@.update(i as int, self.commitments@[i as int]));
                lemma_locked_total_update(old(self).commitments@, i as int, self.commitments@[i as int]);
            }
        }
        Ok(())
    }

    /// Clears the reentrancy guard once the external calls that an operation
    /// asked for have completed.
    pub fn release_reentrancy_guard(&mut self)
        ensures
            *final(self) == (CommitmentCoreContract { reentrancy_guard: false, ..*old(self) }),
    {
        self.reentrancy_guard = false;
    }

    /// Why `settle` would be refused at time `now`, in the order it checks.
    pub open spec fn settle_check(&self, id: Seq<char>, now: u64) -> Option<CoreError> {
        if self.reentrancy_guard {
            Some(CoreError::Contract(CommitmentError::ReentrancyDetected))
        } else if self.paused {
            Some(CoreError::Paused)
        } else if self.commitment(id) is None {
            Some(CoreError::Contract(CommitmentError::CommitmentNotFound))
        } else if now < self.commitment(id)->0.expires_at {
            Some(CoreError::Contract(CommitmentError::NotExpired))
        } else if self.commitment(id)->0.status == CommitmentStatus::Settled {
            Some(CoreError::Contract(CommitmentError::AlreadySettled))
        } else if self.commitment(id)->0.status != CommitmentStatus::Active {
            Some(CoreError::Contract(CommitmentError::NotActive))
        } else if self.nft_contract is None {
            Some(CoreError::Contract(CommitmentError::NotInitialized))
        } else {
            None
        }
    }

    /// What settling `commitment_id` at time `now` does: refused, with the
    /// state unchanged, exactly when `settle_check` names a reason; otherwise
    /// the commitment is settled and its value leaves the value locked.
    pub open spec fn settle_outcome(&self, next: &Self, commitment_id: String, now: u64, r: Result<Payout, CoreError>) -> bool {
        &&& r is Ok <==> self.settle_check(commitment_id@, now) is None
        &&& r matches Err(e) ==> self.settle_check(commitment_id@, now) == Some(e)
            && *next == *self
        &&& r matches Ok(p) ==> {
            let i = self.position(commitment_id@)->0;
            let c = self.commitments@[i];
            &&& next.commitments@ == self.commitments@.update(
                i,
                Commitment { status: CommitmentStatus::Settled, ..c },
            )
            &&& next.total_value_locked == if self.total_value_locked > c.current_value {
                self.total_value_locked - c.current_value
            } else {
                0
            }
            &&& p.recipient == c.owner
            &&& p.asset_address == c.asset_address
            &&& p.amount == c.current_value
            &&& p.nft_token_id == c.nft_token_id
            &&& self.nft_contract == Some(p.nft_contract)
            &&& next.rate_limits == self.rate_limits
            &&& next.reentrancy_guard
            &&& next.collected_fees == self.collected_fees
            &&& next.same_settings(self)
        }
    }

    /// Settles an expired active commitment at time `now`: it becomes
    /// settled, leaves its owner's list, and its current value leaves the
    /// value locked (which never drops below zero). The result is the payment
    /// of that value to the owner and the NFT to mark settled; the reentrancy
    /// guard stays set until both are done.
    pub fn settle_at(&mut self, commitment_id: &String, now: u64) -> (r: Result<Payout, CoreError>)
        requires
            old(self).wf(),
        ensures
            final(self).wf(),
            old(self).statuses_evolve(&*final(self)),
            old(self).value_balanced() ==> final(self).value_balanced(),
            old(self).settle_outcome(&*final(self), *commitment_id, now, r),
    {
        if self.reentrancy_guard {
            return Err(CoreError::Contract(CommitmentError::ReentrancyDetected));
        }
        if self.paused {
            return Err(CoreError::Paused);
        }
        let i = match self.find(commitment_id) {
            Some(i) => i,
            None => return Err(CoreError::Contract(CommitmentError::CommitmentNotFound)),
        };
        let mut c = self.commitments[i].clone();
        if now < c.expires_at {
            return Err(CoreError::Contract(CommitmentError::NotExpired));
        }
        if c.status == CommitmentStatus::Settled {
            return Err(CoreError::Contract(CommitmentError::AlreadySettled));
        }
        if c.status != CommitmentStatus::Active {
            return Err(CoreError::Contract(CommitmentError::NotActive));
        }
        let nft_contract = match &self.nft_contract {
            Some(a) => a.clone(),
            None => return Err(CoreError::Contract(CommitmentError::NotInitialized)),
        };
        let settlement_amount = c.current_value;
        let payout = Payout {
            recipient: c.owner.clone(),
            asset_address: c.asset_address.clone(),
            amount: settlement_amount,
            nft_contract,
            nft_token_id: c.nft_token_id,
        };
        c.status = CommitmentStatus::Settled;
        self.reentrancy_guard = true;
        self.commitments.set(i, c);
        let tvl = self.total_value_locked;
        self.total_value_locked = if tvl > settlement_amount { tvl - settlement_amount } else { 0 };
        proof {
            assert forall|j: int| 0 <= j < self.commitments@.len() implies {
                &&& #[trigger] self.commitments@[j].commitment_id@ == commitment_id_text(j as nat)
                &&& self.commitments@[j].current_value >= 0
            } by {
                assert(old(self).commitments@[j].commitment_id@ == commitment_id_text(j as nat));
            }
        }
        proof {
            assert(locked_total(self.commitments@) == locked_total(old(self).commitments@)
                - locked_value(old(self).commitments@[i as int]) + locked_value(self.commitments@[i as int])) by {
                assert(self.commitments@ =~= old(self).commitments@.update(i as int, self.commitments@[i as int]));
                lemma_locked_total_update(old(self).commitments@, i as int, self.commitments@[i as int]);
            }
            assert forall|j: int| 0 <= j < old(self).commitments@.len() implies #[trigger] old(self).commitments@[j].current_value >= 0 by {
                assert(old(self).commitments@[j].commitment_id@ == commitment_id_text(j as nat));
            }
            lemma_locked_total_covers(old(self).commitments@, i as int);
        }
        Ok(payout)
    }

    /// Settles an expired active commitment at the current ledger time; see
    /// `settle_at`.
    pub fn settle(&mut self, e: &Env, commitment_id: &String) -> (r: Result<Payout, CoreError>)
        requires
            old(self).wf(),
        ensures
            final(self).wf(),
            old(self).statuses_evolve(&*final(self)),
            old(self).value_balanced() ==> final(self).value_balanced(),
            exists|now: u64| old(self).settle_outcome(&*final(self), *commitment_id, now, r),
    {
        let now = TimeUtils::now(e);
        let r = self.settle_at(commitment_id, now);
        assert(old(self).settle_outcome(&*self, *commitment_id, now, r));
        r
    }

    /// Why `early_exit` by `caller` would be refused, in the order it checks.
    pub open spec fn early_exit_check(&self, id: Seq<char>, caller: Seq<char>) -> Option<CoreError> {
        if self.reentrancy_guard {
            Some(CoreError::Contract(CommitmentError::ReentrancyDetected))
        } else if self.paused {
            Some(CoreError::Paused)
        } else if self.commitment(id) is None {
            Some(CoreError::Contract(CommitmentError::CommitmentNotFound))
        } else if self.commitment(id)->0.owner@ != caller {
            Some(CoreError::Contract(CommitmentError::Unauthorized))
        } else if self.commitment(id)->0.status != CommitmentStatus::Active {
            Some(CoreError::Contract(CommitmentError::NotActive))
        } else if !self.early_exit_fits(self.commitment(id)->0) {
            Some(CoreError::Contract(CommitmentError::ArithmeticOverflow))
        } else if self.nft_contract is None {
            Some(CoreError::Contract(CommitmentError::NotInitialized))
        } else {
            None
        }
    }

    /// The arithmetic of an early exit from commitment `c` stays in range.
    pub open spec fn early_exit_fits(&self, c: Commitment) -> bool {
        &&& c.current_value * c.rules.early_exit_penalty <= i128::MAX
        &&& self.collected_fees.amount_of(c.asset_address@) + percent_of(c.current_value as int, c.rules.early_exit_penalty as int) <= i128::MAX
        &&& self.total_value_locked - c.current_value >= i128::MIN
    }

    /// Exits the owner's active commitment before maturity: the penalty
    /// (`current_value * early_exit_penalty / 100`, truncated) is added to the
    /// fees collected in its asset, the commitment is marked exited with value
    /// zero, and its whole former value leaves the value locked. The result
    /// owes the owner the value less the penalty, when positive, and names the
    /// NFT to mark inactive; the reentrancy guard stays set until both are done.
    #[verifier::spinoff_prover]
    pub fn early_exit(&mut self, commitment_id: &String, caller: &String) -> (r: Result<EarlyExitOutcome, CoreError>)
        requires
            old(self).wf(),
        ensures
            final(self).wf(),
            old(self).statuses_evolve(&*final(self)),
            old(self).value_balanced() ==> final(self).value_balanced(),
            r is Ok <==> old(self).early_exit_check(commitment_id@, caller@) is None,
            r matches Err(e) ==> old(self).early_exit_check(commitment_id@, caller@) == Some(e)
                && *final(self) == *old(self),
            r matches Ok(out) ==> {
                let i = old(self).position(commitment_id@)->0;
                let c = old(self).commitments@[i];
                let penalty = percent_of(c.current_value as int, c.rules.early_exit_penalty as int);
                &&& out.penalty == penalty
                &&& out.returned == c.current_value - penalty
                &&& final(self).commitments@ == old(self).commitments@.update(
                    i,
                    Commitment { status: CommitmentStatus::EarlyExit, current_value: 0, ..c },
                )
                &&& final(self).total_value_locked == old(self).total_value_locked - c.current_value
                &&& final(self).collected_fees.amount_of(c.asset_address@) == old(self).collected_fees.amount_of(c.asset_address@) + (if penalty > 0 { penalty } else { 0 })
                &&& forall|a: Seq<char>| a != c.asset_address@ ==> #[trigger] final(self).collected_fees.amount_of(a) == old(self).collected_fees.amount_of(a)
                &&& out.payout.recipient == c.owner
                &&& out.payout.asset_address == c.asset_address
                &&& out.payout.amount == out.returned
                &&& out.payout.nft_token_id == c.nft_token_id
                &&& final(self).rate_limits == old(self).rate_limits
                &&& old(self).nft_contract == Some(out.payout.nft_contract)
                &&& final(self).reentrancy_guard
                &&& final(self).same_settings(&*old(self))
            },
    {
        if self.reentrancy_guard {
            return Err(CoreError::Contract(CommitmentError::ReentrancyDetected));
        }
        if self.paused {
            return Err(CoreError::Paused);
        }
        let i = match self.find(commitment_id) {
            Some(i) => i,
            None => return Err(CoreError::Contract(CommitmentError::CommitmentNotFound)),
        };
        let mut c = self.commitments[i].clone();
        if c.owner != *caller {
            return Err(CoreError::Contract(CommitmentError::Unauthorized));
        }
        if c.status != CommitmentStatus::Active {
            return Err(CoreError::Contract(CommitmentError::NotActive));
        }
        proof {
            assert(c.current_value >= 0) by {
                assert(old(self).commitments@[i as int].commitment_id@ == commitment_id_text(i as nat));
            }
        }
        let product = match c.current_value.checked_mul(c.rules.early_exit_penalty as i128) {
            Some(p) => p,
            None => return Err(CoreError::Contract(CommitmentError::ArithmeticOverflow)),
        };
        proof {
            assert(0 <= c.current_value * c.rules.early_exit_penalty) by (nonlinear_arith)
                requires
                    c.current_value >= 0,
            ;
        }
        if self.collected_fees.get(&c.asset_address).checked_add(product / 100).is_none() {
            return Err(CoreError::Contract(CommitmentError::ArithmeticOverflow));
        }
        if self.total_value_locked.checked_sub(c.current_value).is_none() {
            return Err(CoreError::Contract(CommitmentError::ArithmeticOverflow));
        }
        let nft_contract = match &self.nft_contract {
            Some(a) => a.clone(),
            None => return Err(CoreError::Contract(CommitmentError::NotInitialized)),
        };
        proof {
            assert(c.current_value >= 0);
            assert(0 <= c.current_value * c.rules.early_exit_penalty) by (nonlinear_arith)
                requires
                    c.current_value >= 0,
            ;
        }
        let penalty = SafeMath::penalty_amount(c.current_value, c.rules.early_exit_penalty);
        proof {
            assert(penalty >= 0) by (nonlinear_arith)
                requires
                    penalty == (c.current_value * c.rules.early_exit_penalty) / 100,
                    c.current_value * c.rules.early_exit_penalty >= 0,
            ;
            assert(penalty <= c.current_value * c.rules.early_exit_penalty) by (nonlinear_arith)
                requires
                    penalty == (c.current_value * c.rules.early_exit_penalty) / 100,
                    c.current_value * c.rules.early_exit_penalty >= 0,
            ;
        }
        let returned = c.current_value - penalty;
        let original_val = c.current_value;
        if penalty > 0 {
            let current_fees = self.collected_fees.get(&c.asset_address);
            self.collected_fees.set(&c.asset_address, current_fees + penalty);
        }
        let payout = Payout {
            recipient: c.owner.clone(),
            asset_address: c.asset_address.clone(),
            amount: returned,
            nft_contract,
            nft_token_id: c.nft_token_id,
        };
        c.status = CommitmentStatus::EarlyExit;
        c.current_value = 0;
        self.reentrancy_guard = true;
        self.commitments.set(i, c);
        self.total_value_locked = self.total_value_locked - original_val;
        proof {
            assert forall|j: int| 0 <= j < self.commitments@.len() implies {
                &&& #[trigger] self.commitments@[j].commitment_id@ == commitment_id_text(j as nat)
                &&& self.commitments@[j].current_value >= 0
            } by {
                assert(old(self).commitments@[j].commitment_id@ == commitment_id_text(j as nat));
            }
        }
        proof {
            assert(locked_total(self.commitments@) == locked_total(old(self).commitments@)
                - locked_value(old(self).commitments@[i as int]) + locked_value(self.commitments@[i as int])) by {
                assert(self.commitments@ =~= old(self).commitments@.update(i as int, self.commitments@[i as int]));
                lemma_locked_total_update(old(self).commitments@, i as int, self.commitments@[i as int]);
            }
        }
        Ok(EarlyExitOutcome { penalty, returned, payout })
    }

    /// The loss of commitment `c` at value `value`, in whole percent; zero
    /// when the commitment was made with no amount.
    pub open spec fn loss_at(c: Commitment, value: i128) -> int {
        if c.amount > 0 {
            loss_percent_of(c.amount as int, value as int)
        } else {
            0
        }
    }

    /// The loss computation for commitment `c` at value `value` stays in range.
    pub open spec fn loss_fits(c: Commitment, value: i128) -> bool {
        c.amount > 0 ==> i128::MIN <= (c.amount - value) * 100 <= i128::MAX
    }

    fn loss_fits_exec(c: &Commitment, value: i128) -> (b: bool)
        ensures
            b == Self::loss_fits(*c, value),
    {
        if c.amount > 0 {
            match c.amount.checked_sub(value) {
                Some(d) => d.checked_mul(100).is_some(),
                None => false,
            }
        } else {
            true
        }
    }

    fn loss_of(c: &Commitment, value: i128) -> (l: i128)
        requires
            Self::loss_fits(*c, value),
        ensures
            l == Self::loss_at(*c, value),
    {
        if c.amount > 0 {
            SafeMath::loss_percent(c.amount, value)
        } else {
            0
        }
    }

    /// Why `update_value` by `caller` would be refused, in the order it checks.
    pub open spec fn update_check(&self, caller: Seq<char>, id: Seq<char>, new_value: i128, now: u64) -> Option<CoreError> {
        if !self.updater(caller) {
            Some(CoreError::Contract(CommitmentError::Unauthorized))
        } else if !self.rate_limits.allows(caller, "upd_val"@, now) {
            Some(CoreError::RateLimited)
        } else if new_value < 0 {
            Some(CoreError::Invalid(ValidationError::NegativeAmount))
        } else if self.commitment(id) is None {
            Some(CoreError::Contract(CommitmentError::CommitmentNotFound))
        } else if self.commitment(id)->0.status != CommitmentStatus::Active {
            Some(CoreError::Contract(CommitmentError::NotActive))
        } else if !(i128::MIN <= self.total_value_locked - self.commitment(id)->0.current_value)
            || !(i128::MIN <= self.total_value_locked - self.commitment(id)->0.current_value + new_value <= i128::MAX)
            || !Self::loss_fits(self.commitment(id)->0, new_value) {
            Some(CoreError::Contract(CommitmentError::ArithmeticOverflow))
        } else {
            None
        }
    }

    /// What an update of `commitment_id` to `new_value` by `caller` at time
    /// `now` does: refused, with the state unchanged, exactly when
    /// `update_check` names a reason; otherwise the value and status change
    /// and the call is counted against the caller's rate limit.
    pub open spec fn update_outcome(
        &self,
        next: &Self,
        caller: String,
        commitment_id: String,
        new_value: i128,
        now: u64,
        r: Result<ValueUpdate, CoreError>,
    ) -> bool {
        &&& r is Ok <==> self.update_check(caller@, commitment_id@, new_value, now) is None
        &&& r matches Err(e) ==> self.update_check(caller@, commitment_id@, new_value, now) == Some(e)
            && *next == *self
        &&& r matches Ok(u) ==> {
            let i = self.position(commitment_id@)->0;
            let c = self.commitments@[i];
            let violated = Self::loss_at(c, new_value) > c.rules.max_loss_percent;
            &&& u.loss_percent == Self::loss_at(c, new_value)
            &&& u.violated == violated
            &&& next.commitments@ == self.commitments@.update(
                i,
                Commitment {
                    current_value: new_value,
                    status: if violated { CommitmentStatus::Violated } else { CommitmentStatus::Active },
                    ..c
                },
            )
            &&& next.total_value_locked == self.total_value_locked - c.current_value + new_value
            &&& self.rate_limits.recorded(&next.rate_limits, caller@, "upd_val"@, now)
            &&& *next == (CommitmentCoreContract {
                commitments: next.commitments,
                total_value_locked: next.total_value_locked,
                rate_limits: next.rate_limits,
                ..*self
            })
        }
    }

    /// Sets the current value of an active commitment; updaters only. The
    /// value locked moves by the difference. When the loss against the
    /// committed amount exceeds the commitment's maximum loss, the commitment
    /// becomes violated.
    pub fn update_value_at(&mut self, caller: &String, commitment_id: &String, new_value: i128, now: u64) -> (r: Result<ValueUpdate, CoreError>)
        requires
            old(self).wf(),
        ensures
            final(self).wf(),
            old(self).statuses_evolve(&*final(self)),
            old(self).value_balanced() ==> final(self).value_balanced(),
            old(self).update_outcome(&*final(self), *caller, *commitment_id, new_value, now, r),
    {
        if !self.is_updater(caller) {
            return Err(CoreError::Contract(CommitmentError::Unauthorized));
        }
        let update_fn = "upd_val".to_owned();
        if !self.rate_limits.allows_call(caller, &update_fn, now) {
            return Err(CoreError::RateLimited);
        }
        if let Err(e) = Validation::require_non_negative(new_value) {
            return Err(CoreError::Invalid(e));
        }
        let i = match self.find(commitment_id) {
            Some(i) => i,
            None => return Err(CoreError::Contract(CommitmentError::CommitmentNotFound)),
        };
        let mut c = self.commitments[i].clone();
        if c.status != CommitmentStatus::Active {
            return Err(CoreError::Contract(CommitmentError::NotActive));
        }
        let old_value = c.current_value;
        let updated_tvl = match self.total_value_locked.checked_sub(old_value) {
            Some(v) => match v.checked_add(new_value) {
                Some(w) => w,
                None => return Err(CoreError::Contract(CommitmentError::ArithmeticOverflow)),
            },
            None => return Err(CoreError::Contract(CommitmentError::ArithmeticOverflow)),
        };
        if !Self::loss_fits_exec(&c, new_value) {
            return Err(CoreError::Contract(CommitmentError::ArithmeticOverflow));
        }
        let loss_percent = Self::loss_of(&c, new_value);
        let violated = loss_percent > c.rules.max_loss_percent as i128;
        c.current_value = new_value;
        if violated {
            c.status = CommitmentStatus::Violated;
        }
        self.commitments.set(i, c);
        self.total_value_locked = updated_tvl;
        self.rate_limits.record_call(caller, &update_fn, now);
        proof {
            assert forall|j: int| 0 <= j < self.commitments@.len() implies {
                &&& #[trigger] self.commitments@[j].commitment_id@ == commitment_id_text(j as nat)
                &&& self.commitments@[j].current_value >= 0
            } by {
                assert(old(self).commitments@[j].commitment_id@ == commitment_id_text(j as nat));
            }
        }
        proof {
            assert(locked_total(self.commitments@) == locked_total(old(self).commitments@)
                - locked_value(old(self).commitments@[i as int]) + locked_value(self.commitments@[i as int])) by {
                assert(self.commitments@ =~= old(self).commitments@.update(i as int, self.commitments@[i as int]));
                lemma_locked_total_update(old(self).commitments@, i as int, self.commitments@[i as int]);
            }
        }
        Ok(ValueUpdate { loss_percent, violated })
    }

    /// Sets the current value of an active commitment at the current ledger
    /// time; see `update_value_at`.
    pub fn update_value(&mut self, e: &Env, caller: &String, commitment_id: &String, new_value: i128) -> (r: Result<ValueUpdate, CoreError>)
        requires
            old(self).wf(),
        ensures
            final(self).wf(),
            old(self).statuses_evolve(&*final(self)),
            old(self).value_balanced() ==> final(self).value_balanced(),
            exists|now: u64| old(self).update_outcome(&*final(self), *caller, *commitment_id, new_value, now, r),
    {
        let now = TimeUtils::now(e);
        let r = self.update_value_at(caller, commitment_id, new_value, now);
        assert(old(self).update_outcome(&*self, *caller, *commitment_id, new_value, now, r));
        r
    }

    /// Whether an active commitment is in violation at time `now`: its loss
    /// exceeds its limit, or it has expired. Commitments that are not active
    /// never are.
    pub open spec fn violated_at(c: Commitment, now: u64) -> bool {
        c.status == CommitmentStatus::Active && (Self::loss_at(c, c.current_value) > c.rules.max_loss_percent
            || now >= c.expires_at)
    }

    /// What the violation check of commitment `c` at time `now` answers: not
    /// active commitments are never in violation; for an active one whose
    /// loss cannot be computed in `i128` the check fails with an overflow.
    pub open spec fn violation_check(c: Commitment, now: u64) -> Result<bool, CoreError> {
        if c.status != CommitmentStatus::Active {
            Ok(false)
        } else if !Self::loss_fits(c, c.current_value) {
            Err(CoreError::Contract(CommitmentError::ArithmeticOverflow))
        } else {
            Ok(Self::violated_at(c, now))
        }
    }

    /// What the violation report of commitment `c` at time `now` is, or an
    /// overflow when its loss cannot be computed in `i128`.
    pub open spec fn violation_details(c: Commitment, now: u64) -> Result<(bool, bool, bool, i128, u64), CoreError> {
        if !Self::loss_fits(c, c.current_value) {
            Err(CoreError::Contract(CommitmentError::ArithmeticOverflow))
        } else {
            Ok(Self::violation_report(c, now))
        }
    }

    /// Whether commitment `commitment_id` is in violation at time `now`.
    pub fn check_violations_at(&self, commitment_id: &String, now: u64) -> (r: Result<bool, CoreError>)
        requires
            self.wf(),
        ensures
            self.commitment(commitment_id@) is None ==> r == Err::<bool, CoreError>(
                CoreError::Contract(CommitmentError::CommitmentNotFound),
            ),
            self.commitment(commitment_id@) matches Some(c) ==> r == Self::violation_check(c, now),
    {
        let i = match self.find(commitment_id) {
            Some(i) => i,
            None => return Err(CoreError::Contract(CommitmentError::CommitmentNotFound)),
        };
        let c = &self.commitments[i];
        if c.status != CommitmentStatus::Active {
            return Ok(false);
        }
        if !Self::loss_fits_exec(c, c.current_value) {
            return Err(CoreError::Contract(CommitmentError::ArithmeticOverflow));
        }
        let loss_percent = Self::loss_of(c, c.current_value);
        Ok(loss_percent > c.rules.max_loss_percent as i128 || now >= c.expires_at)
    }

    /// Whether commitment `commitment_id` is in violation at the current
    /// ledger time; see `check_violations_at`.
    pub fn check_violations(&self, e: &Env, commitment_id: &String) -> (r: Result<bool, CoreError>)
        requires
            self.wf(),
        ensures
            self.commitment(commitment_id@) is None ==> r == Err::<bool, CoreError>(
                CoreError::Contract(CommitmentError::CommitmentNotFound),
            ),
            self.commitment(commitment_id@) matches Some(c) ==> exists|now: u64|
                r == #[trigger] Self::violation_check(c, now),
    {
        let now = TimeUtils::now(e);
        self.check_violations_at(commitment_id, now)
    }

    /// The violation report of commitment `c` at time `now`: any violation,
    /// loss violation, expiry, loss in percent, seconds left.
    pub open spec fn violation_report(c: Commitment, now: u64) -> (bool, bool, bool, i128, u64) {
        let loss = Self::loss_at(c, c.current_value);
        let loss_violated = loss > c.rules.max_loss_percent;
        let duration_violated = now >= c.expires_at;
        (
            loss_violated || duration_violated,
            loss_violated,
            duration_violated,
            loss as i128,
            if c.expires_at > now { (c.expires_at - now) as u64 } else { 0 },
        )
    }

    /// The violation report of commitment `commitment_id` at time `now`,
    /// whatever its status.
    pub fn get_violation_details_at(&self, commitment_id: &String, now: u64) -> (r: Result<(bool, bool, bool, i128, u64), CoreError>)
        requires
            self.wf(),
        ensures
            self.commitment(commitment_id@) is None ==> r == Err::<(bool, bool, bool, i128, u64), CoreError>(
                CoreError::Contract(CommitmentError::CommitmentNotFound),
            ),
            self.commitment(commitment_id@) matches Some(c) ==> r == Self::violation_details(c, now),
    {
        let i = match self.find(commitment_id) {
            Some(i) => i,
            None => return Err(CoreError::Contract(CommitmentError::CommitmentNotFound)),
        };
        let c = &self.commitments[i];
        if !Self::loss_fits_exec(c, c.current_value) {
            return Err(CoreError::Contract(CommitmentError::ArithmeticOverflow));
        }
        let loss_percent = Self::loss_of(c, c.current_value);
        let loss_violated = loss_percent > c.rules.max_loss_percent as i128;
        let duration_violated = now >= c.expires_at;
        let time_remaining = c.expires_at.saturating_sub(now);
        Ok((loss_violated || duration_violated, loss_violated, duration_violated, loss_percent, time_remaining))
    }

    /// The violation report of commitment `commitment_id` at the current
    /// ledger time; see `get_violation_details_at`.
    pub fn get_violation_details(&self, e: &Env, commitment_id: &String) -> (r: Result<(bool, bool, bool, i128, u64), CoreError>)
        requires
            self.wf(),
        ensures
            self.commitment(commitment_id@) is None ==> r == Err::<(bool, bool, bool, i128, u64), CoreError>(
                CoreError::Contract(CommitmentError::CommitmentNotFound),
            ),
            self.commitment(commitment_id@) matches Some(c) ==> exists|now: u64|
                r == #[trigger] Self::violation_details(c, now),
    {
        let now = TimeUtils::now(e);
        self.get_violation_details_at(commitment_id, now)
    }

    /// Why `allocate` by `caller` would be refused, in the order it checks.
    pub open spec fn allocate_check(&self, caller: Seq<char>, id: Seq<char>, target_pool: Seq<char>, amount: i128, now: u64) -> Option<CoreError> {
        if self.reentrancy_guard {
            Some(CoreError::Contract(CommitmentError::ReentrancyDetected))
        } else if self.paused {
            Some(CoreError::Paused)
        } else if !self.allocator(caller) {
            Some(CoreError::Contract(CommitmentError::Unauthorized))
        } else if !self.rate_limits.allows(target_pool, "alloc"@, now) {
            Some(CoreError::RateLimited)
        } else if amount <= 0 {
            Some(CoreError::Contract(CommitmentError::InvalidAmount))
        } else if self.commitment(id) is None {
            Some(CoreError::Contract(CommitmentError::CommitmentNotFound))
        } else if self.commitment(id)->0.status != CommitmentStatus::Active {
            Some(CoreError::Contract(CommitmentError::NotActive))
        } else if self.commitment(id)->0.current_value < amount {
            Some(CoreError::Contract(CommitmentError::InsufficientBalance))
        } else if self.total_value_locked - amount < i128::MIN {
            Some(CoreError::Contract(CommitmentError::ArithmeticOverflow))
        } else {
            None
        }
    }

    /// What moving `amount` of `commitment_id` to `target_pool` at time `now`
    /// does: refused, with the state unchanged, exactly when `allocate_check`
    /// names a reason; otherwise the value moves out and the call is counted
    /// against the pool's rate limit.
    pub open spec fn allocate_outcome(
        &self,
        next: &Self,
        caller: String,
        commitment_id: String,
        target_pool: String,
        amount: i128,
        now: u64,
        r: Result<String, CoreError>,
    ) -> bool {
        &&& r is Ok <==> self.allocate_check(caller@, commitment_id@, target_pool@, amount, now) is None
        &&& r matches Err(e) ==> self.allocate_check(caller@, commitment_id@, target_pool@, amount, now) == Some(e)
            && *next == *self
        &&& r matches Ok(asset) ==> {
            let i = self.position(commitment_id@)->0;
            let c = self.commitments@[i];
            &&& asset == c.asset_address
            &&& next.commitments@ == self.commitments@.update(
                i,
                Commitment { current_value: (c.current_value - amount) as i128, ..c },
            )
            &&& next.total_value_locked == self.total_value_locked - amount
            &&& self.rate_limits.recorded(&next.rate_limits, target_pool@, "alloc"@, now)
            &&& *next == (CommitmentCoreContract {
                commitments: next.commitments,
                total_value_locked: next.total_value_locked,
                reentrancy_guard: true,
                rate_limits: next.rate_limits,
                ..*self
            })
        }
    }

    /// Moves `amount` of an active commitment's value to a pool; allocators
    /// only. The commitment's value and the value locked both drop by
    /// `amount`; the result is the asset to transfer, and the reentrancy
    /// guard stays set until the transfer is done.
    pub fn allocate_at(
        &mut self,
        caller: &String,
        commitment_id: &String,
        target_pool: &String,
        amount: i128,
        now: u64,
    ) -> (r: Result<String, CoreError>)
        requires
            old(self).wf(),
        ensures
            final(self).wf(),
            old(self).statuses_evolve(&*final(self)),
            old(self).value_balanced() ==> final(self).value_balanced(),
            old(self).allocate_outcome(&*final(self), *caller, *commitment_id, *target_pool, amount, now, r),
            r is Ok ==> (old(self).commitment(commitment_id@) matches Some(c) && c.status == CommitmentStatus::Active
                && 0 < amount <= c.current_value),
    {
        if self.reentrancy_guard {
            return Err(CoreError::Contract(CommitmentError::ReentrancyDetected));
        }
        if self.paused {
            return Err(CoreError::Paused);
        }
        if !self.is_allocator(caller) {
            return Err(CoreError::Contract(CommitmentError::Unauthorized));
        }
        let allocate_fn = "alloc".to_owned();
        if !self.rate_limits.allows_call(target_pool, &allocate_fn, now) {
            return Err(CoreError::RateLimited);
        }
        if amount <= 0 {
            return Err(CoreError::Contract(CommitmentError::InvalidAmount));
        }
        let i = match self.find(commitment_id) {
            Some(i) => i,
            None => return Err(CoreError::Contract(CommitmentError::CommitmentNotFound)),
        };
        let mut c = self.commitments[i].clone();
        if c.status != CommitmentStatus::Active {
            return Err(CoreError::Contract(CommitmentError::NotActive));
        }
        if c.current_value < amount {
            return Err(CoreError::Contract(CommitmentError::InsufficientBalance));
        }
        let updated_tvl = match self.total_value_locked.checked_sub(amount) {
            Some(v) => v,
            None => return Err(CoreError::Contract(CommitmentError::ArithmeticOverflow)),
        };
        let asset = c.asset_address.clone();
        c.current_value = c.current_value - amount;
        self.reentrancy_guard = true;
        self.commitments.set(i, c);
        self.total_value_locked = updated_tvl;
        self.rate_limits.record_call(target_pool, &allocate_fn, now);
        proof {
            assert forall|j: int| 0 <= j < self.commitments@.len() implies {
                &&& #[trigger] self.commitments@[j].commitment_id@ == commitment_id_text(j as nat)
                &&& self.commitments@[j].current_value >= 0
            } by {
                assert(old(self).commitments@[j].commitment_id@ == commitment_id_text(j as nat));
            }
        }
        proof {
            assert(locked_total(self.commitments@) == locked_total(old(self).commitments@)
                - locked_value(old(self).commitments@[i as int]) + locked_value(self.commitments@[i as int])) by {
                assert(self.commitments@ =~= old(self).commitments@.update(i as int, self.commitments@[i as int]));
                lemma_locked_total_update(old(self).commitments@, i as int, self.commitments@[i as int]);
            }
        }
        Ok(asset)
    }

    /// Moves `amount` of an active commitment's value to `target_pool` at the
    /// current ledger time; see `allocate_at`.
    pub fn allocate(
        &mut self,
        e: &Env,
        caller: &String,
        commitment_id: &String,
        target_pool: &String,
        amount: i128,
    ) -> (r: Result<String, CoreError>)
        requires
            old(self).wf(),
        ensures
            final(self).wf(),
            old(self).statuses_evolve(&*final(self)),
            old(self).value_balanced() ==> final(self).value_balanced(),
            exists|now: u64| old(self).allocate_outcome(&*final(self), *caller, *commitment_id, *target_pool, amount, now, r),
    {
        let now = TimeUtils::now(e);
        let r = self.allocate_at(caller, commitment_id, target_pool, amount, now);
        assert(old(self).allocate_outcome(&*self, *caller, *commitment_id, *target_pool, amount, now, r));
        r
    }

    /// Why `withdraw_fees` by `caller` would be refused, in the order it checks.
    pub open spec fn withdraw_check(&self, caller: Seq<char>, asset: Seq<char>, amount: i128) -> Option<CoreError> {
        if self.reentrancy_guard {
            Some(CoreError::Contract(CommitmentError::ReentrancyDetected))
        } else if !self.treasurer(caller) {
            Some(CoreError::Contract(CommitmentError::Unauthorized))
        } else if amount <= 0 {
            Some(CoreError::Invalid(ValidationError::NonPositiveAmount))
        } else if self.fee_recipient is None {
            Some(CoreError::Contract(CommitmentError::FeeRecipientNotSet))
        } else if self.collected_fees.amount_of(asset) < amount {
            Some(CoreError::Contract(CommitmentError::InsufficientFees))
        } else {
            None
        }
    }

    /// Takes `amount` out of the fees collected in `asset_address`;
    /// treasurers only. The result is the fee recipient to pay, and the
    /// reentrancy guard stays set until the payment is done.
    pub fn withdraw_fees(&mut self, caller: &String, asset_address: &String, amount: i128) -> (r: Result<String, CoreError>)
        requires
            old(self).wf(),
        ensures
            final(self).wf(),
            old(self).value_balanced() ==> final(self).value_balanced(),
            r is Ok <==> old(self).withdraw_check(caller@, asset_address@, amount) is None,
            r matches Err(e) ==> old(self).withdraw_check(caller@, asset_address@, amount) == Some(e)
                && *final(self) == *old(self),
            r matches Ok(recipient) ==> {
                &&& old(self).fee_recipient == Some(recipient)
                &&& final(self).collected_fees.amount_of(asset_address@) == old(self).collected_fees.amount_of(asset_address@) - amount
                &&& forall|a: Seq<char>| a != asset_address@ ==> #[trigger] final(self).collected_fees.amount_of(a) == old(self).collected_fees.amount_of(a)
                &&& final(self).commitments == old(self).commitments
                &&& final(self).rate_limits == old(self).rate_limits
                &&& final(self).total_value_locked == old(self).total_value_locked
                &&& final(self).reentrancy_guard
                &&& final(self).same_settings(&*old(self))
            },
    {
        if self.reentrancy_guard {
            return Err(CoreError::Contract(CommitmentError::ReentrancyDetected));
        }
        if !self.is_treasurer(caller) {
            return Err(CoreError::Contract(CommitmentError::Unauthorized));
        }
        if let Err(e) = Validation::require_positive(amount) {
            return Err(CoreError::Invalid(e));
        }
        let recipient = match &self.fee_recipient {
            Some(a) => a.clone(),
            None => return Err(CoreError::Contract(CommitmentError::FeeRecipientNotSet)),
        };
        let collected = self.collected_fees.get(asset_address);
        if collected < amount {
            return Err(CoreError::Contract(CommitmentError::InsufficientFees));
        }
        self.reentrancy_guard = true;
        self.collected_fees.set(asset_address, collected - amount);
        Ok(recipient)
    }
}

/// While the value locked balances what the commitments hold, it covers
/// what any single commitment holds, so settling one never has to clamp the
/// value locked at zero.
pub proof fn law_value_locked_covers_each_commitment(s: CommitmentCoreContract, i: int)
    requires
        s.wf(),
        s.value_balanced(),
        0 <= i < s.commitments@.len(),
    ensures
        locked_value(s.commitments@[i]) <= s.total_value_locked,
{
    assert forall|j: int| 0 <= j < s.commitments@.len() implies #[trigger] s.commitments@[j].current_value >= 0 by {
        assert(s.commitments@[j].commitment_id@ == commitment_id_text(j as nat));
    }
    lemma_locked_total_covers(s.commitments@, i);
}

/// Two different commitments never share an id.
pub proof fn law_commitment_ids_unique(s: CommitmentCoreContract, i: int, j: int)
    requires
        s.wf(),
        0 <= i < s.commitments@.len(),
        0 <= j < s.commitments@.len(),
        i != j,
    ensures
        s.commitments@[i].commitment_id@ != s.commitments@[j].commitment_id@,
{
    assert(s.commitments@[i].commitment_id@ == commitment_id_text(i as nat));
    assert(s.commitments@[j].commitment_id@ == commitment_id_text(j as nat));
    law_ids_unique("c_"@, i as nat, j as nat);
}

/// The evolution of commitments composes over any sequence of operations.
pub proof fn law_status_evolution_composes(
    a: CommitmentCoreContract,
    b: CommitmentCoreContract,
    c: CommitmentCoreContract,
)
    requires
        a.statuses_evolve(&b),
        b.statuses_evolve(&c),
    ensures
        a.statuses_evolve(&c),
{
    assert forall|i: int| 0 <= i < a.commitments@.len() implies {
        &&& #[trigger] c.commitments@[i].commitment_id == a.commitments@[i].commitment_id
        &&& c.commitments@[i].owner == a.commitments@[i].owner
        &&& c.commitments@[i].amount == a.commitments@[i].amount
        &&& (a.commitments@[i].status != CommitmentStatus::Active
            ==> c.commitments@[i].status == a.commitments@[i].status)
    } by {
        assert(b.commitments@[i].commitment_id == a.commitments@[i].commitment_id);
        assert(i < b.commitments@.len());
        assert(c.commitments@[i].commitment_id == b.commitments@[i].commitment_id);
    }
}

/// Settled, exited and violated commitments stay so: a commitment that is
/// not active in one state has the same status in every later state.
pub proof fn law_terminal_status_is_final(
    before: CommitmentCoreContract,
    after: CommitmentCoreContract,
    i: int,
)
    requires
        before.statuses_evolve(&after),
        0 <= i < before.commitments@.len(),
        before.commitments@[i].status != CommitmentStatus::Active,
    ensures
        after.commitments@[i].status == before.commitments@[i].status,
{
    assert(after.commitments@[i].commitment_id == before.commitments@[i].commitment_id);
}

/// The violation check and the violation report agree: an active
/// commitment is in violation exactly when its report says so, and a
/// commitment that is not active never is.
pub proof fn law_violation_check_matches_report(c: Commitment, now: u64)
    ensures
        c.status == CommitmentStatus::Active ==> CommitmentCoreContract::violated_at(c, now)
            == CommitmentCoreContract::violation_report(c, now).0,
        c.status != CommitmentStatus::Active ==> !CommitmentCoreContract::violated_at(c, now),
{
}


/// A page never holds more ids than the limit asked for, nor more than
/// `MAX_PAGE_SIZE`; it lists the ids from `offset` on in order, and when
/// `offset` is within the list and the limit within the cap it holds exactly
/// `min(limit, total - offset)` ids.
pub proof fn law_page_bounds(all: Seq<String>, offset: u32, limit: u32)
    ensures
        page_of(all, offset, limit).len() <= limit,
        page_of(all, offset, limit).len() <= MAX_PAGE_SIZE,
        forall|k: int| 0 <= k < page_of(all, offset, limit).len() ==> #[trigger] page_of(all, offset, limit)[k] == all[offset + k],
        offset < all.len() && limit <= MAX_PAGE_SIZE ==> page_of(all, offset, limit).len() == if limit < all.len() - offset {
            limit as int
        } else {
            all.len() - offset
        },
        offset >= all.len() || limit == 0 ==> page_of(all, offset, limit).len() == 0,
{
}

/// Only an active commitment can be allocated from, and only up to what it
/// holds: a successful allocation found the commitment active with at least
/// `amount` in it, and a commitment that is settled, exited or violated is
/// always refused.
pub proof fn law_allocate_only_from_active(
    s: CommitmentCoreContract,
    next: CommitmentCoreContract,
    caller: String,
    commitment_id: String,
    target_pool: String,
    amount: i128,
    now: u64,
    r: Result<String, CoreError>,
)
    requires
        s.allocate_outcome(&next, caller, commitment_id, target_pool, amount, now, r),
    ensures
        r is Ok ==> (s.commitment(commitment_id@) matches Some(c) && c.status == CommitmentStatus::Active
            && 0 < amount <= c.current_value),
        (s.commitment(commitment_id@) matches Some(c) && c.status != CommitmentStatus::Active) ==> r is Err,
{
}

/// An update is refused for overflow only when the loss itself cannot be
/// computed: an updater's update of an active commitment to a non-negative
/// value succeeds whenever `(amount - new_value) * 100` and the new value
/// locked fit in `i128`, gains above the committed amount included. A gain
/// gives a loss of at most zero and never violates the commitment, and the
/// value locked moves by the difference.
pub proof fn law_update_refused_only_for_real_overflow(
    s: CommitmentCoreContract,
    next: CommitmentCoreContract,
    caller: String,
    commitment_id: String,
    new_value: i128,
    now: u64,
    r: Result<ValueUpdate, CoreError>,
)
    requires
        s.update_outcome(&next, caller, commitment_id, new_value, now, r),
        s.updater(caller@),
        s.rate_limits.allows(caller@, "upd_val"@, now),
        s.commitment(commitment_id@) is Some,
        s.commitment(commitment_id@)->0.status == CommitmentStatus::Active,
        0 <= new_value,
        -i128::MAX <= (s.commitment(commitment_id@)->0.amount - new_value) * 100 <= i128::MAX,
        i128::MIN <= s.total_value_locked - s.commitment(commitment_id@)->0.current_value,
        s.total_value_locked - s.commitment(commitment_id@)->0.current_value + new_value <= i128::MAX,
    ensures
        r is Ok,
        next.total_value_locked == s.total_value_locked - s.commitment(commitment_id@)->0.current_value + new_value,
        r matches Ok(u) ==> (new_value >= s.commitment(commitment_id@)->0.amount ==> u.loss_percent <= 0
            && !u.violated),
{
    let c = s.commitment(commitment_id@)->0;
    if c.amount > 0 && new_value >= c.amount {
        let x = (c.amount - new_value) * 100;
        assert((-x) / (c.amount as int) >= 0) by (nonlinear_arith)
            requires
                -x >= 0,
                c.amount > 0,
        ;
    }
}

/// The violation check and report of an active commitment fail for overflow
/// only when its loss cannot be computed in `i128`; a commitment worth at
/// least what was committed is in violation exactly when it has expired.
pub proof fn law_violation_check_refused_only_for_real_overflow(c: Commitment, now: u64)
    requires
        c.status == CommitmentStatus::Active,
        -i128::MAX <= (c.amount - c.current_value) * 100 <= i128::MAX,
    ensures
        CommitmentCoreContract::violation_check(c, now) is Ok,
        CommitmentCoreContract::violation_details(c, now) is Ok,
        c.current_value >= c.amount ==> CommitmentCoreContract::violation_check(c, now) == Ok::<bool, CoreError>(
            now >= c.expires_at,
        ),
{
    if c.amount > 0 && c.current_value >= c.amount {
        let x = (c.amount - c.current_value) * 100;
        assert((-x) / (c.amount as int) >= 0) by (nonlinear_arith)
            requires
                -x >= 0,
                c.amount > 0,
        ;
    }
}

/// A commitment is settled only once it has expired: a successful
/// settlement at time `now` found the commitment active with `now` at or
/// after its expiry, and with the guard down and the contract not paused a
/// settlement before expiry is refused with `NotExpired`.
pub proof fn law_settle_waits_for_expiry(
    s: CommitmentCoreContract,
    next: CommitmentCoreContract,
    commitment_id: String,
    now: u64,
    r: Result<Payout, CoreError>,
)
    requires
        s.settle_outcome(&next, commitment_id, now, r),
    ensures
        r is Ok ==> (s.commitment(commitment_id@) matches Some(c) && c.status == CommitmentStatus::Active
            && now >= c.expires_at),
        (!s.reentrancy_guard && !s.paused && (s.commitment(commitment_id@) matches Some(c) && now < c.expires_at))
            ==> r == Err::<Payout, CoreError>(CoreError::Contract(CommitmentError::NotExpired)),
{
}

} // verus!
