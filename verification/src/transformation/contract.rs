use vstd::prelude::*;
use soroban_sdk::Env;
use crate::time::TimeUtils;
use crate::ids::{format_id, format_sub_id, id_text, law_ids_unique, law_sub_id_differs_from_id, law_sub_ids_unique, sub_id_text};
use crate::keyed::{Keyed, find_first, lookup, upsert};
use crate::registry::{AddressSet, AssetLedger};
use crate::transformation::error::TransformationError;
use crate::transformation::types::{
    CollateralizedAsset, IdList, ProtocolGuarantee, RiskTranche, SecondaryInstrument,
    TrancheSet, TrancheStatus, TransformFailure,
};
use crate::validation::{ValidationError, Validation};

verus! {

/// The ids listed under key `k`, or none.
pub open spec fn ids_for(lists: Seq<IdList>, k: Seq<char>) -> Seq<String> {
    match lookup(lists, k) {
        Some(l) => l.ids@,
        None => Seq::empty(),
    }
}

/// The sum of a list of basis-point shares.
pub open spec fn bps_total(s: Seq<u32>) -> int
    decreases s.len(),
{
    if s.len() == 0 {
        0
    } else {
        bps_total(s.drop_last()) + s.last()
    }
}

/// The amount of a tranche holding `bps` basis points of `net`.
pub open spec fn tranche_amount(net: int, bps: int) -> int {
    (net * bps) / 10_000
}

/// The id of tranche `k` of the tranche set made at counter value `n`:
/// `t<10n+k>` for the first ten tranches of a set, `t<n>_<k>` for the rest.
pub open spec fn tranche_id_text(n: nat, k: nat) -> Seq<char> {
    if k < 10 {
        id_text("t"@, n * 10 + k)
    } else {
        sub_id_text("t"@, n, k)
    }
}

fn clone_ids(v: &Vec<String>) -> (r: Vec<String>)
    ensures
        r@ == v@,
{
    let mut r: Vec<String> = Vec::new();
    let mut i: usize = 0;
    while i < v.len()
        invariant
            0 <= i <= v@.len(),
            r@ == v@.take(i as int),
        decreases v@.len() - i,
    {
        r.push(v[i].clone());
        assert(r@ =~= v@.take(i + 1));
        i = i + 1;
    }
    assert(v@.take(i as int) =~= v@);
    r
}

/// Appends `id` to the list kept under `k`; other lists are unchanged.
fn append_id(lists: &mut Vec<IdList>, k: &String, id: String)
    ensures
        forall|q: Seq<char>| #[trigger] ids_for(final(lists)@, q) == if q == k@ {
            ids_for(old(lists)@, k@).push(id)
        } else {
            ids_for(old(lists)@, q)
        },
{
    let mut ids = match find_first(lists, k) {
        Some(i) => clone_ids(&lists[i].ids),
        None => Vec::new(),
    };
    assert(ids@ == ids_for(old(lists)@, k@));
    ids.push(id);
    let entry = IdList { commitment_id: k.clone(), ids };
    upsert(lists, entry);
}

/// What remains to be done after `create_tranches` succeeds: collect
/// `fee_amount` of the fee asset from the caller when it is positive.
pub struct CreatedTranches {
    pub transformation_id: String,
    pub fee_amount: i128,
}

/// The state of the commitment transformation contract. A single counter
/// numbers tranche sets, collateral, instruments and guarantees alike.
pub struct CommitmentTransformationContract {
    pub admin: Option<String>,
    pub core_contract: Option<String>,
    pub transformation_fee_bps: u32,
    pub reentrancy_guard: bool,
    pub counter: u64,
    pub tranche_sets: Vec<TrancheSet>,
    pub tranches: Vec<RiskTranche>,
    pub collateral: Vec<CollateralizedAsset>,
    pub instruments: Vec<SecondaryInstrument>,
    pub guarantees: Vec<ProtocolGuarantee>,
    pub set_lists: Vec<IdList>,
    pub collateral_lists: Vec<IdList>,
    pub instrument_lists: Vec<IdList>,
    pub guarantee_lists: Vec<IdList>,
    pub transformers: AddressSet,
    pub fee_recipient: Option<String>,
    pub collected_fees: AssetLedger,
}

impl CommitmentTransformationContract {
    /// The state is consistent: the fee rate is at most 10 000 bps, the fee
    /// ledger names each asset once, no tranche is stored yet under a name
    /// that a later tranche set may use, and before initialization there are
    /// no transformers and the counter is zero.
    pub open spec fn wf(&self) -> bool {
        &&& self.transformation_fee_bps <= 10_000
        &&& self.collected_fees.wf()
        &&& forall|n: nat, k: nat|
            n >= self.counter ==> #[trigger] lookup(self.tranches@, tranche_id_text(n, k)) is None
        &&& self.admin is None ==> self.counter == 0 && forall|x: Seq<char>| !#[trigger] self.transformers.has(x)
    }

    /// Replacing the stored tranche named `id`, which exists, keeps the state
    /// consistent.
    proof fn lemma_tranche_rewrite_keeps_wf(&self, next: &Self, id: Seq<char>)
        requires
            self.wf(),
            lookup(self.tranches@, id) is Some,
            lookup(next.tranches@, id) is Some,
            forall|q: Seq<char>| q != id ==> #[trigger] lookup(next.tranches@, q) == lookup(self.tranches@, q),
            *next == (CommitmentTransformationContract { tranches: next.tranches, ..*self }),
        ensures
            next.wf(),
    {
        assert forall|n: nat, k: nat| n >= next.counter implies #[trigger] lookup(next.tranches@, tranche_id_text(n, k)) is None by {
            assert(lookup(self.tranches@, tranche_id_text(n, k)) is None);
            if tranche_id_text(n, k) != id {
                assert(lookup(next.tranches@, tranche_id_text(n, k)) == lookup(self.tranches@, tranche_id_text(n, k)));
            }
        }
    }

    pub open spec fn is_admin(&self, x: Seq<char>) -> bool {
        self.admin matches Some(a) && a@ == x
    }

    /// `x` may transform commitments: the admin or an authorized transformer.
    pub open spec fn authorized(&self, x: Seq<char>) -> bool {
        self.is_admin(x) || self.transformers.has(x)
    }

    /// Whether an admin-only call by `caller` is refused, and why.
    pub open spec fn admin_check(&self, caller: Seq<char>) -> Option<TransformFailure> {
        if self.admin is None {
            Some(TransformFailure::Contract(TransformationError::NotInitialized))
        } else if !self.is_admin(caller) {
            Some(TransformFailure::Contract(TransformationError::Unauthorized))
        } else {
            None
        }
    }

    /// The contract before `initialize`.
    pub fn new() -> (s: Self)
        ensures
            s.wf(),
            s.admin is None,
            s.counter == 0,
            s.transformation_fee_bps == 0,
            !s.reentrancy_guard,
    {
        CommitmentTransformationContract {
            admin: None,
            core_contract: None,
            transformation_fee_bps: 0,
            reentrancy_guard: false,
            counter: 0,
            tranche_sets: Vec::new(),
            tranches: Vec::new(),
            collateral: Vec::new(),
            instruments: Vec::new(),
            guarantees: Vec::new(),
            set_lists: Vec::new(),
            collateral_lists: Vec::new(),
            instrument_lists: Vec::new(),
            guarantee_lists: Vec::new(),
            transformers: AddressSet::new(),
            fee_recipient: None,
            collected_fees: AssetLedger::new(),
        }
    }

    fn require_admin(&self, caller: &String) -> (r: Result<(), TransformFailure>)
        ensures
            r is Ok <==> self.admin_check(caller@) is None,
            r matches Err(e) ==> self.admin_check(caller@) == Some(e),
    {
        match &self.admin {
            None => Err(TransformFailure::Contract(TransformationError::NotInitialized)),
            Some(a) => {
                if *caller != *a {
                    Err(TransformFailure::Contract(TransformationError::Unauthorized))
                } else {
                    Ok(())
                }
            },
        }
    }

    fn is_authorized(&self, caller: &String) -> (r: bool)
        ensures
            r == self.authorized(caller@),
    {
        let admin_match = match &self.admin {
            Some(a) => *caller == *a,
            None => false,
        };
        admin_match || self.transformers.contains(caller)
    }

    /// Sets the admin and the core contract, once.
    pub fn initialize(&mut self, admin: String, core_contract: String) -> (r: Result<(), TransformFailure>)
        requires
            old(self).wf(),
        ensures
            final(self).wf(),
            old(self).admin is Some ==> r == Err::<(), TransformFailure>(
                TransformFailure::Contract(TransformationError::AlreadyInitialized),
            ) && *final(self) == *old(self),
            old(self).admin is None ==> r is Ok && *final(self) == (CommitmentTransformationContract {
                admin: Some(admin),
                core_contract: Some(core_contract),
                transformation_fee_bps: 0,
                counter: 0,
                ..*old(self)
            }),
    {
        if self.admin.is_some() {
            return Err(TransformFailure::Contract(TransformationError::AlreadyInitialized));
        }
        self.admin = Some(admin);
        self.core_contract = Some(core_contract);
        self.transformation_fee_bps = 0;
        self.counter = 0;
        Ok(())
    }

    /// Sets the transformation fee rate; admin only, at most 10 000 bps.
    pub fn set_transformation_fee(&mut self, caller: &String, fee_bps: u32) -> (r: Result<(), TransformFailure>)
        requires
            old(self).wf(),
        ensures
            final(self).wf(),
            old(self).admin_check(caller@) matches Some(e) ==> r == Err::<(), TransformFailure>(e),
            old(self).admin_check(caller@) is None && fee_bps > 10_000 ==> r == Err::<(), TransformFailure>(
                TransformFailure::Contract(TransformationError::InvalidFeeBps),
            ),
            r is Ok <==> old(self).admin_check(caller@) is None && fee_bps <= 10_000,
            r is Err ==> *final(self) == *old(self),
            r is Ok ==> *final(self) == (CommitmentTransformationContract { transformation_fee_bps: fee_bps, ..*old(self) }),
    {
        self.require_admin(caller)?;
        if fee_bps > 10000 {
            return Err(TransformFailure::Contract(TransformationError::InvalidFeeBps));
        }
        self.transformation_fee_bps = fee_bps;
        Ok(())
    }

    /// Grants (`allowed`) or withdraws the transformer role of `transformer`;
    /// admin only.
    pub fn set_authorized_transformer(&mut self, caller: &String, transformer: &String, allowed: bool) -> (r: Result<(), TransformFailure>)
        requires
            old(self).wf(),
        ensures
            final(self).wf(),
            r is Ok <==> old(self).admin_check(caller@) is None,
            r matches Err(e) ==> old(self).admin_check(caller@) == Some(e) && *final(self) == *old(self),
            r is Ok ==> *final(self) == (CommitmentTransformationContract { transformers: final(self).transformers, ..*old(self) })
                && forall|y: Seq<char>| #[trigger] final(self).transformers.has(y) == if y == transformer@ {
                    allowed
                } else {
                    old(self).transformers.has(y)
                },
    {
        self.require_admin(caller)?;
        if allowed {
            self.transformers.insert(transformer);
        } else {
            self.transformers.remove(transformer);
        }
        Ok(())
    }

    /// Sets the fee recipient; admin only.
    pub fn set_fee_recipient(&mut self, caller: &String, recipient: String) -> (r: Result<(), TransformFailure>)
        ensures
            r is Ok <==> old(self).admin_check(caller@) is None,
            r matches Err(e) ==> old(self).admin_check(caller@) == Some(e) && *final(self) == *old(self),
            r is Ok ==> *final(self) == (CommitmentTransformationContract { fee_recipient: Some(recipient), ..*old(self) }),
    {
        self.require_admin(caller)?;
        self.fee_recipient = Some(recipient);
        Ok(())
    }

    /// Why `withdraw_fees` by `caller` would be refused, in the order it checks.
    pub open spec fn withdraw_check(&self, caller: Seq<char>, asset: Seq<char>, amount: i128) -> Option<TransformFailure> {
        if self.admin_check(caller) is Some {
            self.admin_check(caller)
        } else if amount <= 0 {
            Some(TransformFailure::Contract(TransformationError::InvalidAmount))
        } else if self.fee_recipient is None {
            Some(TransformFailure::Contract(TransformationError::FeeRecipientNotSet))
        } else if amount > self.collected_fees.amount_of(asset) {
            Some(TransformFailure::Contract(TransformationError::InsufficientFees))
        } else {
            None
        }
    }

    /// Takes `amount` out of the fees collected in `asset_address`; admin
    /// only. The result is the recipient to pay.
    pub fn withdraw_fees(&mut self, caller: &String, asset_address: &String, amount: i128) -> (r: Result<String, TransformFailure>)
        requires
            old(self).wf(),
        ensures
            final(self).wf(),
            r is Ok <==> old(self).withdraw_check(caller@, asset_address@, amount) is None,
            r matches Err(e) ==> old(self).withdraw_check(caller@, asset_address@, amount) == Some(e)
                && *final(self) == *old(self),
            r matches Ok(recipient) ==> {
                &&& old(self).fee_recipient == Some(recipient)
                &&& final(self).collected_fees.amount_of(asset_address@) == old(self).collected_fees.amount_of(asset_address@) - amount
                &&& forall|a: Seq<char>| a != asset_address@ ==> #[trigger] final(self).collected_fees.amount_of(a) == old(self).collected_fees.amount_of(a)
                &&& *final(self) == (CommitmentTransformationContract { collected_fees: final(self).collected_fees, ..*old(self) })
            },
    {
        self.require_admin(caller)?;
        if amount <= 0 {
            return Err(TransformFailure::Contract(TransformationError::InvalidAmount));
        }
        let recipient = match &self.fee_recipient {
            Some(a) => a.clone(),
            None => return Err(TransformFailure::Contract(TransformationError::FeeRecipientNotSet)),
        };
        let collected = self.collected_fees.get(asset_address);
        if amount > collected {
            return Err(TransformFailure::Contract(TransformationError::InsufficientFees));
        }
        self.collected_fees.set(asset_address, collected - amount);
        Ok(recipient)
    }

    /// The admin.
    pub fn get_admin(&self) -> (r: Result<String, TransformFailure>)
        ensures
            self.admin matches Some(a) ==> r == Ok::<String, TransformFailure>(a),
            self.admin is None ==> r == Err::<String, TransformFailure>(
                TransformFailure::Contract(TransformationError::NotInitialized),
            ),
    {
        match &self.admin {
            Some(a) => Ok(a.clone()),
            None => Err(TransformFailure::Contract(TransformationError::NotInitialized)),
        }
    }

    /// The transformation fee rate in basis points.
    pub fn get_transformation_fee_bps(&self) -> (bps: u32)
        ensures
            bps == self.transformation_fee_bps,
    {
        self.transformation_fee_bps
    }

    /// The fee recipient, if one is set.
    pub fn get_fee_recipient(&self) -> (r: Option<String>)
        ensures
            r == self.fee_recipient,
    {
        match &self.fee_recipient {
            Some(a) => Some(a.clone()),
            None => None,
        }
    }

    /// The transformation fees collected in `asset_address`.
    pub fn get_collected_fees(&self, asset_address: &String) -> (v: i128)
        requires
            self.wf(),
        ensures
            v == self.collected_fees.amount_of(asset_address@),
    {
        self.collected_fees.get(asset_address)
    }

    /// Why a record-creating operation by `caller` would be refused; the
    /// amount is checked only when there is one.
    pub open spec fn record_check(&self, caller: Seq<char>, amount: Option<i128>) -> Option<TransformFailure> {
        if !self.authorized(caller) {
            Some(TransformFailure::Contract(TransformationError::Unauthorized))
        } else if self.reentrancy_guard {
            Some(TransformFailure::Contract(TransformationError::ReentrancyDetected))
        } else if amount matches Some(a) && a <= 0 {
            Some(TransformFailure::Invalid(ValidationError::NonPositiveAmount))
        } else {
            None
        }
    }

    /// What recording collateral at time `now` does: refused, with the state
    /// unchanged, exactly when `record_check` names a reason; otherwise the
    /// record is stored under the next counter value.
    pub open spec fn collateralize_outcome(
        &self,
        next: &Self,
        caller: String,
        commitment_id: String,
        collateral_amount: i128,
        asset_address: String,
        now: u64,
        r: Result<String, TransformFailure>,
    ) -> bool {
        &&& r is Ok <==> self.record_check(caller@, Some(collateral_amount)) is None
        &&& r matches Err(e) ==> self.record_check(caller@, Some(collateral_amount)) == Some(e)
            && *next == *self
        &&& r matches Ok(id) ==> {
            &&& id@ == id_text("col"@, self.counter as nat)
            &&& lookup(next.collateral@, id@) == Some(CollateralizedAsset {
                asset_id: id,
                commitment_id,
                owner: caller,
                collateral_amount,
                asset_address,
                created_at: now,
            })
            &&& forall|q: Seq<char>| q != id@ ==> #[trigger] lookup(next.collateral@, q) == lookup(self.collateral@, q)
            &&& forall|q: Seq<char>| #[trigger] ids_for(next.collateral_lists@, q) == if q == commitment_id@ {
                ids_for(self.collateral_lists@, q).push(id)
            } else {
                ids_for(self.collateral_lists@, q)
            }
            &&& *next == (CommitmentTransformationContract {
                counter: (self.counter + 1) as u64,
                collateral: next.collateral,
                collateral_lists: next.collateral_lists,
                ..*self
            })
        }
    }

    /// Records `collateral_amount` of `asset_address` as collateral backed by
    /// commitment `commitment_id`, owned by `caller`, named `col<N>` after the
    /// counter, which then advances.
    pub fn collateralize_at(
        &mut self,
        caller: &String,
        commitment_id: String,
        collateral_amount: i128,
        asset_address: String,
        now: u64,
    ) -> (r: Result<String, TransformFailure>)
        requires
            old(self).wf(),
            old(self).counter < u64::MAX,
        ensures
            final(self).wf(),
            old(self).collateralize_outcome(&*final(self), *caller, commitment_id, collateral_amount, asset_address, now, r),
    {
        if !self.is_authorized(caller) {
            return Err(TransformFailure::Contract(TransformationError::Unauthorized));
        }
        if self.reentrancy_guard {
            return Err(TransformFailure::Contract(TransformationError::ReentrancyDetected));
        }
        if let Err(e) = Validation::require_positive(collateral_amount) {
            return Err(TransformFailure::Invalid(e));
        }
        let counter = self.counter;
        let asset_id = format_id("col", counter);
        self.counter = counter + 1;
        let record = CollateralizedAsset {
            asset_id: asset_id.clone(),
            commitment_id: commitment_id.clone(),
            owner: caller.clone(),
            collateral_amount,
            asset_address,
            created_at: now,
        };
        upsert(&mut self.collateral, record);
        append_id(&mut self.collateral_lists, &commitment_id, asset_id.clone());
        Ok(asset_id)
    }

    /// Records collateral at the current ledger time; see `collateralize_at`.
    pub fn collateralize(
        &mut self,
        e: &Env,
        caller: &String,
        commitment_id: String,
        collateral_amount: i128,
        asset_address: String,
    ) -> (r: Result<String, TransformFailure>)
        requires
            old(self).wf(),
            old(self).counter < u64::MAX,
        ensures
            final(self).wf(),
            exists|now: u64| old(self).collateralize_outcome(&*final(self), *caller, commitment_id, collateral_amount, asset_address, now, r),
    {
        let now = TimeUtils::now(e);
        let ghost (g_commitment_id, g_asset_address) = (commitment_id, asset_address);
        let r = self.collateralize_at(caller, commitment_id, collateral_amount, asset_address, now);
        assert(old(self).collateralize_outcome(&*self, *caller, g_commitment_id, collateral_amount, g_asset_address, now, r));
        r
    }

    /// What recording a secondary instrument at time `now` does: refused, with
    /// the state unchanged, exactly when `record_check` names a reason;
    /// otherwise the record is stored under the next counter value.
    pub open spec fn instrument_outcome(
        &self,
        next: &Self,
        caller: String,
        commitment_id: String,
        instrument_type: String,
        amount: i128,
        now: u64,
        r: Result<String, TransformFailure>,
    ) -> bool {
        &&& r is Ok <==> self.record_check(caller@, Some(amount)) is None
        &&& r matches Err(e) ==> self.record_check(caller@, Some(amount)) == Some(e)
            && *next == *self
        &&& r matches Ok(id) ==> {
            &&& id@ == id_text("sec"@, self.counter as nat)
            &&& lookup(next.instruments@, id@) == Some(SecondaryInstrument {
                instrument_id: id,
                commitment_id,
                owner: caller,
                instrument_type,
                amount,
                created_at: now,
            })
            &&& forall|q: Seq<char>| q != id@ ==> #[trigger] lookup(next.instruments@, q) == lookup(self.instruments@, q)
            &&& forall|q: Seq<char>| #[trigger] ids_for(next.instrument_lists@, q) == if q == commitment_id@ {
                ids_for(self.instrument_lists@, q).push(id)
            } else {
                ids_for(self.instrument_lists@, q)
            }
            &&& *next == (CommitmentTransformationContract {
                counter: (self.counter + 1) as u64,
                instruments: next.instruments,
                instrument_lists: next.instrument_lists,
                ..*self
            })
        }
    }

    /// Records a secondary instrument of `instrument_type` for `amount` on
    /// commitment `commitment_id`, owned by `caller`, named `sec<N>` after the
    /// counter, which then advances.
    pub fn create_secondary_instrument_at(
        &mut self,
        caller: &String,
        commitment_id: String,
        instrument_type: String,
        amount: i128,
        now: u64,
    ) -> (r: Result<String, TransformFailure>)
        requires
            old(self).wf(),
            old(self).counter < u64::MAX,
        ensures
            final(self).wf(),
            old(self).instrument_outcome(&*final(self), *caller, commitment_id, instrument_type, amount, now, r),
    {
        if !self.is_authorized(caller) {
            return Err(TransformFailure::Contract(TransformationError::Unauthorized));
        }
        if self.reentrancy_guard {
            return Err(TransformFailure::Contract(TransformationError::ReentrancyDetected));
        }
        if let Err(e) = Validation::require_positive(amount) {
            return Err(TransformFailure::Invalid(e));
        }
        let counter = self.counter;
        let instrument_id = format_id("sec", counter);
        self.counter = counter + 1;
        let record = SecondaryInstrument {
            instrument_id: instrument_id.clone(),
            commitment_id: commitment_id.clone(),
            owner: caller.clone(),
            instrument_type,
            amount,
            created_at: now,
        };
        upsert(&mut self.instruments, record);
        append_id(&mut self.instrument_lists, &commitment_id, instrument_id.clone());
        Ok(instrument_id)
    }

    /// Records a secondary instrument at the current ledger time; see
    /// `create_secondary_instrument_at`.
    pub fn create_secondary_instrument(
        &mut self,
        e: &Env,
        caller: &String,
        commitment_id: String,
        instrument_type: String,
        amount: i128,
    ) -> (r: Result<String, TransformFailure>)
        requires
            old(self).wf(),
            old(self).counter < u64::MAX,
        ensures
            final(self).wf(),
            exists|now: u64| old(self).instrument_outcome(&*final(self), *caller, commitment_id, instrument_type, amount, now, r),
    {
        let now = TimeUtils::now(e);
        let ghost (g_commitment_id, g_instrument_type) = (commitment_id, instrument_type);
        let r = self.create_secondary_instrument_at(caller, commitment_id, instrument_type, amount, now);
        assert(old(self).instrument_outcome(&*self, *caller, g_commitment_id, g_instrument_type, amount, now, r));
        r
    }

    /// What recording a protocol guarantee at time `now` does: refused, with the
    /// state unchanged, exactly when `record_check` names a reason; otherwise
    /// the record is stored under the next counter value.
    pub open spec fn guarantee_outcome(
        &self,
        next: &Self,
        caller: String,
        commitment_id: String,
        guarantee_type: String,
        terms_hash: String,
        now: u64,
        r: Result<String, TransformFailure>,
    ) -> bool {
        &&& r is Ok <==> self.record_check(caller@, None) is None
        &&& r matches Err(e) ==> self.record_check(caller@, None) == Some(e)
            && *next == *self
        &&& r matches Ok(id) ==> {
            &&& id@ == id_text("guar"@, self.counter as nat)
            &&& lookup(next.guarantees@, id@) == Some(ProtocolGuarantee {
                guarantee_id: id,
                commitment_id,
                guarantee_type,
                terms_hash,
                created_at: now,
            })
            &&& forall|q: Seq<char>| q != id@ ==> #[trigger] lookup(next.guarantees@, q) == lookup(self.guarantees@, q)
            &&& forall|q: Seq<char>| #[trigger] ids_for(next.guarantee_lists@, q) == if q == commitment_id@ {
                ids_for(self.guarantee_lists@, q).push(id)
            } else {
                ids_for(self.guarantee_lists@, q)
            }
            &&& *next == (CommitmentTransformationContract {
                counter: (self.counter + 1) as u64,
                guarantees: next.guarantees,
                guarantee_lists: next.guarantee_lists,
                ..*self
            })
        }
    }

    /// Records a protocol guarantee of `guarantee_type` with terms
    /// `terms_hash` on commitment `commitment_id`, named `guar<N>` after the
    /// counter, which then advances.
    pub fn add_protocol_guarantee_at(
        &mut self,
        caller: &String,
        commitment_id: String,
        guarantee_type: String,
        terms_hash: String,
        now: u64,
    ) -> (r: Result<String, TransformFailure>)
        requires
            old(self).wf(),
            old(self).counter < u64::MAX,
        ensures
            final(self).wf(),
            old(self).guarantee_outcome(&*final(self), *caller, commitment_id, guarantee_type, terms_hash, now, r),
    {
        if !self.is_authorized(caller) {
            return Err(TransformFailure::Contract(TransformationError::Unauthorized));
        }
        if self.reentrancy_guard {
            return Err(TransformFailure::Contract(TransformationError::ReentrancyDetected));
        }
        let counter = self.counter;
        let guarantee_id = format_id("guar", counter);
        self.counter = counter + 1;
        let record = ProtocolGuarantee {
            guarantee_id: guarantee_id.clone(),
            commitment_id: commitment_id.clone(),
            guarantee_type,
            terms_hash,
            created_at: now,
        };
        upsert(&mut self.guarantees, record);
        append_id(&mut self.guarantee_lists, &commitment_id, guarantee_id.clone());
        Ok(guarantee_id)
    }

    /// Records a protocol guarantee at the current ledger time; see
    /// `add_protocol_guarantee_at`.
    pub fn add_protocol_guarantee(
        &mut self,
        e: &Env,
        caller: &String,
        commitment_id: String,
        guarantee_type: String,
        terms_hash: String,
    ) -> (r: Result<String, TransformFailure>)
        requires
            old(self).wf(),
            old(self).counter < u64::MAX,
        ensures
            final(self).wf(),
            exists|now: u64| old(self).guarantee_outcome(&*final(self), *caller, commitment_id, guarantee_type, terms_hash, now, r),
    {
        let now = TimeUtils::now(e);
        let ghost (g_commitment_id, g_guarantee_type, g_terms_hash) = (commitment_id, guarantee_type, terms_hash);
        let r = self.add_protocol_guarantee_at(caller, commitment_id, guarantee_type, terms_hash, now);
        assert(old(self).guarantee_outcome(&*self, *caller, g_commitment_id, g_guarantee_type, g_terms_hash, now, r));
        r
    }

    /// The tranche set named `transformation_id`.
    pub fn get_tranche_set(&self, transformation_id: &String) -> (r: Result<TrancheSet, TransformFailure>)
        ensures
            lookup(self.tranche_sets@, transformation_id@) is None ==> r == Err::<TrancheSet, TransformFailure>(
                TransformFailure::Contract(TransformationError::TransformationNotFound),
            ),
            lookup(self.tranche_sets@, transformation_id@) matches Some(t) ==> r matches Ok(u) && {
                &&& u.transformation_id == t.transformation_id
                &&& u.commitment_id == t.commitment_id
                &&& u.owner == t.owner
                &&& u.total_value == t.total_value
                &&& u.tranches@ == t.tranches@
                &&& u.fee_paid == t.fee_paid
                &&& u.created_at == t.created_at
            },
    {
        match find_first(&self.tranche_sets, transformation_id) {
            Some(i) => Ok(self.tranche_sets[i].clone()),
            None => Err(TransformFailure::Contract(TransformationError::TransformationNotFound)),
        }
    }

    /// The tranche named `tranche_id`, as last written.
    pub fn get_tranche(&self, tranche_id: &String) -> (r: Result<RiskTranche, TransformFailure>)
        ensures
            lookup(self.tranches@, tranche_id@) matches Some(t) ==> r == Ok::<RiskTranche, TransformFailure>(t),
            lookup(self.tranches@, tranche_id@) is None ==> r == Err::<RiskTranche, TransformFailure>(
                TransformFailure::Contract(TransformationError::TransformationNotFound),
            ),
    {
        match find_first(&self.tranches, tranche_id) {
            Some(i) => Ok(self.tranches[i].clone()),
            None => Err(TransformFailure::Contract(TransformationError::TransformationNotFound)),
        }
    }

    /// The collateral record named `asset_id`.
    pub fn get_collateralized_asset(&self, asset_id: &String) -> (r: Result<CollateralizedAsset, TransformFailure>)
        ensures
            lookup(self.collateral@, asset_id@) matches Some(t) ==> r == Ok::<CollateralizedAsset, TransformFailure>(t),
            lookup(self.collateral@, asset_id@) is None ==> r == Err::<CollateralizedAsset, TransformFailure>(
                TransformFailure::Contract(TransformationError::TransformationNotFound),
            ),
    {
        match find_first(&self.collateral, asset_id) {
            Some(i) => Ok(self.collateral[i].clone()),
            None => Err(TransformFailure::Contract(TransformationError::TransformationNotFound)),
        }
    }

    /// The instrument named `instrument_id`.
    pub fn get_secondary_instrument(&self, instrument_id: &String) -> (r: Result<SecondaryInstrument, TransformFailure>)
        ensures
            lookup(self.instruments@, instrument_id@) matches Some(t) ==> r == Ok::<SecondaryInstrument, TransformFailure>(t),
            lookup(self.instruments@, instrument_id@) is None ==> r == Err::<SecondaryInstrument, TransformFailure>(
                TransformFailure::Contract(TransformationError::TransformationNotFound),
            ),
    {
        match find_first(&self.instruments, instrument_id) {
            Some(i) => Ok(self.instruments[i].clone()),
            None => Err(TransformFailure::Contract(TransformationError::TransformationNotFound)),
        }
    }

    /// The guarantee named `guarantee_id`.
    pub fn get_protocol_guarantee(&self, guarantee_id: &String) -> (r: Result<ProtocolGuarantee, TransformFailure>)
        ensures
            lookup(self.guarantees@, guarantee_id@) matches Some(t) ==> r == Ok::<ProtocolGuarantee, TransformFailure>(t),
            lookup(self.guarantees@, guarantee_id@) is None ==> r == Err::<ProtocolGuarantee, TransformFailure>(
                TransformFailure::Contract(TransformationError::TransformationNotFound),
            ),
    {
        match find_first(&self.guarantees, guarantee_id) {
            Some(i) => Ok(self.guarantees[i].clone()),
            None => Err(TransformFailure::Contract(TransformationError::TransformationNotFound)),
        }
    }

    fn ids_under(lists: &Vec<IdList>, commitment_id: &String) -> (ids: Vec<String>)
        ensures
            ids@ == ids_for(lists@, commitment_id@),
    {
        match find_first(lists, commitment_id) {
            Some(i) => clone_ids(&lists[i].ids),
            None => Vec::new(),
        }
    }

    /// The ids of the tranche sets made from commitment `commitment_id`.
    pub fn get_commitment_tranche_sets(&self, commitment_id: &String) -> (ids: Vec<String>)
        ensures
            ids@ == ids_for(self.set_lists@, commitment_id@),
    {
        Self::ids_under(&self.set_lists, commitment_id)
    }

    /// The ids of the collateral records backed by commitment `commitment_id`.
    pub fn get_commitment_collateral(&self, commitment_id: &String) -> (ids: Vec<String>)
        ensures
            ids@ == ids_for(self.collateral_lists@, commitment_id@),
    {
        Self::ids_under(&self.collateral_lists, commitment_id)
    }

    /// The ids of the instruments on commitment `commitment_id`.
    pub fn get_commitment_instruments(&self, commitment_id: &String) -> (ids: Vec<String>)
        ensures
            ids@ == ids_for(self.instrument_lists@, commitment_id@),
    {
        Self::ids_under(&self.instrument_lists, commitment_id)
    }

    /// The ids of the guarantees on commitment `commitment_id`.
    pub fn get_commitment_guarantees(&self, commitment_id: &String) -> (ids: Vec<String>)
        ensures
            ids@ == ids_for(self.guarantee_lists@, commitment_id@),
    {
        Self::ids_under(&self.guarantee_lists, commitment_id)
    }

    /// The transformation fee on `total_value` at the current rate.
    pub open spec fn fee_on(&self, total_value: int) -> int {
        (total_value * self.transformation_fee_bps) / 10_000
    }

    /// Why `create_tranches` by `caller` would be refused, in the order it
    /// checks.
    pub open spec fn tranches_check(
        &self,
        caller: Seq<char>,
        total_value: i128,
        shares: Seq<u32>,
        risk_count: nat,
    ) -> Option<TransformFailure> {
        if !self.authorized(caller) {
            Some(TransformFailure::Contract(TransformationError::Unauthorized))
        } else if self.reentrancy_guard {
            Some(TransformFailure::Contract(TransformationError::ReentrancyDetected))
        } else if total_value <= 0 {
            Some(TransformFailure::Invalid(ValidationError::NonPositiveAmount))
        } else if shares.len() != risk_count || shares.len() == 0 {
            Some(TransformFailure::Contract(TransformationError::InvalidTrancheRatios))
        } else if bps_total(shares) != 10_000 {
            Some(TransformFailure::Contract(TransformationError::InvalidTrancheRatios))
        } else {
            None
        }
    }

    /// The arithmetic of a tranche split stays in range: the fee product,
    /// the collected fees, the counter and tranche numbers, and each
    /// tranche's product.
    pub open spec fn tranches_fit(&self, total_value: i128, shares: Seq<u32>, fee_asset: Seq<char>) -> bool {
        let fee = self.fee_on(total_value as int);
        &&& total_value * self.transformation_fee_bps <= i128::MAX
        &&& self.collected_fees.amount_of(fee_asset) + fee <= i128::MAX
        &&& self.counter < u64::MAX
        &&& self.counter * 10 + shares.len() <= u64::MAX
        &&& forall|k: int| 0 <= k < shares.len() ==> (total_value - fee) * #[trigger] shares[k] <= i128::MAX
    }

    /// What a tranche split at time `now` does: refused, with the state
    /// unchanged, exactly when `tranches_check` names a reason; otherwise the
    /// set and its tranches are stored and the fee is collected.
    pub open spec fn tranches_outcome(
        &self,
        next: &Self,
        caller: String,
        commitment_id: String,
        total_value: i128,
        tranche_share_bps: Vec<u32>,
        risk_levels: Vec<String>,
        fee_asset: String,
        now: u64,
        r: Result<CreatedTranches, TransformFailure>,
    ) -> bool {
        &&& r is Ok <==> self.tranches_check(caller@, total_value, tranche_share_bps@, risk_levels@.len()) is None
        &&& r matches Err(e) ==> self.tranches_check(caller@, total_value, tranche_share_bps@, risk_levels@.len())
            == Some(e) && *next == *self
        &&& r matches Ok(created) ==> {
            let n = self.counter as nat;
            let fee = self.fee_on(total_value as int);
            let net = total_value - fee;
            let shares = tranche_share_bps@;
            &&& created.transformation_id@ == id_text("tr"@, n)
            &&& created.fee_amount == fee
            &&& lookup(next.tranche_sets@, created.transformation_id@) matches Some(set) && {
                &&& set.transformation_id == created.transformation_id
                &&& set.commitment_id == commitment_id
                &&& set.owner == caller
                &&& set.total_value == total_value
                &&& set.fee_paid == fee
                &&& set.created_at == now
                &&& set.tranches@.len() == shares.len()
                &&& forall|k: int| 0 <= k < shares.len() ==> {
                    let t = #[trigger] set.tranches@[k];
                    &&& t.tranche_id@ == tranche_id_text(n, k as nat)
                    &&& t.transformation_id == created.transformation_id
                    &&& t.commitment_id == commitment_id
                    &&& t.risk_level == risk_levels@[k]
                    &&& t.amount == tranche_amount(net, shares[k] as int)
                    &&& t.share_bps == shares[k]
                    &&& t.created_at == now
                    &&& t.status == TrancheStatus::Active
                    &&& t.updated_at == now
                    &&& lookup(next.tranches@, t.tranche_id@) == Some(t)
                }
            }
            &&& forall|q: Seq<char>| q != created.transformation_id@ ==> #[trigger] lookup(next.tranche_sets@, q) == lookup(self.tranche_sets@, q)
            &&& forall|q: Seq<char>| (forall|k: int| 0 <= k < shares.len() ==> q != #[trigger] tranche_id_text(n, k as nat))
                ==> #[trigger] lookup(next.tranches@, q) == lookup(self.tranches@, q)
            &&& forall|q: Seq<char>| #[trigger] ids_for(next.set_lists@, q) == if q == commitment_id@ {
                ids_for(self.set_lists@, q).push(created.transformation_id)
            } else {
                ids_for(self.set_lists@, q)
            }
            &&& next.collected_fees.amount_of(fee_asset@) == self.collected_fees.amount_of(fee_asset@) + fee
            &&& forall|a: Seq<char>| a != fee_asset@ ==> #[trigger] next.collected_fees.amount_of(a) == self.collected_fees.amount_of(a)
            &&& *next == (CommitmentTransformationContract {
                counter: (self.counter + 1) as u64,
                reentrancy_guard: true,
                tranche_sets: next.tranche_sets,
                tranches: next.tranches,
                set_lists: next.set_lists,
                collected_fees: next.collected_fees,
                ..*self
            })
        }
    }

    /// Why a tranche split by `caller` would be refused, if it would; see
    /// `tranches_check`.
    pub fn tranches_refusal(
        &self,
        caller: &String,
        total_value: i128,
        tranche_share_bps: &Vec<u32>,
        risk_count: usize,
    ) -> (r: Option<TransformFailure>)
        ensures
            r == self.tranches_check(caller@, total_value, tranche_share_bps@, risk_count as nat),
    {
        if !self.is_authorized(caller) {
            return Some(TransformFailure::Contract(TransformationError::Unauthorized));
        }
        if self.reentrancy_guard {
            return Some(TransformFailure::Contract(TransformationError::ReentrancyDetected));
        }
        if let Err(e) = Validation::require_positive(total_value) {
            return Some(TransformFailure::Invalid(e));
        }
        let n = tranche_share_bps.len();
        if n != risk_count || n == 0 {
            return Some(TransformFailure::Contract(TransformationError::InvalidTrancheRatios));
        }
        let mut sum_bps: u32 = 0;
        let mut i: usize = 0;
        while i < n
            invariant
                n == tranche_share_bps@.len(),
                0 <= i <= n,
                sum_bps == if bps_total(tranche_share_bps@.take(i as int)) < u32::MAX {
                    bps_total(tranche_share_bps@.take(i as int))
                } else {
                    u32::MAX as int
                },
            decreases n - i,
        {
            assert(tranche_share_bps@.take(i + 1).drop_last() =~= tranche_share_bps@.take(i as int));
            sum_bps = sum_bps.saturating_add(tranche_share_bps[i]);
            i = i + 1;
        }
        assert(tranche_share_bps@.take(n as int) =~= tranche_share_bps@);
        if sum_bps != 10000 {
            return Some(TransformFailure::Contract(TransformationError::InvalidTrancheRatios));
        }
        None
    }

    /// Whether the arithmetic of a split of the positive `total_value` into
    /// the given shares, paying its fee in `fee_asset`, stays in range; see
    /// `tranches_fit`.
    pub fn fits_tranches(&self, total_value: i128, tranche_share_bps: &Vec<u32>, fee_asset: &String) -> (b: bool)
        requires
            self.wf(),
            total_value > 0,
        ensures
            b == self.tranches_fit(total_value, tranche_share_bps@, fee_asset@),
    {
        let product = match total_value.checked_mul(self.transformation_fee_bps as i128) {
            Some(p) => p,
            None => return false,
        };
        let fee = product / 10000;
        proof {
            assert(0 <= product);
            assert(fee <= total_value) by (nonlinear_arith)
                requires
                    product == total_value * self.transformation_fee_bps,
                    fee == product / 10_000,
                    self.transformation_fee_bps <= 10_000,
                    total_value > 0,
            ;
        }
        let collected = self.collected_fees.get(fee_asset);
        if collected.checked_add(fee).is_none() {
            return false;
        }
        if self.counter == u64::MAX {
            return false;
        }
        let n = tranche_share_bps.len();
        if (self.counter as u128) * 10 + (n as u128) > u64::MAX as u128 {
            return false;
        }
        let net = total_value - fee;
        assert(fee == self.fee_on(total_value as int));
        let mut k: usize = 0;
        while k < n
            invariant
                n == tranche_share_bps@.len(),
                0 <= k <= n,
                net == total_value - fee,
                fee == self.fee_on(total_value as int),
                net >= 0,
                forall|j: int| 0 <= j < k ==> net * #[trigger] tranche_share_bps@[j] <= i128::MAX,
            decreases n - k,
        {
            proof {
                assert(0 <= net * tranche_share_bps@[k as int]) by (nonlinear_arith)
                    requires
                        net >= 0,
                ;
            }
            if net.checked_mul(tranche_share_bps[k] as i128).is_none() {
                assert(fee == self.fee_on(total_value as int));
                assert((total_value - self.fee_on(total_value as int)) * tranche_share_bps@[k as int] > i128::MAX);
                return false;
            }
            k = k + 1;
        }
        true
    }

    /// Lets the next guarded call in, once the caller has collected the fee.
    pub fn release_reentrancy_guard(&mut self)
        ensures
            *final(self) == (CommitmentTransformationContract { reentrancy_guard: false, ..*old(self) }),
    {
        self.reentrancy_guard = false;
    }

    /// Splits commitment `commitment_id` of `total_value` into tranches with
    /// the given basis-point shares and risk levels.
    ///
    /// The set is named `tr<N>` after the counter, which then advances, and
    /// its tranche `k` is named `t<10N+k>` for `k` below ten and `t<N>_<k>`
    /// from then on, and holds `net * share / 10_000` of the value net of the transformation
    /// fee. Each tranche is also stored under its own name, which no stored
    /// tranche held before, the set id is listed under the commitment, and the
    /// fee is added to the fees collected in `fee_asset`. The reentrancy guard stays set
    /// until the fee has been collected from the caller.
    pub fn create_tranches_at(
        &mut self,
        caller: &String,
        commitment_id: String,
        total_value: i128,
        tranche_share_bps: &Vec<u32>,
        risk_levels: &Vec<String>,
        fee_asset: &String,
        now: u64,
    ) -> (r: Result<CreatedTranches, TransformFailure>)
        requires
            old(self).wf(),
            old(self).tranches_check(caller@, total_value, tranche_share_bps@, risk_levels@.len()) is None
                ==> old(self).tranches_fit(total_value, tranche_share_bps@, fee_asset@),
        ensures
            final(self).wf(),
            old(self).tranches_outcome(&*final(self), *caller, commitment_id, total_value, *tranche_share_bps, *risk_levels, *fee_asset, now, r),
            r is Ok ==> forall|k: nat| k < tranche_share_bps@.len() ==> #[trigger] lookup(
                old(self).tranches@,
                tranche_id_text(old(self).counter as nat, k),
            ) is None,
    {
        if let Some(e) = self.tranches_refusal(caller, total_value, tranche_share_bps, risk_levels.len()) {
            return Err(e);
        }
        let n = tranche_share_bps.len();
        let ghost old_tranches = self.tranches@;
        let fee_amount = (total_value * self.transformation_fee_bps as i128) / 10000;
        proof {
            assert(0 <= total_value * self.transformation_fee_bps) by (nonlinear_arith)
                requires
                    total_value > 0,
            ;
            assert(fee_amount <= total_value) by (nonlinear_arith)
                requires
                    fee_amount == (total_value * self.transformation_fee_bps) / 10_000,
                    self.transformation_fee_bps <= 10_000,
                    total_value > 0,
            ;
            assert(fee_amount >= 0) by (nonlinear_arith)
                requires
                    fee_amount == (total_value * self.transformation_fee_bps) / 10_000,
                    0 <= total_value * self.transformation_fee_bps,
            ;
        }
        if fee_amount > 0 {
            let current = self.collected_fees.get(fee_asset);
            self.collected_fees.set(fee_asset, current + fee_amount);
        }
        let counter = self.counter;
        let transformation_id = format_id("tr", counter);
        self.counter = counter + 1;
        self.reentrancy_guard = true;
        let net_value = total_value - fee_amount;
        let ghost snapshot = *self;
        let mut tranches: Vec<RiskTranche> = Vec::new();
        let mut k: usize = 0;
        while k < n
            invariant
                *self == (CommitmentTransformationContract { tranches: self.tranches, ..snapshot }),
                n == tranche_share_bps@.len(),
                n == risk_levels@.len(),
                0 <= k <= n,
                counter * 10 + n <= u64::MAX,
                net_value == total_value - fee_amount,
                forall|j: int| 0 <= j < n ==> net_value * #[trigger] tranche_share_bps@[j] <= i128::MAX,
                net_value >= 0,
                tranches@.len() == k,
                forall|j: int| 0 <= j < k ==> {
                    let t = #[trigger] tranches@[j];
                    &&& t.tranche_id@ == tranche_id_text(counter as nat, j as nat)
                    &&& t.transformation_id == transformation_id
                    &&& t.commitment_id == commitment_id
                    &&& t.risk_level == risk_levels@[j]
                    &&& t.amount == tranche_amount(net_value as int, tranche_share_bps@[j] as int)
                    &&& t.share_bps == tranche_share_bps@[j]
                    &&& t.created_at == now
                    &&& t.status == TrancheStatus::Active
                    &&& t.updated_at == now
                    &&& lookup(self.tranches@, t.tranche_id@) == Some(t)
                },
                forall|q: Seq<char>| (forall|j: int| 0 <= j < k ==> q != #[trigger] tranche_id_text(counter as nat, j as nat))
                    ==> #[trigger] lookup(self.tranches@, q) == lookup(old_tranches, q),
            decreases n - k,
        {
            let bps = tranche_share_bps[k];
            assert(net_value * tranche_share_bps@[k as int] <= i128::MAX);
            proof {
                assert(0 <= net_value * bps) by (nonlinear_arith)
                    requires
                        net_value >= 0,
                ;
            }
            let amount = (net_value * bps as i128) / 10000;
            let tranche_id = if k < 10 {
                format_id("t", counter * 10 + k as u64)
            } else {
                format_sub_id("t", counter, k as u64)
            };
            let tranche = RiskTranche {
                tranche_id,
                transformation_id: transformation_id.clone(),
                commitment_id: commitment_id.clone(),
                risk_level: risk_levels[k].clone(),
                amount,
                share_bps: bps,
                created_at: now,
                status: TrancheStatus::Active,
                updated_at: now,
            };
            let ghost before = self.tranches@;
            let ghost key = tranche.tranche_id@;
            let ghost ki: int = k as int;
            assert(key == tranche_id_text(counter as nat, ki as nat));
            let stored = tranche.clone();
            upsert(&mut self.tranches, stored);
            tranches.push(tranche);
            proof {
                assert forall|j: int| 0 <= j < k implies #[trigger] tranche_id_text(counter as nat, j as nat) != key by {
                    law_tranche_ids_distinct(counter as nat, j as nat, counter as nat, k as nat);
                }
                assert forall|j: int| 0 <= j < k + 1 implies {
                    let t = #[trigger] tranches@[j];
                    &&& t.tranche_id@ == tranche_id_text(counter as nat, j as nat)
                    &&& t.transformation_id == transformation_id
                    &&& t.commitment_id == commitment_id
                    &&& t.risk_level == risk_levels@[j]
                    &&& t.amount == tranche_amount(net_value as int, tranche_share_bps@[j] as int)
                    &&& t.share_bps == tranche_share_bps@[j]
                    &&& t.created_at == now
                    &&& t.status == TrancheStatus::Active
                    &&& t.updated_at == now
                    &&& lookup(self.tranches@, t.tranche_id@) == Some(t)
                } by {
                    if j < k {
                        assert(tranche_id_text(counter as nat, j as nat) != key);
                    }
                }
                assert forall|q: Seq<char>| (forall|j: int| 0 <= j < k + 1 ==> q != #[trigger] tranche_id_text(counter as nat, j as nat))
                    implies #[trigger] lookup(self.tranches@, q) == lookup(old_tranches, q) by {
                    assert(q != tranche_id_text(counter as nat, ki as nat));
                    assert(lookup(before, q) == lookup(old_tranches, q));
                }
            }
            k = k + 1;
        }
        let set = TrancheSet {
            transformation_id: transformation_id.clone(),
            commitment_id: commitment_id.clone(),
            owner: caller.clone(),
            total_value,
            tranches,
            fee_paid: fee_amount,
            created_at: now,
        };
        upsert(&mut self.tranche_sets, set);
        append_id(&mut self.set_lists, &commitment_id, transformation_id.clone());
        proof {
            assert forall|m: nat, kk: nat| m >= self.counter implies #[trigger] lookup(
                self.tranches@,
                tranche_id_text(m, kk),
            ) is None by {
                assert forall|j: int| 0 <= j < n implies tranche_id_text(m, kk) != #[trigger] tranche_id_text(
                    counter as nat,
                    j as nat,
                ) by {
                    law_tranche_ids_distinct(m, kk, counter as nat, j as nat);
                }
                assert(lookup(old_tranches, tranche_id_text(m, kk)) is None);
            }
        }
        Ok(CreatedTranches { transformation_id, fee_amount })
    }

    /// Splits a commitment into tranches at the current ledger time; see
    /// `create_tranches_at`.
    pub fn create_tranches(
        &mut self,
        e: &Env,
        caller: &String,
        commitment_id: String,
        total_value: i128,
        tranche_share_bps: &Vec<u32>,
        risk_levels: &Vec<String>,
        fee_asset: &String,
    ) -> (r: Result<CreatedTranches, TransformFailure>)
        requires
            old(self).wf(),
            old(self).tranches_check(caller@, total_value, tranche_share_bps@, risk_levels@.len()) is None
                ==> old(self).tranches_fit(total_value, tranche_share_bps@, fee_asset@),
        ensures
            final(self).wf(),
            exists|now: u64| old(self).tranches_outcome(&*final(self), *caller, commitment_id, total_value, *tranche_share_bps, *risk_levels, *fee_asset, now, r),
            r is Ok ==> forall|k: nat| k < tranche_share_bps@.len() ==> #[trigger] lookup(
                old(self).tranches@,
                tranche_id_text(old(self).counter as nat, k),
            ) is None,
    {
        let now = TimeUtils::now(e);
        let ghost g_commitment_id = commitment_id;
        let r = self.create_tranches_at(caller, commitment_id, total_value, tranche_share_bps, risk_levels, fee_asset, now);
        assert(old(self).tranches_outcome(&*self, *caller, g_commitment_id, total_value, *tranche_share_bps, *risk_levels, *fee_asset, now, r));
        r
    }

    /// Why a change to tranche `tranche_id` by `caller` would be refused, in
    /// the order the contract checks: authorization, the guard, the tranche,
    /// its status, its set, and the set's owner.
    pub open spec fn tranche_check(&self, caller: Seq<char>, tranche_id: Seq<char>) -> Option<TransformFailure> {
        if !self.authorized(caller) {
            Some(TransformFailure::Contract(TransformationError::Unauthorized))
        } else if self.reentrancy_guard {
            Some(TransformFailure::Contract(TransformationError::ReentrancyDetected))
        } else if lookup(self.tranches@, tranche_id) is None {
            Some(TransformFailure::Contract(TransformationError::TransformationNotFound))
        } else if lookup(self.tranches@, tranche_id)->0.status == TrancheStatus::Closed {
            Some(TransformFailure::Contract(TransformationError::InvalidState))
        } else if lookup(self.tranche_sets@, lookup(self.tranches@, tranche_id)->0.transformation_id@) is None {
            Some(TransformFailure::Contract(TransformationError::TransformationNotFound))
        } else if lookup(self.tranche_sets@, lookup(self.tranches@, tranche_id)->0.transformation_id@)->0.owner@ != caller {
            Some(TransformFailure::Contract(TransformationError::Unauthorized))
        } else {
            None
        }
    }

    fn load_tranche(&self, caller: &String, tranche_id: &String) -> (r: Result<RiskTranche, TransformFailure>)
        ensures
            r is Ok <==> self.tranche_check(caller@, tranche_id@) is None,
            r matches Err(e) ==> self.tranche_check(caller@, tranche_id@) == Some(e),
            r matches Ok(t) ==> lookup(self.tranches@, tranche_id@) == Some(t),
    {
        if !self.is_authorized(caller) {
            return Err(TransformFailure::Contract(TransformationError::Unauthorized));
        }
        if self.reentrancy_guard {
            return Err(TransformFailure::Contract(TransformationError::ReentrancyDetected));
        }
        let t = match find_first(&self.tranches, tranche_id) {
            Some(i) => self.tranches[i].clone(),
            None => return Err(TransformFailure::Contract(TransformationError::TransformationNotFound)),
        };
        if t.status == TrancheStatus::Closed {
            return Err(TransformFailure::Contract(TransformationError::InvalidState));
        }
        match find_first(&self.tranche_sets, &t.transformation_id) {
            Some(i) => {
                if self.tranche_sets[i].owner != *caller {
                    return Err(TransformFailure::Contract(TransformationError::Unauthorized));
                }
            },
            None => return Err(TransformFailure::Contract(TransformationError::TransformationNotFound)),
        }
        Ok(t)
    }

    /// What updating a tranche's risk level at time `now` does.
    pub open spec fn update_tranche_outcome(
        &self,
        next: &Self,
        caller: String,
        tranche_id: String,
        risk_level: String,
        now: u64,
        r: Result<RiskTranche, TransformFailure>,
    ) -> bool {
        &&& r is Ok <==> self.tranche_check(caller@, tranche_id@) is None
        &&& r matches Err(e) ==> self.tranche_check(caller@, tranche_id@) == Some(e) && *next == *self
        &&& r matches Ok(t) ==> {
            let before = lookup(self.tranches@, tranche_id@)->0;
            &&& t == RiskTranche { risk_level, updated_at: now, ..before }
            &&& lookup(next.tranches@, tranche_id@) == Some(t)
            &&& forall|q: Seq<char>| q != tranche_id@ ==> #[trigger] lookup(next.tranches@, q) == lookup(self.tranches@, q)
            &&& *next == (CommitmentTransformationContract { tranches: next.tranches, ..*self })
        }
    }

    /// Sets the risk level of an active tranche at time `now`; only the owner
    /// of its set, who must also be authorized, may do so.
    pub fn update_tranche_at(&mut self, caller: &String, tranche_id: &String, risk_level: String, now: u64) -> (r: Result<RiskTranche, TransformFailure>)
        requires
            old(self).wf(),
        ensures
            final(self).wf(),
            old(self).update_tranche_outcome(&*final(self), *caller, *tranche_id, risk_level, now, r),
    {
        let mut t = self.load_tranche(caller, tranche_id)?;
        t.risk_level = risk_level;
        t.updated_at = now;
        upsert(&mut self.tranches, t.clone());
        proof {
            old(self).lemma_tranche_rewrite_keeps_wf(&*self, tranche_id@);
        }
        Ok(t)
    }

    /// Sets the risk level of an active tranche at the current ledger time; see
    /// `update_tranche_at`.
    pub fn update_tranche(
        &mut self,
        e: &Env,
        caller: &String,
        tranche_id: &String,
        risk_level: String,
    ) -> (r: Result<RiskTranche, TransformFailure>)
        requires
            old(self).wf(),
        ensures
            final(self).wf(),
            exists|now: u64| old(self).update_tranche_outcome(&*final(self), *caller, *tranche_id, risk_level, now, r),
    {
        let now = TimeUtils::now(e);
        let ghost g_risk_level = risk_level;
        let r = self.update_tranche_at(caller, tranche_id, risk_level, now);
        assert(old(self).update_tranche_outcome(&*self, *caller, *tranche_id, g_risk_level, now, r));
        r
    }

    /// Why `allocate_to_tranche` would be refused: a refused tranche change,
    /// or a resulting amount that overflows or is negative.
    pub open spec fn allocation_check(&self, caller: Seq<char>, tranche_id: Seq<char>, amount: i128) -> Option<TransformFailure> {
        if self.tranche_check(caller, tranche_id) is Some {
            self.tranche_check(caller, tranche_id)
        } else if !(i128::MIN <= lookup(self.tranches@, tranche_id)->0.amount + amount <= i128::MAX)
            || lookup(self.tranches@, tranche_id)->0.amount + amount < 0 {
            Some(TransformFailure::Contract(TransformationError::InvalidAmount))
        } else {
            None
        }
    }

    /// What adding `amount` to a tranche at time `now` does.
    pub open spec fn allocation_outcome(
        &self,
        next: &Self,
        caller: String,
        tranche_id: String,
        amount: i128,
        now: u64,
        r: Result<RiskTranche, TransformFailure>,
    ) -> bool {
        &&& r is Ok <==> self.allocation_check(caller@, tranche_id@, amount) is None
        &&& r matches Err(e) ==> self.allocation_check(caller@, tranche_id@, amount) == Some(e) && *next == *self
        &&& r matches Ok(t) ==> {
            let before = lookup(self.tranches@, tranche_id@)->0;
            &&& t == RiskTranche { amount: (before.amount + amount) as i128, updated_at: now, ..before }
            &&& t.amount >= 0
            &&& lookup(next.tranches@, tranche_id@) == Some(t)
            &&& forall|q: Seq<char>| q != tranche_id@ ==> #[trigger] lookup(next.tranches@, q) == lookup(self.tranches@, q)
            &&& *next == (CommitmentTransformationContract { tranches: next.tranches, ..*self })
        }
    }

    /// Adds `amount` (negative to withdraw) to an active tranche at time
    /// `now`; the result may not be negative. Only the owner of its set, who
    /// must also be authorized, may do so.
    pub fn allocate_to_tranche_at(&mut self, caller: &String, tranche_id: &String, amount: i128, now: u64) -> (r: Result<RiskTranche, TransformFailure>)
        requires
            old(self).wf(),
        ensures
            final(self).wf(),
            old(self).allocation_outcome(&*final(self), *caller, *tranche_id, amount, now, r),
    {
        let mut t = self.load_tranche(caller, tranche_id)?;
        let new_amount = match t.amount.checked_add(amount) {
            Some(v) => v,
            None => return Err(TransformFailure::Contract(TransformationError::InvalidAmount)),
        };
        if new_amount < 0 {
            return Err(TransformFailure::Contract(TransformationError::InvalidAmount));
        }
        t.amount = new_amount;
        t.updated_at = now;
        upsert(&mut self.tranches, t.clone());
        proof {
            old(self).lemma_tranche_rewrite_keeps_wf(&*self, tranche_id@);
        }
        Ok(t)
    }

    /// Adds `amount` to an active tranche at the current ledger time; see
    /// `allocate_to_tranche_at`.
    pub fn allocate_to_tranche(
        &mut self,
        e: &Env,
        caller: &String,
        tranche_id: &String,
        amount: i128,
    ) -> (r: Result<RiskTranche, TransformFailure>)
        requires
            old(self).wf(),
        ensures
            final(self).wf(),
            exists|now: u64| old(self).allocation_outcome(&*final(self), *caller, *tranche_id, amount, now, r),
    {
        let now = TimeUtils::now(e);
        let r = self.allocate_to_tranche_at(caller, tranche_id, amount, now);
        assert(old(self).allocation_outcome(&*self, *caller, *tranche_id, amount, now, r));
        r
    }

    /// What closing a tranche at time `now` does.
    pub open spec fn close_outcome(
        &self,
        next: &Self,
        caller: String,
        tranche_id: String,
        now: u64,
        r: Result<RiskTranche, TransformFailure>,
    ) -> bool {
        &&& r is Ok <==> self.tranche_check(caller@, tranche_id@) is None
        &&& r matches Err(e) ==> self.tranche_check(caller@, tranche_id@) == Some(e) && *next == *self
        &&& r matches Ok(t) ==> {
            let before = lookup(self.tranches@, tranche_id@)->0;
            &&& t == RiskTranche { status: TrancheStatus::Closed, updated_at: now, ..before }
            &&& lookup(next.tranches@, tranche_id@) == Some(t)
            &&& forall|q: Seq<char>| q != tranche_id@ ==> #[trigger] lookup(next.tranches@, q) == lookup(self.tranches@, q)
            &&& *next == (CommitmentTransformationContract { tranches: next.tranches, ..*self })
        }
    }

    /// Closes an active tranche at time `now`; closed tranches can no longer
    /// change. Only the owner of its set, who must also be authorized, may do
    /// so.
    pub fn close_tranche_at(&mut self, caller: &String, tranche_id: &String, now: u64) -> (r: Result<RiskTranche, TransformFailure>)
        requires
            old(self).wf(),
        ensures
            final(self).wf(),
            old(self).close_outcome(&*final(self), *caller, *tranche_id, now, r),
    {
        let mut t = self.load_tranche(caller, tranche_id)?;
        t.status = TrancheStatus::Closed;
        t.updated_at = now;
        upsert(&mut self.tranches, t.clone());
        proof {
            old(self).lemma_tranche_rewrite_keeps_wf(&*self, tranche_id@);
        }
        Ok(t)
    }

    /// Closes an active tranche at the current ledger time; see
    /// `close_tranche_at`.
    pub fn close_tranche(
        &mut self,
        e: &Env,
        caller: &String,
        tranche_id: &String,
    ) -> (r: Result<RiskTranche, TransformFailure>)
        requires
            old(self).wf(),
        ensures
            final(self).wf(),
            exists|now: u64| old(self).close_outcome(&*final(self), *caller, *tranche_id, now, r),
    {
        let now = TimeUtils::now(e);
        let r = self.close_tranche_at(caller, tranche_id, now);
        assert(old(self).close_outcome(&*self, *caller, *tranche_id, now, r));
        r
    }
}

/// A closed tranche refuses every change: updating, allocating to or
/// closing it again all fail with `InvalidState` for any authorized caller.
pub proof fn law_closed_tranche_refuses_changes(
    s: CommitmentTransformationContract,
    caller: Seq<char>,
    tranche_id: Seq<char>,
    amount: i128,
)
    requires
        s.authorized(caller),
        !s.reentrancy_guard,
        lookup(s.tranches@, tranche_id) matches Some(t) && t.status == TrancheStatus::Closed,
    ensures
        s.tranche_check(caller, tranche_id) == Some(
            TransformFailure::Contract(TransformationError::InvalidState),
        ),
        s.allocation_check(caller, tranche_id, amount) == Some(
            TransformFailure::Contract(TransformationError::InvalidState),
        ),
{
}

/// Tranche names are distinct: tranche `k` of the set made at counter `n`
/// is the only one named `t<10n+k>` (below ten) or `t<n>_<k>`.
pub proof fn law_tranche_ids_distinct(n1: nat, k1: nat, n2: nat, k2: nat)
    requires
        n1 != n2 || k1 != k2,
    ensures
        tranche_id_text(n1, k1) != tranche_id_text(n2, k2),
{
    if k1 < 10 && k2 < 10 {
        assert(n1 * 10 + k1 != n2 * 10 + k2) by (nonlinear_arith)
            requires
                k1 < 10,
                k2 < 10,
                n1 != n2 || k1 != k2,
        ;
        law_ids_unique("t"@, n1 * 10 + k1, n2 * 10 + k2);
    } else if k1 >= 10 && k2 >= 10 {
        law_sub_ids_unique("t"@, n1, k1, n2, k2);
    } else if k1 < 10 {
        law_sub_id_differs_from_id("t"@, n1 * 10 + k1, n2, k2);
    } else {
        law_sub_id_differs_from_id("t"@, n2 * 10 + k2, n1, k1);
    }
}

/// The total of the tranche amounts for the given shares.
pub open spec fn tranche_amounts_total(net: int, shares: Seq<u32>) -> int
    decreases shares.len(),
{
    if shares.len() == 0 {
        0
    } else {
        tranche_amounts_total(net, shares.drop_last()) + tranche_amount(net, shares.last() as int)
    }
}

proof fn lemma_tranche_total_bound(net: int, shares: Seq<u32>)
    requires
        net >= 0,
    ensures
        tranche_amounts_total(net, shares) * 10_000 <= net * bps_total(shares),
        tranche_amounts_total(net, shares) >= 0,
    decreases shares.len(),
{
    if shares.len() > 0 {
        let rest = shares.drop_last();
        let b = shares.last() as int;
        lemma_tranche_total_bound(net, rest);
        assert(tranche_amount(net, b) * 10_000 <= net * b) by (nonlinear_arith)
            requires
                net >= 0,
                b >= 0,
        ;
        assert(tranche_amount(net, b) >= 0) by (nonlinear_arith)
            requires
                net >= 0,
                b >= 0,
        ;
        assert(net * bps_total(rest) + net * b == net * (bps_total(rest) + b)) by (nonlinear_arith);
    }
}

/// The tranches of a split never hold more than the value left after the
/// fee: rounding down may leave dust, never create value.
pub proof fn law_tranches_within_net_value(net: int, shares: Seq<u32>)
    requires
        net >= 0,
        bps_total(shares) == 10_000,
    ensures
        0 <= tranche_amounts_total(net, shares) <= net,
{
    lemma_tranche_total_bound(net, shares);
}


} // verus!
