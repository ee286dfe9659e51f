use vstd::prelude::*;
use crate::keyed::Keyed;
use crate::transformation::error::TransformationError;
use crate::validation::ValidationError;

verus! {

/// The lifecycle of a tranche: active tranches may change; closing is final.
#[derive(Clone, Copy, Debug, PartialEq, Eq, Structural)]
pub enum TrancheStatus {
    Active,
    Closed,
}

/// A slice of a transformed commitment with its own risk level.
pub struct RiskTranche {
    pub tranche_id: String,
    pub transformation_id: String,
    pub commitment_id: String,
    pub risk_level: String,
    pub amount: i128,
    pub share_bps: u32,
    pub created_at: u64,
    pub status: TrancheStatus,
    pub updated_at: u64,
}

impl Clone for RiskTranche {
    fn clone(&self) -> (r: Self)
        ensures
            r == *self,
    {
        RiskTranche {
            tranche_id: self.tranche_id.clone(),
            transformation_id: self.transformation_id.clone(),
            commitment_id: self.commitment_id.clone(),
            risk_level: self.risk_level.clone(),
            amount: self.amount,
            share_bps: self.share_bps,
            created_at: self.created_at,
            status: self.status,
            updated_at: self.updated_at,
        }
    }
}

impl Keyed for RiskTranche {
    open spec fn key(&self) -> Seq<char> {
        self.tranche_id@
    }

    fn key_str(&self) -> (r: &String) {
        &self.tranche_id
    }
}

/// The tranches made by one transformation of a commitment, as created.
pub struct TrancheSet {
    pub transformation_id: String,
    pub commitment_id: String,
    pub owner: String,
    pub total_value: i128,
    pub tranches: Vec<RiskTranche>,
    pub fee_paid: i128,
    pub created_at: u64,
}

impl Clone for TrancheSet {
    fn clone(&self) -> (r: Self)
        ensures
            r.transformation_id == self.transformation_id,
            r.commitment_id == self.commitment_id,
            r.owner == self.owner,
            r.total_value == self.total_value,
            r.tranches@ == self.tranches@,
            r.fee_paid == self.fee_paid,
            r.created_at == self.created_at,
    {
        let mut tranches: Vec<RiskTranche> = Vec::new();
        let mut i: usize = 0;
        while i < self.tranches.len()
            invariant
                0 <= i <= self.tranches@.len(),
                tranches@ == self.tranches@.take(i as int),
            decreases self.tranches@.len() - i,
        {
            tranches.push(self.tranches[i].clone());
            assert(tranches@ =~= self.tranches@.take(i + 1));
            i = i + 1;
        }
        assert(self.tranches@.take(i as int) =~= self.tranches@);
        TrancheSet {
            transformation_id: self.transformation_id.clone(),
            commitment_id: self.commitment_id.clone(),
            owner: self.owner.clone(),
            total_value: self.total_value,
            tranches,
            fee_paid: self.fee_paid,
            created_at: self.created_at,
        }
    }
}

impl Keyed for TrancheSet {
    open spec fn key(&self) -> Seq<char> {
        self.transformation_id@
    }

    fn key_str(&self) -> (r: &String) {
        &self.transformation_id
    }
}

/// An asset collateralized by a commitment.
pub struct CollateralizedAsset {
    pub asset_id: String,
    pub commitment_id: String,
    pub owner: String,
    pub collateral_amount: i128,
    pub asset_address: String,
    pub created_at: u64,
}

impl Clone for CollateralizedAsset {
    fn clone(&self) -> (r: Self)
        ensures
            r == *self,
    {
        CollateralizedAsset {
            asset_id: self.asset_id.clone(),
            commitment_id: self.commitment_id.clone(),
            owner: self.owner.clone(),
            collateral_amount: self.collateral_amount,
            asset_address: self.asset_address.clone(),
            created_at: self.created_at,
        }
    }
}

impl Keyed for CollateralizedAsset {
    open spec fn key(&self) -> Seq<char> {
        self.asset_id@
    }

    fn key_str(&self) -> (r: &String) {
        &self.asset_id
    }
}

/// A secondary-market instrument (receivable, option, warrant) on a
/// commitment.
pub struct SecondaryInstrument {
    pub instrument_id: String,
    pub commitment_id: String,
    pub owner: String,
    pub instrument_type: String,
    pub amount: i128,
    pub created_at: u64,
}

impl Clone for SecondaryInstrument {
    fn clone(&self) -> (r: Self)
        ensures
            r == *self,
    {
        SecondaryInstrument {
            instrument_id: self.instrument_id.clone(),
            commitment_id: self.commitment_id.clone(),
            owner: self.owner.clone(),
            instrument_type: self.instrument_type.clone(),
            amount: self.amount,
            created_at: self.created_at,
        }
    }
}

impl Keyed for SecondaryInstrument {
    open spec fn key(&self) -> Seq<char> {
        self.instrument_id@
    }

    fn key_str(&self) -> (r: &String) {
        &self.instrument_id
    }
}

/// A protocol guarantee attached to a commitment.
pub struct ProtocolGuarantee {
    pub guarantee_id: String,
    pub commitment_id: String,
    pub guarantee_type: String,
    pub terms_hash: String,
    pub created_at: u64,
}

impl Clone for ProtocolGuarantee {
    fn clone(&self) -> (r: Self)
        ensures
            r == *self,
    {
        ProtocolGuarantee {
            guarantee_id: self.guarantee_id.clone(),
            commitment_id: self.commitment_id.clone(),
            guarantee_type: self.guarantee_type.clone(),
            terms_hash: self.terms_hash.clone(),
            created_at: self.created_at,
        }
    }
}

impl Keyed for ProtocolGuarantee {
    open spec fn key(&self) -> Seq<char> {
        self.guarantee_id@
    }

    fn key_str(&self) -> (r: &String) {
        &self.guarantee_id
    }
}

/// The ids of the records made for one commitment, in creation order.
pub struct IdList {
    pub commitment_id: String,
    pub ids: Vec<String>,
}

impl Keyed for IdList {
    open spec fn key(&self) -> Seq<char> {
        self.commitment_id@
    }

    fn key_str(&self) -> (r: &String) {
        &self.commitment_id
    }
}

/// Why a transformation operation was refused.
#[derive(Clone, Copy, Debug, PartialEq, Eq, Structural)]
pub enum TransformFailure {
    /// One of the contract's own errors.
    Contract(TransformationError),
    /// An input guard rejected an argument.
    Invalid(ValidationError),
}

impl TransformFailure {
    pub open spec fn spec_message(self) -> Seq<char> {
        match self {
            TransformFailure::Contract(e) => e.spec_message(),
            TransformFailure::Invalid(e) => e.spec_message(),
        }
    }

    /// The text with which the contract aborts on this failure.
    pub fn message(&self) -> (m: &'static str)
        ensures
            m@ == self.spec_message(),
    {
        match self {
            TransformFailure::Contract(e) => e.message(),
            TransformFailure::Invalid(e) => e.message(),
        }
    }
}

} // verus!
