//! The predefined transaction samples.
//!
//! Building and signing a concrete payload is an external capability; what
//! the engine reads of a sample — its kind and its display name — is
//! declared here, one marker type per predefined sample.
use vstd::prelude::*;

use crate::kinds::TransactionKind;

verus! {

/// What the engine holds of a registered sample: its kind and its display
/// name. The capability that builds and signs the payload is dispatched by
/// kind outside the engine.
#[derive(Clone, Debug)]
pub struct SampleInfo {
    pub kind: TransactionKind,
    pub name: String,
}

impl SampleInfo {
    /// Describes a sample by its kind and display name.
    pub fn new(kind: TransactionKind, name: &str) -> (r: SampleInfo)
        ensures
            r.kind == kind,
            r.name@ == name@,
    {
        SampleInfo { kind, name: name.to_owned() }
    }
}

/// A plain token transfer awaiting the default execution status.
pub struct TokenTransferDefault {}

/// A plain token transfer awaiting inclusion with finality.
pub struct TokenTransferIncludedFinal {}

/// A plain token transfer awaiting full finality.
pub struct TokenTransferFinal {}

/// A fungible-token transfer through the token contract.
pub struct FungibleTokenTransfer {}

/// A two-step swap through the exchange contract.
pub struct Swap {}

/// A threshold-signature request over the ECDSA domain.
pub struct MpcSignEcdsa {}

/// A threshold-signature request over the EdDSA domain.
pub struct MpcSignEddsa {}

/// A derived-key request to the threshold-signing contract.
pub struct MpcCkd {}

/// The display name of each predefined sample.
pub open spec fn spec_sample_name(kind: TransactionKind) -> Seq<char> {
    match kind {
        TransactionKind::TokenTransferDefault => "NEAR transfer, wait_until default"@,
        TransactionKind::TokenTransferIncludedFinal => "NEAR transfer, wait_until IncludedFinal"@,
        TransactionKind::TokenTransferFinal => "NEAR transfer, wait_until Final"@,
        TransactionKind::FungibleTokenTransfer => "USDT FT transfer"@,
        TransactionKind::Swap => "swap from NEAR to USDT"@,
        TransactionKind::MpcSignEcdsa => "Call MPC ecdsa sign function"@,
        TransactionKind::MpcSignEddsa => "Call MPC eddsa sign function"@,
        TransactionKind::MpcCkd => "Call MPC ckd function"@,
    }
}

/// The display name of the predefined sample of this kind.
pub fn sample_name(kind: TransactionKind) -> (r: &'static str)
    ensures
        r@ == spec_sample_name(kind),
{
    match kind {
        TransactionKind::TokenTransferDefault => "NEAR transfer, wait_until default",
        TransactionKind::TokenTransferIncludedFinal => "NEAR transfer, wait_until IncludedFinal",
        TransactionKind::TokenTransferFinal => "NEAR transfer, wait_until Final",
        TransactionKind::FungibleTokenTransfer => "USDT FT transfer",
        TransactionKind::Swap => "swap from NEAR to USDT",
        TransactionKind::MpcSignEcdsa => "Call MPC ecdsa sign function",
        TransactionKind::MpcSignEddsa => "Call MPC eddsa sign function",
        TransactionKind::MpcCkd => "Call MPC ckd function",
    }
}

/// The sample's kind and display name, as one description.
pub fn sample_info_of(kind: TransactionKind) -> (r: SampleInfo)
    ensures
        r.kind == kind,
        r.name@ == spec_sample_name(kind),
{
    SampleInfo::new(kind, sample_name(kind))
}

impl TokenTransferDefault {
    /// The kind this sample benchmarks.
    pub fn kind(&self) -> (r: TransactionKind)
        ensures
            r == TransactionKind::TokenTransferDefault,
    {
        TransactionKind::TokenTransferDefault
    }

    /// The sample's display name.
    pub fn get_name(&self) -> (r: &'static str)
        ensures
            r@ == spec_sample_name(TransactionKind::TokenTransferDefault),
    {
        sample_name(TransactionKind::TokenTransferDefault)
    }
}

impl TokenTransferIncludedFinal {
    /// The kind this sample benchmarks.
    pub fn kind(&self) -> (r: TransactionKind)
        ensures
            r == TransactionKind::TokenTransferIncludedFinal,
    {
        TransactionKind::TokenTransferIncludedFinal
    }

    /// The sample's display name.
    pub fn get_name(&self) -> (r: &'static str)
        ensures
            r@ == spec_sample_name(TransactionKind::TokenTransferIncludedFinal),
    {
        sample_name(TransactionKind::TokenTransferIncludedFinal)
    }
}

impl TokenTransferFinal {
    /// The kind this sample benchmarks.
    pub fn kind(&self) -> (r: TransactionKind)
        ensures
            r == TransactionKind::TokenTransferFinal,
    {
        TransactionKind::TokenTransferFinal
    }

    /// The sample's display name.
    pub fn get_name(&self) -> (r: &'static str)
        ensures
            r@ == spec_sample_name(TransactionKind::TokenTransferFinal),
    {
        sample_name(TransactionKind::TokenTransferFinal)
    }
}

impl FungibleTokenTransfer {
    /// The kind this sample benchmarks.
    pub fn kind(&self) -> (r: TransactionKind)
        ensures
            r == TransactionKind::FungibleTokenTransfer,
    {
        TransactionKind::FungibleTokenTransfer
    }

    /// The sample's display name.
    pub fn get_name(&self) -> (r: &'static str)
        ensures
            r@ == spec_sample_name(TransactionKind::FungibleTokenTransfer),
    {
        sample_name(TransactionKind::FungibleTokenTransfer)
    }
}

impl Swap {
    /// The kind this sample benchmarks.
    pub fn kind(&self) -> (r: TransactionKind)
        ensures
            r == TransactionKind::Swap,
    {
        TransactionKind::Swap
    }

    /// The sample's display name.
    pub fn get_name(&self) -> (r: &'static str)
        ensures
            r@ == spec_sample_name(TransactionKind::Swap),
    {
        sample_name(TransactionKind::Swap)
    }
}

impl MpcSignEcdsa {
    /// The kind this sample benchmarks.
    pub fn kind(&self) -> (r: TransactionKind)
        ensures
            r == TransactionKind::MpcSignEcdsa,
    {
        TransactionKind::MpcSignEcdsa
    }

    /// The sample's display name.
    pub fn get_name(&self) -> (r: &'static str)
        ensures
            r@ == spec_sample_name(TransactionKind::MpcSignEcdsa),
    {
        sample_name(TransactionKind::MpcSignEcdsa)
    }
}

impl MpcSignEddsa {
    /// The kind this sample benchmarks.
    pub fn kind(&self) -> (r: TransactionKind)
        ensures
            r == TransactionKind::MpcSignEddsa,
    {
        TransactionKind::MpcSignEddsa
    }

    /// The sample's display name.
    pub fn get_name(&self) -> (r: &'static str)
        ensures
            r@ == spec_sample_name(TransactionKind::MpcSignEddsa),
    {
        sample_name(TransactionKind::MpcSignEddsa)
    }
}

impl MpcCkd {
    /// The kind this sample benchmarks.
    pub fn kind(&self) -> (r: TransactionKind)
        ensures
            r == TransactionKind::MpcCkd,
    {
        TransactionKind::MpcCkd
    }

    /// The sample's display name.
    pub fn get_name(&self) -> (r: &'static str)
        ensures
            r@ == spec_sample_name(TransactionKind::MpcCkd),
    {
        sample_name(TransactionKind::MpcCkd)
    }
}

} // verus!
