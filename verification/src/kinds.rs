//! The catalog of transaction kinds the harness can benchmark.
//!
//! A kind is a stable identifier: it appears in external override
//! configuration under its kebab-case name, so the name functions here are
//! part of the library's interface.
use vstd::prelude::*;

use crate::strutil::str_eq;

verus! {

broadcast use vstd::string::group_string_axioms;

/// Identifier for a category of transaction payload; stable across runs.
#[derive(Clone, Copy, Debug, PartialEq, Eq, Structural, Hash)]
pub enum TransactionKind {
    TokenTransferDefault,
    TokenTransferIncludedFinal,
    TokenTransferFinal,
    FungibleTokenTransfer,
    Swap,
    MpcSignEcdsa,
    MpcSignEddsa,
    MpcCkd,
}

/// The stable kebab-case name of a kind, as external configuration writes it.
pub open spec fn spec_kind_name(k: TransactionKind) -> Seq<char> {
    match k {
        TransactionKind::TokenTransferDefault => "token-transfer-default"@,
        TransactionKind::TokenTransferIncludedFinal => "token-transfer-included-final"@,
        TransactionKind::TokenTransferFinal => "token-transfer-final"@,
        TransactionKind::FungibleTokenTransfer => "fungible-token-transfer"@,
        TransactionKind::Swap => "swap"@,
        TransactionKind::MpcSignEcdsa => "mpc-sign-ecdsa"@,
        TransactionKind::MpcSignEddsa => "mpc-sign-eddsa"@,
        TransactionKind::MpcCkd => "mpc-ckd"@,
    }
}

impl TransactionKind {
    /// The kebab-case name of this kind.
    pub fn name(&self) -> (r: &'static str)
        ensures
            r@ == spec_kind_name(*self),
    {
        match self {
            TransactionKind::TokenTransferDefault => "token-transfer-default",
            TransactionKind::TokenTransferIncludedFinal => "token-transfer-included-final",
            TransactionKind::TokenTransferFinal => "token-transfer-final",
            TransactionKind::FungibleTokenTransfer => "fungible-token-transfer",
            TransactionKind::Swap => "swap",
            TransactionKind::MpcSignEcdsa => "mpc-sign-ecdsa",
            TransactionKind::MpcSignEddsa => "mpc-sign-eddsa",
            TransactionKind::MpcCkd => "mpc-ckd",
        }
    }

    /// Parses a kebab-case kind name; the inverse of `name`.
    pub fn from_str(s: &str) -> (r: Option<TransactionKind>)
        ensures
            match r {
                Some(k) => s@ == spec_kind_name(k),
                None => forall|k: TransactionKind| s@ != spec_kind_name(k),
            },
    {
        if str_eq(s, "token-transfer-default") {
            Some(TransactionKind::TokenTransferDefault)
        } else if str_eq(s, "token-transfer-included-final") {
            Some(TransactionKind::TokenTransferIncludedFinal)
        } else if str_eq(s, "token-transfer-final") {
            Some(TransactionKind::TokenTransferFinal)
        } else if str_eq(s, "fungible-token-transfer") {
            Some(TransactionKind::FungibleTokenTransfer)
        } else if str_eq(s, "swap") {
            Some(TransactionKind::Swap)
        } else if str_eq(s, "mpc-sign-ecdsa") {
            Some(TransactionKind::MpcSignEcdsa)
        } else if str_eq(s, "mpc-sign-eddsa") {
            Some(TransactionKind::MpcSignEddsa)
        } else if str_eq(s, "mpc-ckd") {
            Some(TransactionKind::MpcCkd)
        } else {
            proof {
                assert forall|k: TransactionKind| s@ != spec_kind_name(k) by {
                    match k {
                        TransactionKind::TokenTransferDefault => {},
                        TransactionKind::TokenTransferIncludedFinal => {},
                        TransactionKind::TokenTransferFinal => {},
                        TransactionKind::FungibleTokenTransfer => {},
                        TransactionKind::Swap => {},
                        TransactionKind::MpcSignEcdsa => {},
                        TransactionKind::MpcSignEddsa => {},
                        TransactionKind::MpcCkd => {},
                    }
                }
            }
            None
        }
    }
}

/// Two distinct kinds never share a name, so a name determines its kind.
pub proof fn lemma_kind_names_injective(k1: TransactionKind, k2: TransactionKind)
    requires
        spec_kind_name(k1) == spec_kind_name(k2),
    ensures
        k1 == k2,
{
    reveal_strlit("token-transfer-default");
    reveal_strlit("token-transfer-included-final");
    reveal_strlit("token-transfer-final");
    reveal_strlit("fungible-token-transfer");
    reveal_strlit("swap");
    reveal_strlit("mpc-sign-ecdsa");
    reveal_strlit("mpc-sign-eddsa");
    reveal_strlit("mpc-ckd");
    lemma_name_split(k1);
    lemma_name_split(k2);
    assert("token-transfer-default"@.len() == 22);
    assert("token-transfer-included-final"@.len() == 29);
    assert("token-transfer-final"@.len() == 20);
    assert("fungible-token-transfer"@.len() == 23);
    assert("swap"@.len() == 4);
    assert("mpc-sign-ecdsa"@.len() == 14);
    assert("mpc-sign-eddsa"@.len() == 14);
    assert("mpc-ckd"@.len() == 7);
    assert("mpc-sign-ecdsa"@[10] != "mpc-sign-eddsa"@[10]);
}

/// Case split so that the name of each concrete kind is in scope.
proof fn lemma_name_split(k: TransactionKind)
    ensures
        k == TransactionKind::TokenTransferDefault ||
        k == TransactionKind::TokenTransferIncludedFinal ||
        k == TransactionKind::TokenTransferFinal ||
        k == TransactionKind::FungibleTokenTransfer ||
        k == TransactionKind::Swap ||
        k == TransactionKind::MpcSignEcdsa ||
        k == TransactionKind::MpcSignEddsa ||
        k == TransactionKind::MpcCkd,
        spec_kind_name(TransactionKind::TokenTransferDefault) == "token-transfer-default"@,
        spec_kind_name(TransactionKind::TokenTransferIncludedFinal)
            == "token-transfer-included-final"@,
        spec_kind_name(TransactionKind::TokenTransferFinal) == "token-transfer-final"@,
        spec_kind_name(TransactionKind::FungibleTokenTransfer) == "fungible-token-transfer"@,
        spec_kind_name(TransactionKind::Swap) == "swap"@,
        spec_kind_name(TransactionKind::MpcSignEcdsa) == "mpc-sign-ecdsa"@,
        spec_kind_name(TransactionKind::MpcSignEddsa) == "mpc-sign-eddsa"@,
        spec_kind_name(TransactionKind::MpcCkd) == "mpc-ckd"@,
{
}

} // verus!
