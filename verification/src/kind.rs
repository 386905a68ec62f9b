//! Transaction kinds: the kinds that the query parameters name, and the
//! kinds of the database's enumeration, with their textual names.

use vstd::prelude::*;
use crate::text::{is_white_space, str_eq, trim, trim_end, trim_start};

verus! {

/// The kind of an inner transaction, as the web interface names it.
#[derive(Clone, Copy, Debug, PartialEq, Eq, Structural, Hash)]
pub enum TransactionKind {
    TransparentTransfer,
    ShieldedTransfer,
    ShieldingTransfer,
    UnshieldingTransfer,
    MixedTransfer,
    Bond,
    Redelegation,
    Unbond,
    Withdraw,
    ClaimRewards,
    VoteProposal,
    InitProposal,
    ChangeMetadata,
    ChangeCommission,
    RevealPk,
    IbcMsgTransfer,
    IbcTransparentTransfer,
    IbcShieldingTransfer,
    IbcUnshieldingTransfer,
    BecomeValidator,
    DeactivateValidator,
    ReactivateValidator,
    UnjailValidator,
    ChangeConsensusKey,
    InitAccount,
    Unknown,
}

/// The kind of an inner transaction, as the database enumeration stores it.
#[derive(Clone, Copy, Debug, PartialEq, Eq, Structural, Hash)]
pub enum TransactionKindDb {
    TransparentTransfer,
    ShieldedTransfer,
    ShieldingTransfer,
    UnshieldingTransfer,
    MixedTransfer,
    Bond,
    Redelegation,
    Unbond,
    Withdraw,
    ClaimRewards,
    VoteProposal,
    InitProposal,
    ChangeMetadata,
    ChangeCommission,
    RevealPk,
    IbcMsgTransfer,
    IbcTransparentTransfer,
    IbcShieldingTransfer,
    IbcUnshieldingTransfer,
    BecomeValidator,
    DeactivateValidator,
    ReactivateValidator,
    UnjailValidator,
    ChangeConsensusKey,
    InitAccount,
    Unknown,
}

/// The name of a kind in query strings and responses: the variant's name in
/// camel case.
pub open spec fn kind_name(kind: TransactionKind) -> Seq<char> {
    match kind {
        TransactionKind::TransparentTransfer => "transparentTransfer"@,
        TransactionKind::ShieldedTransfer => "shieldedTransfer"@,
        TransactionKind::ShieldingTransfer => "shieldingTransfer"@,
        TransactionKind::UnshieldingTransfer => "unshieldingTransfer"@,
        TransactionKind::MixedTransfer => "mixedTransfer"@,
        TransactionKind::Bond => "bond"@,
        TransactionKind::Redelegation => "redelegation"@,
        TransactionKind::Unbond => "unbond"@,
        TransactionKind::Withdraw => "withdraw"@,
        TransactionKind::ClaimRewards => "claimRewards"@,
        TransactionKind::VoteProposal => "voteProposal"@,
        TransactionKind::InitProposal => "initProposal"@,
        TransactionKind::ChangeMetadata => "changeMetadata"@,
        TransactionKind::ChangeCommission => "changeCommission"@,
        TransactionKind::RevealPk => "revealPk"@,
        TransactionKind::IbcMsgTransfer => "ibcMsgTransfer"@,
        TransactionKind::IbcTransparentTransfer => "ibcTransparentTransfer"@,
        TransactionKind::IbcShieldingTransfer => "ibcShieldingTransfer"@,
        TransactionKind::IbcUnshieldingTransfer => "ibcUnshieldingTransfer"@,
        TransactionKind::BecomeValidator => "becomeValidator"@,
        TransactionKind::DeactivateValidator => "deactivateValidator"@,
        TransactionKind::ReactivateValidator => "reactivateValidator"@,
        TransactionKind::UnjailValidator => "unjailValidator"@,
        TransactionKind::ChangeConsensusKey => "changeConsensusKey"@,
        TransactionKind::InitAccount => "initAccount"@,
        TransactionKind::Unknown => "unknown"@,
    }
}

/// The label of a kind in the database enumeration: the variant's name in
/// snake case.
pub open spec fn db_kind_name(kind: TransactionKindDb) -> Seq<char> {
    match kind {
        TransactionKindDb::TransparentTransfer => "transparent_transfer"@,
        TransactionKindDb::ShieldedTransfer => "shielded_transfer"@,
        TransactionKindDb::ShieldingTransfer => "shielding_transfer"@,
        TransactionKindDb::UnshieldingTransfer => "unshielding_transfer"@,
        TransactionKindDb::MixedTransfer => "mixed_transfer"@,
        TransactionKindDb::Bond => "bond"@,
        TransactionKindDb::Redelegation => "redelegation"@,
        TransactionKindDb::Unbond => "unbond"@,
        TransactionKindDb::Withdraw => "withdraw"@,
        TransactionKindDb::ClaimRewards => "claim_rewards"@,
        TransactionKindDb::VoteProposal => "vote_proposal"@,
        TransactionKindDb::InitProposal => "init_proposal"@,
        TransactionKindDb::ChangeMetadata => "change_metadata"@,
        TransactionKindDb::ChangeCommission => "change_commission"@,
        TransactionKindDb::RevealPk => "reveal_pk"@,
        TransactionKindDb::IbcMsgTransfer => "ibc_msg_transfer"@,
        TransactionKindDb::IbcTransparentTransfer => "ibc_transparent_transfer"@,
        TransactionKindDb::IbcShieldingTransfer => "ibc_shielding_transfer"@,
        TransactionKindDb::IbcUnshieldingTransfer => "ibc_unshielding_transfer"@,
        TransactionKindDb::BecomeValidator => "become_validator"@,
        TransactionKindDb::DeactivateValidator => "deactivate_validator"@,
        TransactionKindDb::ReactivateValidator => "reactivate_validator"@,
        TransactionKindDb::UnjailValidator => "unjail_validator"@,
        TransactionKindDb::ChangeConsensusKey => "change_consensus_key"@,
        TransactionKindDb::InitAccount => "init_account"@,
        TransactionKindDb::Unknown => "unknown"@,
    }
}

/// The database kind that stands for a kind: the variant of the same name.
pub open spec fn spec_to_db(kind: TransactionKind) -> TransactionKindDb {
    match kind {
        TransactionKind::TransparentTransfer => TransactionKindDb::TransparentTransfer,
        TransactionKind::ShieldedTransfer => TransactionKindDb::ShieldedTransfer,
        TransactionKind::ShieldingTransfer => TransactionKindDb::ShieldingTransfer,
        TransactionKind::UnshieldingTransfer => TransactionKindDb::UnshieldingTransfer,
        TransactionKind::MixedTransfer => TransactionKindDb::MixedTransfer,
        TransactionKind::Bond => TransactionKindDb::Bond,
        TransactionKind::Redelegation => TransactionKindDb::Redelegation,
        TransactionKind::Unbond => TransactionKindDb::Unbond,
        TransactionKind::Withdraw => TransactionKindDb::Withdraw,
        TransactionKind::ClaimRewards => TransactionKindDb::ClaimRewards,
        TransactionKind::VoteProposal => TransactionKindDb::VoteProposal,
        TransactionKind::InitProposal => TransactionKindDb::InitProposal,
        TransactionKind::ChangeMetadata => TransactionKindDb::ChangeMetadata,
        TransactionKind::ChangeCommission => TransactionKindDb::ChangeCommission,
        TransactionKind::RevealPk => TransactionKindDb::RevealPk,
        TransactionKind::IbcMsgTransfer => TransactionKindDb::IbcMsgTransfer,
        TransactionKind::IbcTransparentTransfer => TransactionKindDb::IbcTransparentTransfer,
        TransactionKind::IbcShieldingTransfer => TransactionKindDb::IbcShieldingTransfer,
        TransactionKind::IbcUnshieldingTransfer => TransactionKindDb::IbcUnshieldingTransfer,
        TransactionKind::BecomeValidator => TransactionKindDb::BecomeValidator,
        TransactionKind::DeactivateValidator => TransactionKindDb::DeactivateValidator,
        TransactionKind::ReactivateValidator => TransactionKindDb::ReactivateValidator,
        TransactionKind::UnjailValidator => TransactionKindDb::UnjailValidator,
        TransactionKind::ChangeConsensusKey => TransactionKindDb::ChangeConsensusKey,
        TransactionKind::InitAccount => TransactionKindDb::InitAccount,
        TransactionKind::Unknown => TransactionKindDb::Unknown,
    }
}

/// The kind that a database kind stands for: the variant of the same name.
pub open spec fn spec_from_db(kind: TransactionKindDb) -> TransactionKind {
    match kind {
        TransactionKindDb::TransparentTransfer => TransactionKind::TransparentTransfer,
        TransactionKindDb::ShieldedTransfer => TransactionKind::ShieldedTransfer,
        TransactionKindDb::ShieldingTransfer => TransactionKind::ShieldingTransfer,
        TransactionKindDb::UnshieldingTransfer => TransactionKind::UnshieldingTransfer,
        TransactionKindDb::MixedTransfer => TransactionKind::MixedTransfer,
        TransactionKindDb::Bond => TransactionKind::Bond,
        TransactionKindDb::Redelegation => TransactionKind::Redelegation,
        TransactionKindDb::Unbond => TransactionKind::Unbond,
        TransactionKindDb::Withdraw => TransactionKind::Withdraw,
        TransactionKindDb::ClaimRewards => TransactionKind::ClaimRewards,
        TransactionKindDb::VoteProposal => TransactionKind::VoteProposal,
        TransactionKindDb::InitProposal => TransactionKind::InitProposal,
        TransactionKindDb::ChangeMetadata => TransactionKind::ChangeMetadata,
        TransactionKindDb::ChangeCommission => TransactionKind::ChangeCommission,
        TransactionKindDb::RevealPk => TransactionKind::RevealPk,
        TransactionKindDb::IbcMsgTransfer => TransactionKind::IbcMsgTransfer,
        TransactionKindDb::IbcTransparentTransfer => TransactionKind::IbcTransparentTransfer,
        TransactionKindDb::IbcShieldingTransfer => TransactionKind::IbcShieldingTransfer,
        TransactionKindDb::IbcUnshieldingTransfer => TransactionKind::IbcUnshieldingTransfer,
        TransactionKindDb::BecomeValidator => TransactionKind::BecomeValidator,
        TransactionKindDb::DeactivateValidator => TransactionKind::DeactivateValidator,
        TransactionKindDb::ReactivateValidator => TransactionKind::ReactivateValidator,
        TransactionKindDb::UnjailValidator => TransactionKind::UnjailValidator,
        TransactionKindDb::ChangeConsensusKey => TransactionKind::ChangeConsensusKey,
        TransactionKindDb::InitAccount => TransactionKind::InitAccount,
        TransactionKindDb::Unknown => TransactionKind::Unknown,
    }
}

/// The kind whose name is `name`, if there is one.
pub open spec fn kind_named(name: Seq<char>) -> Option<TransactionKind> {
    if exists|k: TransactionKind| kind_name(k) == name {
        Some(choose|k: TransactionKind| kind_name(k) == name)
    } else {
        None
    }
}

/// The database kind whose label is `name`, if there is one.
pub open spec fn db_kind_named(name: Seq<char>) -> Option<TransactionKindDb> {
    if exists|k: TransactionKindDb| db_kind_name(k) == name {
        Some(choose|k: TransactionKindDb| db_kind_name(k) == name)
    } else {
        None
    }
}

/// The IBC transfers, whose data is an array of IBC messages.
pub open spec fn is_ibc_transfer(kind: TransactionKind) -> bool {
    ||| kind == TransactionKind::IbcTransparentTransfer
    ||| kind == TransactionKind::IbcShieldingTransfer
    ||| kind == TransactionKind::IbcUnshieldingTransfer
}

impl TransactionKind {
    /// The name of this kind in query strings and responses.
    pub fn name(&self) -> (name: &'static str)
        ensures
            name@ == kind_name(*self),
    {
        match self {
            TransactionKind::TransparentTransfer => "transparentTransfer",
            TransactionKind::ShieldedTransfer => "shieldedTransfer",
            TransactionKind::ShieldingTransfer => "shieldingTransfer",
            TransactionKind::UnshieldingTransfer => "unshieldingTransfer",
            TransactionKind::MixedTransfer => "mixedTransfer",
            TransactionKind::Bond => "bond",
            TransactionKind::Redelegation => "redelegation",
            TransactionKind::Unbond => "unbond",
            TransactionKind::Withdraw => "withdraw",
            TransactionKind::ClaimRewards => "claimRewards",
            TransactionKind::VoteProposal => "voteProposal",
            TransactionKind::InitProposal => "initProposal",
            TransactionKind::ChangeMetadata => "changeMetadata",
            TransactionKind::ChangeCommission => "changeCommission",
            TransactionKind::RevealPk => "revealPk",
            TransactionKind::IbcMsgTransfer => "ibcMsgTransfer",
            TransactionKind::IbcTransparentTransfer => "ibcTransparentTransfer",
            TransactionKind::IbcShieldingTransfer => "ibcShieldingTransfer",
            TransactionKind::IbcUnshieldingTransfer => "ibcUnshieldingTransfer",
            TransactionKind::BecomeValidator => "becomeValidator",
            TransactionKind::DeactivateValidator => "deactivateValidator",
            TransactionKind::ReactivateValidator => "reactivateValidator",
            TransactionKind::UnjailValidator => "unjailValidator",
            TransactionKind::ChangeConsensusKey => "changeConsensusKey",
            TransactionKind::InitAccount => "initAccount",
            TransactionKind::Unknown => "unknown",
        }
    }

    /// The kind with the given name, if there is one.
    pub fn from_name(name: &str) -> (kind: Option<TransactionKind>)
        ensures
            kind == kind_named(name@),
    {
        let kind = Self::match_from_name(name);
        proof {
            if let Some(k) = kind {
                lemma_kind_named_of(k, name@);
            }
        }
        kind
    }

    fn match_from_name(name: &str) -> (kind: Option<TransactionKind>)
        ensures
            match kind {
                Some(k) => kind_name(k) == name@,
                None => forall|k: TransactionKind| kind_name(k) != name@,
            },
    {
        if str_eq(name, "transparentTransfer") {
            return Some(TransactionKind::TransparentTransfer);
        }
        if str_eq(name, "shieldedTransfer") {
            return Some(TransactionKind::ShieldedTransfer);
        }
        if str_eq(name, "shieldingTransfer") {
            return Some(TransactionKind::ShieldingTransfer);
        }
        if str_eq(name, "unshieldingTransfer") {
            return Some(TransactionKind::UnshieldingTransfer);
        }
        if str_eq(name, "mixedTransfer") {
            return Some(TransactionKind::MixedTransfer);
        }
        if str_eq(name, "bond") {
            return Some(TransactionKind::Bond);
        }
        if str_eq(name, "redelegation") {
            return Some(TransactionKind::Redelegation);
        }
        if str_eq(name, "unbond") {
            return Some(TransactionKind::Unbond);
        }
        if str_eq(name, "withdraw") {
            return Some(TransactionKind::Withdraw);
        }
        if str_eq(name, "claimRewards") {
            return Some(TransactionKind::ClaimRewards);
        }
        if str_eq(name, "voteProposal") {
            return Some(TransactionKind::VoteProposal);
        }
        if str_eq(name, "initProposal") {
            return Some(TransactionKind::InitProposal);
        }
        if str_eq(name, "changeMetadata") {
            return Some(TransactionKind::ChangeMetadata);
        }
        if str_eq(name, "changeCommission") {
            return Some(TransactionKind::ChangeCommission);
        }
        if str_eq(name, "revealPk") {
            return Some(TransactionKind::RevealPk);
        }
        if str_eq(name, "ibcMsgTransfer") {
            return Some(TransactionKind::IbcMsgTransfer);
        }
        if str_eq(name, "ibcTransparentTransfer") {
            return Some(TransactionKind::IbcTransparentTransfer);
        }
        if str_eq(name, "ibcShieldingTransfer") {
            return Some(TransactionKind::IbcShieldingTransfer);
        }
        if str_eq(name, "ibcUnshieldingTransfer") {
            return Some(TransactionKind::IbcUnshieldingTransfer);
        }
        if str_eq(name, "becomeValidator") {
            return Some(TransactionKind::BecomeValidator);
        }
        if str_eq(name, "deactivateValidator") {
            return Some(TransactionKind::DeactivateValidator);
        }
        if str_eq(name, "reactivateValidator") {
            return Some(TransactionKind::ReactivateValidator);
        }
        if str_eq(name, "unjailValidator") {
            return Some(TransactionKind::UnjailValidator);
        }
        if str_eq(name, "changeConsensusKey") {
            return Some(TransactionKind::ChangeConsensusKey);
        }
        if str_eq(name, "initAccount") {
            return Some(TransactionKind::InitAccount);
        }
        if str_eq(name, "unknown") {
            return Some(TransactionKind::Unknown);
        }
        None
    }

    /// The database kind that stands for this kind.
    pub fn to_db(&self) -> (kind: TransactionKindDb)
        ensures
            kind == spec_to_db(*self),
            db_kind_name(kind) == snake_case(kind_name(*self)),
    {
        proof {
            lemma_db_kind_is_snake_case(*self);
        }
        match self {
            TransactionKind::TransparentTransfer => TransactionKindDb::TransparentTransfer,
            TransactionKind::ShieldedTransfer => TransactionKindDb::ShieldedTransfer,
            TransactionKind::ShieldingTransfer => TransactionKindDb::ShieldingTransfer,
            TransactionKind::UnshieldingTransfer => TransactionKindDb::UnshieldingTransfer,
            TransactionKind::MixedTransfer => TransactionKindDb::MixedTransfer,
            TransactionKind::Bond => TransactionKindDb::Bond,
            TransactionKind::Redelegation => TransactionKindDb::Redelegation,
            TransactionKind::Unbond => TransactionKindDb::Unbond,
            TransactionKind::Withdraw => TransactionKindDb::Withdraw,
            TransactionKind::ClaimRewards => TransactionKindDb::ClaimRewards,
            TransactionKind::VoteProposal => TransactionKindDb::VoteProposal,
            TransactionKind::InitProposal => TransactionKindDb::InitProposal,
            TransactionKind::ChangeMetadata => TransactionKindDb::ChangeMetadata,
            TransactionKind::ChangeCommission => TransactionKindDb::ChangeCommission,
            TransactionKind::RevealPk => TransactionKindDb::RevealPk,
            TransactionKind::IbcMsgTransfer => TransactionKindDb::IbcMsgTransfer,
            TransactionKind::IbcTransparentTransfer => TransactionKindDb::IbcTransparentTransfer,
            TransactionKind::IbcShieldingTransfer => TransactionKindDb::IbcShieldingTransfer,
            TransactionKind::IbcUnshieldingTransfer => TransactionKindDb::IbcUnshieldingTransfer,
            TransactionKind::BecomeValidator => TransactionKindDb::BecomeValidator,
            TransactionKind::DeactivateValidator => TransactionKindDb::DeactivateValidator,
            TransactionKind::ReactivateValidator => TransactionKindDb::ReactivateValidator,
            TransactionKind::UnjailValidator => TransactionKindDb::UnjailValidator,
            TransactionKind::ChangeConsensusKey => TransactionKindDb::ChangeConsensusKey,
            TransactionKind::InitAccount => TransactionKindDb::InitAccount,
            TransactionKind::Unknown => TransactionKindDb::Unknown,
        }
    }

    /// The kind that a database kind stands for.
    pub fn from_db(kind: TransactionKindDb) -> (k: TransactionKind)
        ensures
            k == spec_from_db(kind),
    {
        match kind {
            TransactionKindDb::TransparentTransfer => TransactionKind::TransparentTransfer,
            TransactionKindDb::ShieldedTransfer => TransactionKind::ShieldedTransfer,
            TransactionKindDb::ShieldingTransfer => TransactionKind::ShieldingTransfer,
            TransactionKindDb::UnshieldingTransfer => TransactionKind::UnshieldingTransfer,
            TransactionKindDb::MixedTransfer => TransactionKind::MixedTransfer,
            TransactionKindDb::Bond => TransactionKind::Bond,
            TransactionKindDb::Redelegation => TransactionKind::Redelegation,
            TransactionKindDb::Unbond => TransactionKind::Unbond,
            TransactionKindDb::Withdraw => TransactionKind::Withdraw,
            TransactionKindDb::ClaimRewards => TransactionKind::ClaimRewards,
            TransactionKindDb::VoteProposal => TransactionKind::VoteProposal,
            TransactionKindDb::InitProposal => TransactionKind::InitProposal,
            TransactionKindDb::ChangeMetadata => TransactionKind::ChangeMetadata,
            TransactionKindDb::ChangeCommission => TransactionKind::ChangeCommission,
            TransactionKindDb::RevealPk => TransactionKind::RevealPk,
            TransactionKindDb::IbcMsgTransfer => TransactionKind::IbcMsgTransfer,
            TransactionKindDb::IbcTransparentTransfer => TransactionKind::IbcTransparentTransfer,
            TransactionKindDb::IbcShieldingTransfer => TransactionKind::IbcShieldingTransfer,
            TransactionKindDb::IbcUnshieldingTransfer => TransactionKind::IbcUnshieldingTransfer,
            TransactionKindDb::BecomeValidator => TransactionKind::BecomeValidator,
            TransactionKindDb::DeactivateValidator => TransactionKind::DeactivateValidator,
            TransactionKindDb::ReactivateValidator => TransactionKind::ReactivateValidator,
            TransactionKindDb::UnjailValidator => TransactionKind::UnjailValidator,
            TransactionKindDb::ChangeConsensusKey => TransactionKind::ChangeConsensusKey,
            TransactionKindDb::InitAccount => TransactionKind::InitAccount,
            TransactionKindDb::Unknown => TransactionKind::Unknown,
        }
    }

    /// Whether this kind is an IBC transfer.
    pub fn is_ibc_transfer(&self) -> (ibc: bool)
        ensures
            ibc == is_ibc_transfer(*self),
    {
        match self {
            TransactionKind::IbcTransparentTransfer => true,
            TransactionKind::IbcShieldingTransfer => true,
            TransactionKind::IbcUnshieldingTransfer => true,
            _ => false,
        }
    }
}

impl TransactionKindDb {
    /// The label of this kind in the database enumeration.
    pub fn db_name(&self) -> (name: &'static str)
        ensures
            name@ == db_kind_name(*self),
    {
        match self {
            TransactionKindDb::TransparentTransfer => "transparent_transfer",
            TransactionKindDb::ShieldedTransfer => "shielded_transfer",
            TransactionKindDb::ShieldingTransfer => "shielding_transfer",
            TransactionKindDb::UnshieldingTransfer => "unshielding_transfer",
            TransactionKindDb::MixedTransfer => "mixed_transfer",
            TransactionKindDb::Bond => "bond",
            TransactionKindDb::Redelegation => "redelegation",
            TransactionKindDb::Unbond => "unbond",
            TransactionKindDb::Withdraw => "withdraw",
            TransactionKindDb::ClaimRewards => "claim_rewards",
            TransactionKindDb::VoteProposal => "vote_proposal",
            TransactionKindDb::InitProposal => "init_proposal",
            TransactionKindDb::ChangeMetadata => "change_metadata",
            TransactionKindDb::ChangeCommission => "change_commission",
            TransactionKindDb::RevealPk => "reveal_pk",
            TransactionKindDb::IbcMsgTransfer => "ibc_msg_transfer",
            TransactionKindDb::IbcTransparentTransfer => "ibc_transparent_transfer",
            TransactionKindDb::IbcShieldingTransfer => "ibc_shielding_transfer",
            TransactionKindDb::IbcUnshieldingTransfer => "ibc_unshielding_transfer",
            TransactionKindDb::BecomeValidator => "become_validator",
            TransactionKindDb::DeactivateValidator => "deactivate_validator",
            TransactionKindDb::ReactivateValidator => "reactivate_validator",
            TransactionKindDb::UnjailValidator => "unjail_validator",
            TransactionKindDb::ChangeConsensusKey => "change_consensus_key",
            TransactionKindDb::InitAccount => "init_account",
            TransactionKindDb::Unknown => "unknown",
        }
    }

    /// The database kind with the given label, if there is one.
    pub fn from_db_name(name: &str) -> (kind: Option<TransactionKindDb>)
        ensures
            kind == db_kind_named(name@),
    {
        let kind = Self::match_from_db_name(name);
        proof {
            if let Some(k) = kind {
                lemma_db_kind_named_of(k, name@);
            }
        }
        kind
    }

    fn match_from_db_name(name: &str) -> (kind: Option<TransactionKindDb>)
        ensures
            match kind {
                Some(k) => db_kind_name(k) == name@,
                None => forall|k: TransactionKindDb| db_kind_name(k) != name@,
            },
    {
        if str_eq(name, "transparent_transfer") {
            return Some(TransactionKindDb::TransparentTransfer);
        }
        if str_eq(name, "shielded_transfer") {
            return Some(TransactionKindDb::ShieldedTransfer);
        }
        if str_eq(name, "shielding_transfer") {
            return Some(TransactionKindDb::ShieldingTransfer);
        }
        if str_eq(name, "unshielding_transfer") {
            return Some(TransactionKindDb::UnshieldingTransfer);
        }
        if str_eq(name, "mixed_transfer") {
            return Some(TransactionKindDb::MixedTransfer);
        }
        if str_eq(name, "bond") {
            return Some(TransactionKindDb::Bond);
        }
        if str_eq(name, "redelegation") {
            return Some(TransactionKindDb::Redelegation);
        }
        if str_eq(name, "unbond") {
            return Some(TransactionKindDb::Unbond);
        }
        if str_eq(name, "withdraw") {
            return Some(TransactionKindDb::Withdraw);
        }
        if str_eq(name, "claim_rewards") {
            return Some(TransactionKindDb::ClaimRewards);
        }
        if str_eq(name, "vote_proposal") {
            return Some(TransactionKindDb::VoteProposal);
        }
        if str_eq(name, "init_proposal") {
            return Some(TransactionKindDb::InitProposal);
        }
        if str_eq(name, "change_metadata") {
            return Some(TransactionKindDb::ChangeMetadata);
        }
        if str_eq(name, "change_commission") {
            return Some(TransactionKindDb::ChangeCommission);
        }
        if str_eq(name, "reveal_pk") {
            return Some(TransactionKindDb::RevealPk);
        }
        if str_eq(name, "ibc_msg_transfer") {
            return Some(TransactionKindDb::IbcMsgTransfer);
        }
        if str_eq(name, "ibc_transparent_transfer") {
            return Some(TransactionKindDb::IbcTransparentTransfer);
        }
        if str_eq(name, "ibc_shielding_transfer") {
            return Some(TransactionKindDb::IbcShieldingTransfer);
        }
        if str_eq(name, "ibc_unshielding_transfer") {
            return Some(TransactionKindDb::IbcUnshieldingTransfer);
        }
        if str_eq(name, "become_validator") {
            return Some(TransactionKindDb::BecomeValidator);
        }
        if str_eq(name, "deactivate_validator") {
            return Some(TransactionKindDb::DeactivateValidator);
        }
        if str_eq(name, "reactivate_validator") {
            return Some(TransactionKindDb::ReactivateValidator);
        }
        if str_eq(name, "unjail_validator") {
            return Some(TransactionKindDb::UnjailValidator);
        }
        if str_eq(name, "change_consensus_key") {
            return Some(TransactionKindDb::ChangeConsensusKey);
        }
        if str_eq(name, "init_account") {
            return Some(TransactionKindDb::InitAccount);
        }
        if str_eq(name, "unknown") {
            return Some(TransactionKindDb::Unknown);
        }
        None
    }
}

/// Distinct kinds have distinct names, so a name read back gives the kind it
/// was written from.
pub proof fn lemma_kind_name_injective(a: TransactionKind, b: TransactionKind)
    ensures
        kind_name(a) == kind_name(b) ==> a == b,
{
    reveal_strlit("transparentTransfer");
    reveal_strlit("shieldedTransfer");
    reveal_strlit("shieldingTransfer");
    reveal_strlit("unshieldingTransfer");
    reveal_strlit("mixedTransfer");
    reveal_strlit("bond");
    reveal_strlit("redelegation");
    reveal_strlit("unbond");
    reveal_strlit("withdraw");
    reveal_strlit("claimRewards");
    reveal_strlit("voteProposal");
    reveal_strlit("initProposal");
    reveal_strlit("changeMetadata");
    reveal_strlit("changeCommission");
    reveal_strlit("revealPk");
    reveal_strlit("ibcMsgTransfer");
    reveal_strlit("ibcTransparentTransfer");
    reveal_strlit("ibcShieldingTransfer");
    reveal_strlit("ibcUnshieldingTransfer");
    reveal_strlit("becomeValidator");
    reveal_strlit("deactivateValidator");
    reveal_strlit("reactivateValidator");
    reveal_strlit("unjailValidator");
    reveal_strlit("changeConsensusKey");
    reveal_strlit("initAccount");
    reveal_strlit("unknown");
    assert("transparentTransfer"@.len() == 19);
    assert("shieldedTransfer"@.len() == 16);
    assert("shieldingTransfer"@.len() == 17);
    assert("unshieldingTransfer"@.len() == 19);
    assert("mixedTransfer"@.len() == 13);
    assert("bond"@.len() == 4);
    assert("redelegation"@.len() == 12);
    assert("unbond"@.len() == 6);
    assert("withdraw"@.len() == 8);
    assert("claimRewards"@.len() == 12);
    assert("voteProposal"@.len() == 12);
    assert("initProposal"@.len() == 12);
    assert("changeMetadata"@.len() == 14);
    assert("changeCommission"@.len() == 16);
    assert("revealPk"@.len() == 8);
    assert("ibcMsgTransfer"@.len() == 14);
    assert("ibcTransparentTransfer"@.len() == 22);
    assert("ibcShieldingTransfer"@.len() == 20);
    assert("ibcUnshieldingTransfer"@.len() == 22);
    assert("becomeValidator"@.len() == 15);
    assert("deactivateValidator"@.len() == 19);
    assert("reactivateValidator"@.len() == 19);
    assert("unjailValidator"@.len() == 15);
    assert("changeConsensusKey"@.len() == 18);
    assert("initAccount"@.len() == 11);
    assert("unknown"@.len() == 7);
    assert("transparentTransfer"@[0] == 't');
    assert("unshieldingTransfer"@[0] == 'u');
    assert("deactivateValidator"@[0] == 'd');
    assert("reactivateValidator"@[0] == 'r');
    assert("shieldedTransfer"@[0] == 's');
    assert("changeCommission"@[0] == 'c');
    assert("redelegation"@[0] == 'r');
    assert("claimRewards"@[0] == 'c');
    assert("voteProposal"@[0] == 'v');
    assert("initProposal"@[0] == 'i');
    assert("withdraw"@[0] == 'w');
    assert("revealPk"@[0] == 'r');
    assert("changeMetadata"@[0] == 'c');
    assert("ibcMsgTransfer"@[0] == 'i');
    assert("ibcTransparentTransfer"@[3] == 'T');
    assert("ibcUnshieldingTransfer"@[3] == 'U');
    assert("becomeValidator"@[0] == 'b');
    assert("unjailValidator"@[0] == 'u');
}

/// Distinct database kinds have distinct labels.
pub proof fn lemma_db_kind_name_injective(a: TransactionKindDb, b: TransactionKindDb)
    ensures
        db_kind_name(a) == db_kind_name(b) ==> a == b,
{
    reveal_strlit("transparent_transfer");
    reveal_strlit("shielded_transfer");
    reveal_strlit("shielding_transfer");
    reveal_strlit("unshielding_transfer");
    reveal_strlit("mixed_transfer");
    reveal_strlit("bond");
    reveal_strlit("redelegation");
    reveal_strlit("unbond");
    reveal_strlit("withdraw");
    reveal_strlit("claim_rewards");
    reveal_strlit("vote_proposal");
    reveal_strlit("init_proposal");
    reveal_strlit("change_metadata");
    reveal_strlit("change_commission");
    reveal_strlit("reveal_pk");
    reveal_strlit("ibc_msg_transfer");
    reveal_strlit("ibc_transparent_transfer");
    reveal_strlit("ibc_shielding_transfer");
    reveal_strlit("ibc_unshielding_transfer");
    reveal_strlit("become_validator");
    reveal_strlit("deactivate_validator");
    reveal_strlit("reactivate_validator");
    reveal_strlit("unjail_validator");
    reveal_strlit("change_consensus_key");
    reveal_strlit("init_account");
    reveal_strlit("unknown");
    assert("transparent_transfer"@.len() == 20);
    assert("shielded_transfer"@.len() == 17);
    assert("shielding_transfer"@.len() == 18);
    assert("unshielding_transfer"@.len() == 20);
    assert("mixed_transfer"@.len() == 14);
    assert("bond"@.len() == 4);
    assert("redelegation"@.len() == 12);
    assert("unbond"@.len() == 6);
    assert("withdraw"@.len() == 8);
    assert("claim_rewards"@.len() == 13);
    assert("vote_proposal"@.len() == 13);
    assert("init_proposal"@.len() == 13);
    assert("change_metadata"@.len() == 15);
    assert("change_commission"@.len() == 17);
    assert("reveal_pk"@.len() == 9);
    assert("ibc_msg_transfer"@.len() == 16);
    assert("ibc_transparent_transfer"@.len() == 24);
    assert("ibc_shielding_transfer"@.len() == 22);
    assert("ibc_unshielding_transfer"@.len() == 24);
    assert("become_validator"@.len() == 16);
    assert("deactivate_validator"@.len() == 20);
    assert("reactivate_validator"@.len() == 20);
    assert("unjail_validator"@.len() == 16);
    assert("change_consensus_key"@.len() == 20);
    assert("init_account"@.len() == 12);
    assert("unknown"@.len() == 7);
    assert("transparent_transfer"@[0] == 't');
    assert("unshielding_transfer"@[0] == 'u');
    assert("deactivate_validator"@[0] == 'd');
    assert("reactivate_validator"@[0] == 'r');
    assert("change_consensus_key"@[0] == 'c');
    assert("shielded_transfer"@[0] == 's');
    assert("change_commission"@[0] == 'c');
    assert("redelegation"@[0] == 'r');
    assert("init_account"@[0] == 'i');
    assert("claim_rewards"@[0] == 'c');
    assert("vote_proposal"@[0] == 'v');
    assert("init_proposal"@[0] == 'i');
    assert("ibc_msg_transfer"@[0] == 'i');
    assert("become_validator"@[0] == 'b');
    assert("unjail_validator"@[0] == 'u');
    assert("ibc_transparent_transfer"@[4] == 't');
    assert("ibc_unshielding_transfer"@[4] == 'u');
}

proof fn lemma_kind_named_of(k: TransactionKind, name: Seq<char>)
    requires
        kind_name(k) == name,
    ensures
        kind_named(name) == Some(k),
{
    let c = choose|c: TransactionKind| kind_name(c) == name;
    lemma_kind_name_injective(c, k);
}

proof fn lemma_db_kind_named_of(k: TransactionKindDb, name: Seq<char>)
    requires
        db_kind_name(k) == name,
    ensures
        db_kind_named(name) == Some(k),
{
    let c = choose|c: TransactionKindDb| db_kind_name(c) == name;
    lemma_db_kind_name_injective(c, k);
}

/// Parsing the name of a kind gives that kind back.
pub proof fn lemma_kind_name_round_trip(kind: TransactionKind)
    ensures
        kind_named(kind_name(kind)) == Some(kind),
{
    let k = choose|k: TransactionKind| kind_name(k) == kind_name(kind);
    lemma_kind_name_injective(k, kind);
}

/// Parsing the label of a database kind gives that kind back.
pub proof fn lemma_db_kind_name_round_trip(kind: TransactionKindDb)
    ensures
        db_kind_named(db_kind_name(kind)) == Some(kind),
{
    let k = choose|k: TransactionKindDb| db_kind_name(k) == db_kind_name(kind);
    lemma_db_kind_name_injective(k, kind);
}

/// The mapping to database kinds is one to one and onto: each side maps back
/// to where it came from.
pub proof fn lemma_db_kind_bijection(kind: TransactionKind, db: TransactionKindDb)
    ensures
        spec_from_db(spec_to_db(kind)) == kind,
        spec_to_db(spec_from_db(db)) == db,
{
}

/// A kind's name is non-empty, holds no comma and has no surrounding
/// whitespace, so it stands as an item of a comma-separated list.
pub proof fn lemma_kind_name_plain(kind: TransactionKind)
    ensures
        kind_name(kind).len() > 0,
        !kind_name(kind).contains(','),
        trim(kind_name(kind)) == kind_name(kind),
{
    match kind {
        TransactionKind::TransparentTransfer => {
            reveal_strlit("transparentTransfer");
            assert("transparentTransfer"@.len() == 19);
            assert(!"transparentTransfer"@.contains(','));
            assert(!is_white_space("transparentTransfer"@[0]));
            assert(!is_white_space("transparentTransfer"@[18]));
        },
        TransactionKind::ShieldedTransfer => {
            reveal_strlit("shieldedTransfer");
            assert("shieldedTransfer"@.len() == 16);
            assert(!"shieldedTransfer"@.contains(','));
            assert(!is_white_space("shieldedTransfer"@[0]));
            assert(!is_white_space("shieldedTransfer"@[15]));
        },
        TransactionKind::ShieldingTransfer => {
            reveal_strlit("shieldingTransfer");
            assert("shieldingTransfer"@.len() == 17);
            assert(!"shieldingTransfer"@.contains(','));
            assert(!is_white_space("shieldingTransfer"@[0]));
            assert(!is_white_space("shieldingTransfer"@[16]));
        },
        TransactionKind::UnshieldingTransfer => {
            reveal_strlit("unshieldingTransfer");
            assert("unshieldingTransfer"@.len() == 19);
            assert(!"unshieldingTransfer"@.contains(','));
            assert(!is_white_space("unshieldingTransfer"@[0]));
            assert(!is_white_space("unshieldingTransfer"@[18]));
        },
        TransactionKind::MixedTransfer => {
            reveal_strlit("mixedTransfer");
            assert("mixedTransfer"@.len() == 13);
            assert(!"mixedTransfer"@.contains(','));
            assert(!is_white_space("mixedTransfer"@[0]));
            assert(!is_white_space("mixedTransfer"@[12]));
        },
        TransactionKind::Bond => {
            reveal_strlit("bond");
            assert("bond"@.len() == 4);
            assert(!"bond"@.contains(','));
            assert(!is_white_space("bond"@[0]));
            assert(!is_white_space("bond"@[3]));
        },
        TransactionKind::Redelegation => {
            reveal_strlit("redelegation");
            assert("redelegation"@.len() == 12);
            assert(!"redelegation"@.contains(','));
            assert(!is_white_space("redelegation"@[0]));
            assert(!is_white_space("redelegation"@[11]));
        },
        TransactionKind::Unbond => {
            reveal_strlit("unbond");
            assert("unbond"@.len() == 6);
            assert(!"unbond"@.contains(','));
            assert(!is_white_space("unbond"@[0]));
            assert(!is_white_space("unbond"@[5]));
        },
        TransactionKind::Withdraw => {
            reveal_strlit("withdraw");
            assert("withdraw"@.len() == 8);
            assert(!"withdraw"@.contains(','));
            assert(!is_white_space("withdraw"@[0]));
            assert(!is_white_space("withdraw"@[7]));
        },
        TransactionKind::ClaimRewards => {
            reveal_strlit("claimRewards");
            assert("claimRewards"@.len() == 12);
            assert(!"claimRewards"@.contains(','));
            assert(!is_white_space("claimRewards"@[0]));
            assert(!is_white_space("claimRewards"@[11]));
        },
        TransactionKind::VoteProposal => {
            reveal_strlit("voteProposal");
            assert("voteProposal"@.len() == 12);
            assert(!"voteProposal"@.contains(','));
            assert(!is_white_space("voteProposal"@[0]));
            assert(!is_white_space("voteProposal"@[11]));
        },
        TransactionKind::InitProposal => {
            reveal_strlit("initProposal");
            assert("initProposal"@.len() == 12);
            assert(!"initProposal"@.contains(','));
            assert(!is_white_space("initProposal"@[0]));
            assert(!is_white_space("initProposal"@[11]));
        },
        TransactionKind::ChangeMetadata => {
            reveal_strlit("changeMetadata");
            assert("changeMetadata"@.len() == 14);
            assert(!"changeMetadata"@.contains(','));
            assert(!is_white_space("changeMetadata"@[0]));
            assert(!is_white_space("changeMetadata"@[13]));
        },
        TransactionKind::ChangeCommission => {
            reveal_strlit("changeCommission");
            assert("changeCommission"@.len() == 16);
            assert(!"changeCommission"@.contains(','));
            assert(!is_white_space("changeCommission"@[0]));
            assert(!is_white_space("changeCommission"@[15]));
        },
        TransactionKind::RevealPk => {
            reveal_strlit("revealPk");
            assert("revealPk"@.len() == 8);
            assert(!"revealPk"@.contains(','));
            assert(!is_white_space("revealPk"@[0]));
            assert(!is_white_space("revealPk"@[7]));
        },
        TransactionKind::IbcMsgTransfer => {
            reveal_strlit("ibcMsgTransfer");
            assert("ibcMsgTransfer"@.len() == 14);
            assert(!"ibcMsgTransfer"@.contains(','));
            assert(!is_white_space("ibcMsgTransfer"@[0]));
            assert(!is_white_space("ibcMsgTransfer"@[13]));
        },
        TransactionKind::IbcTransparentTransfer => {
            reveal_strlit("ibcTransparentTransfer");
            assert("ibcTransparentTransfer"@.len() == 22);
            assert(!"ibcTransparentTransfer"@.contains(','));
            assert(!is_white_space("ibcTransparentTransfer"@[0]));
            assert(!is_white_space("ibcTransparentTransfer"@[21]));
        },
        TransactionKind::IbcShieldingTransfer => {
            reveal_strlit("ibcShieldingTransfer");
            assert("ibcShieldingTransfer"@.len() == 20);
            assert(!"ibcShieldingTransfer"@.contains(','));
            assert(!is_white_space("ibcShieldingTransfer"@[0]));
            assert(!is_white_space("ibcShieldingTransfer"@[19]));
        },
        TransactionKind::IbcUnshieldingTransfer => {
            reveal_strlit("ibcUnshieldingTransfer");
            assert("ibcUnshieldingTransfer"@.len() == 22);
            assert(!"ibcUnshieldingTransfer"@.contains(','));
            assert(!is_white_space("ibcUnshieldingTransfer"@[0]));
            assert(!is_white_space("ibcUnshieldingTransfer"@[21]));
        },
        TransactionKind::BecomeValidator => {
            reveal_strlit("becomeValidator");
            assert("becomeValidator"@.len() == 15);
            assert(!"becomeValidator"@.contains(','));
            assert(!is_white_space("becomeValidator"@[0]));
            assert(!is_white_space("becomeValidator"@[14]));
        },
        TransactionKind::DeactivateValidator => {
            reveal_strlit("deactivateValidator");
            assert("deactivateValidator"@.len() == 19);
            assert(!"deactivateValidator"@.contains(','));
            assert(!is_white_space("deactivateValidator"@[0]));
            assert(!is_white_space("deactivateValidator"@[18]));
        },
        TransactionKind::ReactivateValidator => {
            reveal_strlit("reactivateValidator");
            assert("reactivateValidator"@.len() == 19);
            assert(!"reactivateValidator"@.contains(','));
            assert(!is_white_space("reactivateValidator"@[0]));
            assert(!is_white_space("reactivateValidator"@[18]));
        },
        TransactionKind::UnjailValidator => {
            reveal_strlit("unjailValidator");
            assert("unjailValidator"@.len() == 15);
            assert(!"unjailValidator"@.contains(','));
            assert(!is_white_space("unjailValidator"@[0]));
            assert(!is_white_space("unjailValidator"@[14]));
        },
        TransactionKind::ChangeConsensusKey => {
            reveal_strlit("changeConsensusKey");
            assert("changeConsensusKey"@.len() == 18);
            assert(!"changeConsensusKey"@.contains(','));
            assert(!is_white_space("changeConsensusKey"@[0]));
            assert(!is_white_space("changeConsensusKey"@[17]));
        },
        TransactionKind::InitAccount => {
            reveal_strlit("initAccount");
            assert("initAccount"@.len() == 11);
            assert(!"initAccount"@.contains(','));
            assert(!is_white_space("initAccount"@[0]));
            assert(!is_white_space("initAccount"@[10]));
        },
        TransactionKind::Unknown => {
            reveal_strlit("unknown");
            assert("unknown"@.len() == 7);
            assert(!"unknown"@.contains(','));
            assert(!is_white_space("unknown"@[0]));
            assert(!is_white_space("unknown"@[6]));
        },
    }
    let name = kind_name(kind);
    assert(name[name.len() - 1] == name.last());
    assert(trim_start(name) == name);
    assert(trim_end(name) == name);
}

/// The snake-case form of a camel-case name: each ASCII capital letter
/// becomes an underscore followed by the letter in lower case.
pub open spec fn snake_case(s: Seq<char>) -> Seq<char>
    decreases s.len(),
{
    if s.len() == 0 {
        seq![]
    } else {
        let c = s[0];
        let rest = snake_case(s.drop_first());
        if 'A' as u32 <= (c as u32) <= 'Z' as u32 {
            seq!['_', ((c as u32) + 0x20) as char] + rest
        } else {
            seq![c] + rest
        }
    }
}

proof fn lemma_snake_case_transparent_transfer()
    ensures
        snake_case("transparentTransfer"@) == "transparent_transfer"@,
{
    reveal_strlit("transparentTransfer");
    reveal_strlit("transparent_transfer");
    reveal_with_fuel(snake_case, 20);
    assert(snake_case("transparentTransfer"@) =~= "transparent_transfer"@);
}

proof fn lemma_snake_case_shielded_transfer()
    ensures
        snake_case("shieldedTransfer"@) == "shielded_transfer"@,
{
    reveal_strlit("shieldedTransfer");
    reveal_strlit("shielded_transfer");
    reveal_with_fuel(snake_case, 17);
    assert(snake_case("shieldedTransfer"@) =~= "shielded_transfer"@);
}

proof fn lemma_snake_case_shielding_transfer()
    ensures
        snake_case("shieldingTransfer"@) == "shielding_transfer"@,
{
    reveal_strlit("shieldingTransfer");
    reveal_strlit("shielding_transfer");
    reveal_with_fuel(snake_case, 18);
    assert(snake_case("shieldingTransfer"@) =~= "shielding_transfer"@);
}

proof fn lemma_snake_case_unshielding_transfer()
    ensures
        snake_case("unshieldingTransfer"@) == "unshielding_transfer"@,
{
    reveal_strlit("unshieldingTransfer");
    reveal_strlit("unshielding_transfer");
    reveal_with_fuel(snake_case, 20);
    assert(snake_case("unshieldingTransfer"@) =~= "unshielding_transfer"@);
}

proof fn lemma_snake_case_mixed_transfer()
    ensures
        snake_case("mixedTransfer"@) == "mixed_transfer"@,
{
    reveal_strlit("mixedTransfer");
    reveal_strlit("mixed_transfer");
    reveal_with_fuel(snake_case, 14);
    assert(snake_case("mixedTransfer"@) =~= "mixed_transfer"@);
}

proof fn lemma_snake_case_bond()
    ensures
        snake_case("bond"@) == "bond"@,
{
    reveal_strlit("bond");
    reveal_strlit("bond");
    reveal_with_fuel(snake_case, 5);
    assert(snake_case("bond"@) =~= "bond"@);
}

proof fn lemma_snake_case_redelegation()
    ensures
        snake_case("redelegation"@) == "redelegation"@,
{
    reveal_strlit("redelegation");
    reveal_strlit("redelegation");
    reveal_with_fuel(snake_case, 13);
    assert(snake_case("redelegation"@) =~= "redelegation"@);
}

proof fn lemma_snake_case_unbond()
    ensures
        snake_case("unbond"@) == "unbond"@,
{
    reveal_strlit("unbond");
    reveal_strlit("unbond");
    reveal_with_fuel(snake_case, 7);
    assert(snake_case("unbond"@) =~= "unbond"@);
}

proof fn lemma_snake_case_withdraw()
    ensures
        snake_case("withdraw"@) == "withdraw"@,
{
    reveal_strlit("withdraw");
    reveal_strlit("withdraw");
    reveal_with_fuel(snake_case, 9);
    assert(snake_case("withdraw"@) =~= "withdraw"@);
}

proof fn lemma_snake_case_claim_rewards()
    ensures
        snake_case("claimRewards"@) == "claim_rewards"@,
{
    reveal_strlit("claimRewards");
    reveal_strlit("claim_rewards");
    reveal_with_fuel(snake_case, 13);
    assert(snake_case("claimRewards"@) =~= "claim_rewards"@);
}

proof fn lemma_snake_case_vote_proposal()
    ensures
        snake_case("voteProposal"@) == "vote_proposal"@,
{
    reveal_strlit("voteProposal");
    reveal_strlit("vote_proposal");
    reveal_with_fuel(snake_case, 13);
    assert(snake_case("voteProposal"@) =~= "vote_proposal"@);
}

proof fn lemma_snake_case_init_proposal()
    ensures
        snake_case("initProposal"@) == "init_proposal"@,
{
    reveal_strlit("initProposal");
    reveal_strlit("init_proposal");
    reveal_with_fuel(snake_case, 13);
    assert(snake_case("initProposal"@) =~= "init_proposal"@);
}

proof fn lemma_snake_case_change_metadata()
    ensures
        snake_case("changeMetadata"@) == "change_metadata"@,
{
    reveal_strlit("changeMetadata");
    reveal_strlit("change_metadata");
    reveal_with_fuel(snake_case, 15);
    assert(snake_case("changeMetadata"@) =~= "change_metadata"@);
}

proof fn lemma_snake_case_change_commission()
    ensures
        snake_case("changeCommission"@) == "change_commission"@,
{
    reveal_strlit("changeCommission");
    reveal_strlit("change_commission");
    reveal_with_fuel(snake_case, 17);
    assert(snake_case("changeCommission"@) =~= "change_commission"@);
}

proof fn lemma_snake_case_reveal_pk()
    ensures
        snake_case("revealPk"@) == "reveal_pk"@,
{
    reveal_strlit("revealPk");
    reveal_strlit("reveal_pk");
    reveal_with_fuel(snake_case, 9);
    assert(snake_case("revealPk"@) =~= "reveal_pk"@);
}

proof fn lemma_snake_case_ibc_msg_transfer()
    ensures
        snake_case("ibcMsgTransfer"@) == "ibc_msg_transfer"@,
{
    reveal_strlit("ibcMsgTransfer");
    reveal_strlit("ibc_msg_transfer");
    reveal_with_fuel(snake_case, 15);
    assert(snake_case("ibcMsgTransfer"@) =~= "ibc_msg_transfer"@);
}

proof fn lemma_snake_case_ibc_transparent_transfer()
    ensures
        snake_case("ibcTransparentTransfer"@) == "ibc_transparent_transfer"@,
{
    reveal_strlit("ibcTransparentTransfer");
    reveal_strlit("ibc_transparent_transfer");
    reveal_with_fuel(snake_case, 23);
    assert(snake_case("ibcTransparentTransfer"@) =~= "ibc_transparent_transfer"@);
}

proof fn lemma_snake_case_ibc_shielding_transfer()
    ensures
        snake_case("ibcShieldingTransfer"@) == "ibc_shielding_transfer"@,
{
    reveal_strlit("ibcShieldingTransfer");
    reveal_strlit("ibc_shielding_transfer");
    reveal_with_fuel(snake_case, 21);
    assert(snake_case("ibcShieldingTransfer"@) =~= "ibc_shielding_transfer"@);
}

proof fn lemma_snake_case_ibc_unshielding_transfer()
    ensures
        snake_case("ibcUnshieldingTransfer"@) == "ibc_unshielding_transfer"@,
{
    reveal_strlit("ibcUnshieldingTransfer");
    reveal_strlit("ibc_unshielding_transfer");
    reveal_with_fuel(snake_case, 23);
    assert(snake_case("ibcUnshieldingTransfer"@) =~= "ibc_unshielding_transfer"@);
}

proof fn lemma_snake_case_become_validator()
    ensures
        snake_case("becomeValidator"@) == "become_validator"@,
{
    reveal_strlit("becomeValidator");
    reveal_strlit("become_validator");
    reveal_with_fuel(snake_case, 16);
    assert(snake_case("becomeValidator"@) =~= "become_validator"@);
}

proof fn lemma_snake_case_deactivate_validator()
    ensures
        snake_case("deactivateValidator"@) == "deactivate_validator"@,
{
    reveal_strlit("deactivateValidator");
    reveal_strlit("deactivate_validator");
    reveal_with_fuel(snake_case, 20);
    assert(snake_case("deactivateValidator"@) =~= "deactivate_validator"@);
}

proof fn lemma_snake_case_reactivate_validator()
    ensures
        snake_case("reactivateValidator"@) == "reactivate_validator"@,
{
    reveal_strlit("reactivateValidator");
    reveal_strlit("reactivate_validator");
    reveal_with_fuel(snake_case, 20);
    assert(snake_case("reactivateValidator"@) =~= "reactivate_validator"@);
}

proof fn lemma_snake_case_unjail_validator()
    ensures
        snake_case("unjailValidator"@) == "unjail_validator"@,
{
    reveal_strlit("unjailValidator");
    reveal_strlit("unjail_validator");
    reveal_with_fuel(snake_case, 16);
    assert(snake_case("unjailValidator"@) =~= "unjail_validator"@);
}

proof fn lemma_snake_case_change_consensus_key()
    ensures
        snake_case("changeConsensusKey"@) == "change_consensus_key"@,
{
    reveal_strlit("changeConsensusKey");
    reveal_strlit("change_consensus_key");
    reveal_with_fuel(snake_case, 19);
    assert(snake_case("changeConsensusKey"@) =~= "change_consensus_key"@);
}

proof fn lemma_snake_case_init_account()
    ensures
        snake_case("initAccount"@) == "init_account"@,
{
    reveal_strlit("initAccount");
    reveal_strlit("init_account");
    reveal_with_fuel(snake_case, 12);
    assert(snake_case("initAccount"@) =~= "init_account"@);
}

proof fn lemma_snake_case_unknown()
    ensures
        snake_case("unknown"@) == "unknown"@,
{
    reveal_strlit("unknown");
    reveal_strlit("unknown");
    reveal_with_fuel(snake_case, 8);
    assert(snake_case("unknown"@) =~= "unknown"@);
}

/// The database kind that stands for a kind carries the kind's name in snake
/// case: each kind maps to the database kind of the same name.
pub proof fn lemma_db_kind_is_snake_case(kind: TransactionKind)
    ensures
        db_kind_name(spec_to_db(kind)) == snake_case(kind_name(kind)),
        spec_from_db(spec_to_db(kind)) == kind,
{
    match kind {
        TransactionKind::TransparentTransfer => lemma_snake_case_transparent_transfer(),
        TransactionKind::ShieldedTransfer => lemma_snake_case_shielded_transfer(),
        TransactionKind::ShieldingTransfer => lemma_snake_case_shielding_transfer(),
        TransactionKind::UnshieldingTransfer => lemma_snake_case_unshielding_transfer(),
        TransactionKind::MixedTransfer => lemma_snake_case_mixed_transfer(),
        TransactionKind::Bond => lemma_snake_case_bond(),
        TransactionKind::Redelegation => lemma_snake_case_redelegation(),
        TransactionKind::Unbond => lemma_snake_case_unbond(),
        TransactionKind::Withdraw => lemma_snake_case_withdraw(),
        TransactionKind::ClaimRewards => lemma_snake_case_claim_rewards(),
        TransactionKind::VoteProposal => lemma_snake_case_vote_proposal(),
        TransactionKind::InitProposal => lemma_snake_case_init_proposal(),
        TransactionKind::ChangeMetadata => lemma_snake_case_change_metadata(),
        TransactionKind::ChangeCommission => lemma_snake_case_change_commission(),
        TransactionKind::RevealPk => lemma_snake_case_reveal_pk(),
        TransactionKind::IbcMsgTransfer => lemma_snake_case_ibc_msg_transfer(),
        TransactionKind::IbcTransparentTransfer => lemma_snake_case_ibc_transparent_transfer(),
        TransactionKind::IbcShieldingTransfer => lemma_snake_case_ibc_shielding_transfer(),
        TransactionKind::IbcUnshieldingTransfer => lemma_snake_case_ibc_unshielding_transfer(),
        TransactionKind::BecomeValidator => lemma_snake_case_become_validator(),
        TransactionKind::DeactivateValidator => lemma_snake_case_deactivate_validator(),
        TransactionKind::ReactivateValidator => lemma_snake_case_reactivate_validator(),
        TransactionKind::UnjailValidator => lemma_snake_case_unjail_validator(),
        TransactionKind::ChangeConsensusKey => lemma_snake_case_change_consensus_key(),
        TransactionKind::InitAccount => lemma_snake_case_init_account(),
        TransactionKind::Unknown => lemma_snake_case_unknown(),
    }
}

} // verus!
