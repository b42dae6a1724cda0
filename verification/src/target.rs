//! Target families: which family of silicon a target identity names.

use vstd::prelude::*;
use crate::text::starts_with;

verus! {

/// The families of target whose flash protection the service can lift.
#[derive(Clone, Copy, PartialEq, Eq, Debug, Structural)]
pub enum TargetFamily {
    Stm32l0,
}

impl TargetFamily {
    /// The text with which the identity of every part of the family begins.
    pub open spec fn prefix(self) -> Seq<char> {
        match self {
            TargetFamily::Stm32l0 => "STM32L0"@,
        }
    }

    /// Whether a target identity names a part of this family.
    pub open spec fn claims(self, target: Seq<char>) -> bool {
        self.prefix().is_prefix_of(target)
    }

    /// The family's prefix as text.
    pub fn prefix_text(self) -> (text: &'static str)
        ensures
            text@ == self.prefix(),
    {
        match self {
            TargetFamily::Stm32l0 => "STM32L0",
        }
    }
}

/// The family that handles a target identity, if any does.
pub open spec fn family_for(target: Seq<char>) -> Option<TargetFamily> {
    if TargetFamily::Stm32l0.claims(target) {
        Some(TargetFamily::Stm32l0)
    } else {
        None
    }
}

/// Selects the family that handles a target identity; `None` where no
/// supported family claims it.
pub fn family_of(target: &str) -> (family: Option<TargetFamily>)
    ensures
        family == family_for(target@),
{
    if starts_with(target, TargetFamily::Stm32l0.prefix_text()) {
        Some(TargetFamily::Stm32l0)
    } else {
        None
    }
}

/// Dispatch follows the prefix: an identity that a family claims is routed to
/// that family, and an identity that no family claims is routed nowhere.
pub proof fn lemma_dispatch_follows_prefix(target: Seq<char>)
    ensures
        forall|family: TargetFamily| #[trigger]
            family.claims(target) ==> family_for(target) == Some(family),
        (forall|family: TargetFamily| !#[trigger] family.claims(target)) ==> family_for(target)
            is None,
        family_for(target) matches Some(family) ==> family.claims(target),
{
}

} // verus!
