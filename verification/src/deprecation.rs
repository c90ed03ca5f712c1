use vstd::prelude::*;
use crate::text::opt_view;

verus! {

/// Whether a schema field is current or deprecated (with an optional reason).
#[derive(Clone, Debug, PartialEq)]
pub enum DeprecationStatus {
    Current,
    Deprecated(Option<String>),
}

/// The mathematical value of a deprecation status.
#[verifier::ext_equal]
pub ghost enum DeprecationStatusV {
    Current,
    Deprecated(Option<Seq<char>>),
}

impl View for DeprecationStatus {
    type V = DeprecationStatusV;

    open spec fn view(&self) -> DeprecationStatusV {
        match self {
            DeprecationStatus::Current => DeprecationStatusV::Current,
            DeprecationStatus::Deprecated(r) => DeprecationStatusV::Deprecated(opt_view(*r)),
        }
    }
}

impl DeprecationStatus {
    /// Whether the status marks the field as deprecated.
    pub fn is_deprecated(&self) -> (r: bool)
        ensures
            r == (self@ is Deprecated),
    {
        match self {
            DeprecationStatus::Current => false,
            DeprecationStatus::Deprecated(_) => true,
        }
    }
}

/// How a generation run treats selections of deprecated fields.
#[derive(Clone, Copy, Debug, PartialEq, Eq, Structural)]
pub enum DeprecationStrategy {
    /// Emit the field as if it were current.
    Allow,
    /// Fail generation when a deprecated field is selected.
    Deny,
    /// Emit the field with a deprecation annotation in the IR.
    Warn,
}

impl Default for DeprecationStrategy {
    /// The default strategy warns on deprecated fields.
    fn default() -> (r: Self)
        ensures
            r == DeprecationStrategy::Warn,
    {
        DeprecationStrategy::Warn
    }
}

/// The strategy a configuration label denotes, if any.
pub open spec fn spec_strategy_from_label(s: Seq<char>) -> Option<DeprecationStrategy> {
    if s == "allow"@ {
        Option::Some(DeprecationStrategy::Allow)
    } else if s == "deny"@ {
        Option::Some(DeprecationStrategy::Deny)
    } else if s == "warn"@ {
        Option::Some(DeprecationStrategy::Warn)
    } else {
        Option::None
    }
}

impl DeprecationStrategy {
    /// Parses a strategy from its configuration label.
    pub fn from_label(s: &str) -> (r: Option<DeprecationStrategy>)
        ensures
            r == spec_strategy_from_label(s@),
    {
        proof {
            reveal_strlit("allow");
            reveal_strlit("deny");
            reveal_strlit("warn");
        }
        if crate::text::str_eq(s, "allow") {
            Option::Some(DeprecationStrategy::Allow)
        } else if crate::text::str_eq(s, "deny") {
            Option::Some(DeprecationStrategy::Deny)
        } else if crate::text::str_eq(s, "warn") {
            Option::Some(DeprecationStrategy::Warn)
        } else {
            Option::None
        }
    }
}

} // verus!
