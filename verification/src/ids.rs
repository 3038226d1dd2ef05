use vstd::prelude::*;

verus! {

/// Identifier of one model within a provider's model set.
#[derive(Clone, Debug, Eq, Hash)]
pub struct LanguageModelId(pub String);

/// Human-readable name of one model.
#[derive(Clone, Debug, Eq, Hash)]
pub struct LanguageModelName(pub String);

/// Identifier of one provider, unique within a registry.
#[derive(Clone, Debug, Eq, Hash)]
pub struct LanguageModelProviderId(pub String);

/// Human-readable name of one provider.
#[derive(Clone, Debug, Eq, Hash)]
pub struct LanguageModelProviderName(pub String);

impl PartialEq for LanguageModelId {
    fn eq(&self, other: &Self) -> bool {
        self.0 == other.0
    }
}

impl vstd::std_specs::cmp::PartialEqSpecImpl for LanguageModelId {
    open spec fn obeys_eq_spec() -> bool {
        true
    }

    open spec fn eq_spec(&self, other: &Self) -> bool {
        self.0@ == other.0@
    }
}

impl PartialEq for LanguageModelName {
    fn eq(&self, other: &Self) -> bool {
        self.0 == other.0
    }
}

impl vstd::std_specs::cmp::PartialEqSpecImpl for LanguageModelName {
    open spec fn obeys_eq_spec() -> bool {
        true
    }

    open spec fn eq_spec(&self, other: &Self) -> bool {
        self.0@ == other.0@
    }
}

impl PartialEq for LanguageModelProviderId {
    fn eq(&self, other: &Self) -> bool {
        self.0 == other.0
    }
}

impl vstd::std_specs::cmp::PartialEqSpecImpl for LanguageModelProviderId {
    open spec fn obeys_eq_spec() -> bool {
        true
    }

    open spec fn eq_spec(&self, other: &Self) -> bool {
        self.0@ == other.0@
    }
}

impl PartialEq for LanguageModelProviderName {
    fn eq(&self, other: &Self) -> bool {
        self.0 == other.0
    }
}

impl vstd::std_specs::cmp::PartialEqSpecImpl for LanguageModelProviderName {
    open spec fn obeys_eq_spec() -> bool {
        true
    }

    open spec fn eq_spec(&self, other: &Self) -> bool {
        self.0@ == other.0@
    }
}

impl From<String> for LanguageModelId {
    fn from(value: String) -> Self {
        LanguageModelId(value)
    }
}

impl vstd::std_specs::convert::FromSpecImpl<String> for LanguageModelId {
    open spec fn obeys_from_spec() -> bool {
        true
    }

    open spec fn from_spec(value: String) -> Self {
        LanguageModelId(value)
    }
}

impl From<String> for LanguageModelName {
    fn from(value: String) -> Self {
        LanguageModelName(value)
    }
}

impl vstd::std_specs::convert::FromSpecImpl<String> for LanguageModelName {
    open spec fn obeys_from_spec() -> bool {
        true
    }

    open spec fn from_spec(value: String) -> Self {
        LanguageModelName(value)
    }
}

impl From<String> for LanguageModelProviderId {
    fn from(value: String) -> Self {
        LanguageModelProviderId(value)
    }
}

impl vstd::std_specs::convert::FromSpecImpl<String> for LanguageModelProviderId {
    open spec fn obeys_from_spec() -> bool {
        true
    }

    open spec fn from_spec(value: String) -> Self {
        LanguageModelProviderId(value)
    }
}

impl From<String> for LanguageModelProviderName {
    fn from(value: String) -> Self {
        LanguageModelProviderName(value)
    }
}

impl vstd::std_specs::convert::FromSpecImpl<String> for LanguageModelProviderName {
    open spec fn obeys_from_spec() -> bool {
        true
    }

    open spec fn from_spec(value: String) -> Self {
        LanguageModelProviderName(value)
    }
}

} // verus!
