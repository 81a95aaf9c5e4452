//! The named parameters of a table request: which names there are, which of
//! them a request must give, and what is said of a request that breaks
//! either rule.

use vstd::prelude::*;

verus! {

/// A parameter of a table request.
#[derive(Clone, Copy, Debug, PartialEq, Eq, Structural)]
pub enum ParamKey {
    /// The name of the generated table.
    Name,
    /// The integer type of the entries.
    EntryType,
    /// The exponent of the curve.
    Gamma,
    /// The number of entries.
    Size,
    /// The output ceiling.
    MaxValue,
    /// Whether the curve is applied in the decoding direction.
    Decoding,
}

impl ParamKey {
    /// The name under which a request gives the parameter.
    pub open spec fn spec_name(self) -> Seq<char> {
        match self {
            ParamKey::Name => "name"@,
            ParamKey::EntryType => "entry_type"@,
            ParamKey::Gamma => "gamma"@,
            ParamKey::Size => "size"@,
            ParamKey::MaxValue => "max_value"@,
            ParamKey::Decoding => "decoding"@,
        }
    }

    /// The parameter that a name stands for, if it stands for one.
    pub open spec fn spec_from_name(name: Seq<char>) -> Option<ParamKey> {
        if name == "name"@ {
            Some(ParamKey::Name)
        } else if name == "entry_type"@ {
            Some(ParamKey::EntryType)
        } else if name == "gamma"@ {
            Some(ParamKey::Gamma)
        } else if name == "size"@ {
            Some(ParamKey::Size)
        } else if name == "max_value"@ {
            Some(ParamKey::MaxValue)
        } else if name == "decoding"@ {
            Some(ParamKey::Decoding)
        } else {
            None
        }
    }

    /// A request must give the first four parameters; the ceiling and the
    /// direction have defaults.
    pub open spec fn spec_is_required(self) -> bool {
        match self {
            ParamKey::Name | ParamKey::EntryType | ParamKey::Gamma | ParamKey::Size => true,
            ParamKey::MaxValue | ParamKey::Decoding => false,
        }
    }

    /// The six names are pairwise different, so each parameter is found
    /// again from its own name.
    pub proof fn lemma_name_round_trip(self)
        ensures
            Self::spec_from_name(self.spec_name()) == Some(self),
    {
        reveal_strlit("name");
        reveal_strlit("entry_type");
        reveal_strlit("gamma");
        reveal_strlit("size");
        reveal_strlit("max_value");
        reveal_strlit("decoding");
        assert("name"@[0] == 'n');
        assert("entry_type"@[0] == 'e');
        assert("gamma"@[0] == 'g');
        assert("size"@[0] == 's');
        assert("max_value"@[0] == 'm');
        assert("decoding"@[0] == 'd');
    }

    /// The name under which a request gives the parameter.
    pub fn name(self) -> (name: &'static str)
        ensures
            name@ == self.spec_name(),
    {
        match self {
            ParamKey::Name => "name",
            ParamKey::EntryType => "entry_type",
            ParamKey::Gamma => "gamma",
            ParamKey::Size => "size",
            ParamKey::MaxValue => "max_value",
            ParamKey::Decoding => "decoding",
        }
    }

    /// Looks a name up among the six parameters.
    pub fn from_name(name: &str) -> (key: Option<ParamKey>)
        ensures
            key == Self::spec_from_name(name@),
    {
        if name.eq("name") {
            Some(ParamKey::Name)
        } else if name.eq("entry_type") {
            Some(ParamKey::EntryType)
        } else if name.eq("gamma") {
            Some(ParamKey::Gamma)
        } else if name.eq("size") {
            Some(ParamKey::Size)
        } else if name.eq("max_value") {
            Some(ParamKey::MaxValue)
        } else if name.eq("decoding") {
            Some(ParamKey::Decoding)
        } else {
            None
        }
    }

    /// Whether a request must give the parameter.
    pub fn is_required(self) -> (required: bool)
        ensures
            required == self.spec_is_required(),
    {
        match self {
            ParamKey::Name | ParamKey::EntryType | ParamKey::Gamma | ParamKey::Size => true,
            ParamKey::MaxValue | ParamKey::Decoding => false,
        }
    }
}

/// The first required parameter that a request lacks, in the order name,
/// entry type, gamma, size; `None` where it has all four.
pub open spec fn spec_first_missing(
    has_name: bool,
    has_entry_type: bool,
    has_gamma: bool,
    has_size: bool,
) -> Option<ParamKey> {
    if !has_name {
        Some(ParamKey::Name)
    } else if !has_entry_type {
        Some(ParamKey::EntryType)
    } else if !has_gamma {
        Some(ParamKey::Gamma)
    } else if !has_size {
        Some(ParamKey::Size)
    } else {
        None
    }
}

/// Nothing but a required parameter is ever reported missing, and none is
/// reported exactly when the request has all four.
pub proof fn lemma_first_missing_is_required(
    has_name: bool,
    has_entry_type: bool,
    has_gamma: bool,
    has_size: bool,
)
    ensures
        spec_first_missing(has_name, has_entry_type, has_gamma, has_size) matches Some(key)
            ==> key.spec_is_required(),
        spec_first_missing(has_name, has_entry_type, has_gamma, has_size) is None <==> has_name
            && has_entry_type && has_gamma && has_size,
{
}

/// Finds the first required parameter that a request lacks, given which of
/// the four it has.
pub fn first_missing(has_name: bool, has_entry_type: bool, has_gamma: bool, has_size: bool) -> (key:
    Option<ParamKey>)
    ensures
        key == spec_first_missing(has_name, has_entry_type, has_gamma, has_size),
{
    if !has_name {
        Some(ParamKey::Name)
    } else if !has_entry_type {
        Some(ParamKey::EntryType)
    } else if !has_gamma {
        Some(ParamKey::Gamma)
    } else if !has_size {
        Some(ParamKey::Size)
    } else {
        None
    }
}

/// What is said of a required parameter that a request lacks.
pub fn missing_parameter_message(key: ParamKey) -> (text: String)
    ensures
        text@ == "Missing required parameter: "@ + key.spec_name(),
{
    let mut text = String::from_str("Missing required parameter: ");
    text.append(key.name());
    text
}

/// What is said of a name that stands for no parameter.
pub fn unknown_parameter_message(name: &str) -> (text: String)
    ensures
        text@ == "Unknown parameter: "@ + name@,
{
    let mut text = String::from_str("Unknown parameter: ");
    text.append(name);
    text
}

} // verus!
