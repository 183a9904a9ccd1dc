use vstd::prelude::*;
use vstd::string::*;
use crate::error::Error;
use crate::strutil::str_eq;

verus! {

/// Wire-level boolean: the service expects the literal strings `"True"`
/// and `"False"` rather than native JSON booleans.
#[derive(Clone, Copy, Debug, PartialEq, Eq, Structural)]
pub enum Boolean {
    True,
    False,
}

impl Boolean {
    /// The exact wire text of this value.
    pub open spec fn spec_encoded(self) -> Seq<char> {
        match self {
            Boolean::True => "True"@,
            Boolean::False => "False"@,
        }
    }

    /// Which strings decode, and to what: exactly the two wire literals.
    pub open spec fn spec_decoded(s: Seq<char>) -> Option<Boolean> {
        if s == "True"@ {
            Some(Boolean::True)
        } else if s == "False"@ {
            Some(Boolean::False)
        } else {
            None
        }
    }

    /// Encode to the wire literal.
    pub fn encode(self) -> (r: String)
        ensures
            r@ == self.spec_encoded(),
    {
        match self {
            Boolean::True => String::from_str("True"),
            Boolean::False => String::from_str("False"),
        }
    }

    /// Decode a wire literal; any other string is a `Deserialization` error.
    pub fn decode(s: &str) -> (r: Result<Boolean, Error>)
        ensures
            match r {
                Ok(b) => Self::spec_decoded(s@) == Some(b),
                Err(e) => Self::spec_decoded(s@) is None && e == Error::Deserialization,
            },
    {
        if str_eq(s, "True") {
            Ok(Boolean::True)
        } else if str_eq(s, "False") {
            Ok(Boolean::False)
        } else {
            Err(Error::Deserialization)
        }
    }
}

/// Law: encoding a tri-state boolean and decoding the resulting text gives
/// the original value back, for both values.
pub proof fn lemma_boolean_round_trip(b: Boolean)
    ensures
        Boolean::spec_decoded(b.spec_encoded()) == Some(b),
{
    reveal_strlit("True");
    reveal_strlit("False");
    assert("True"@.len() == 4);
    assert("False"@.len() == 5);
}

impl From<bool> for Boolean {
    /// A native `true` is the wire value `True`, `false` the wire `False`.
    fn from(value: bool) -> (r: Boolean) {
        match value {
            true => Boolean::True,
            false => Boolean::False,
        }
    }
}

impl vstd::std_specs::convert::FromSpecImpl<bool> for Boolean {
    open spec fn obeys_from_spec() -> bool {
        true
    }

    open spec fn from_spec(v: bool) -> Boolean {
        if v {
            Boolean::True
        } else {
            Boolean::False
        }
    }
}

impl From<Boolean> for bool {
    /// The wire value `True` is the native `true`, `False` the native `false`.
    fn from(value: Boolean) -> (r: bool) {
        match value {
            Boolean::True => true,
            Boolean::False => false,
        }
    }
}

impl vstd::std_specs::convert::FromSpecImpl<Boolean> for bool {
    open spec fn obeys_from_spec() -> bool {
        true
    }

    open spec fn from_spec(v: Boolean) -> bool {
        v is True
    }
}

} // verus!
