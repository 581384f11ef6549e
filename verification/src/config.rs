//! The states and territories the crawl knows, and which of them a run covers.
use vstd::prelude::*;
use crate::text::{
    chars_eq, chars_of, eq_ignore_ascii_case, eq_ignore_case, parse_usize, trim, trim_chars,
    usize_text,
};

verus! {

/// The states without a general state sales tax.
pub const TAX_FREE_STATES: [&'static str; 5] = ["AK", "DE", "MT", "NH", "OR"];

/// Every state, district and territory, by name and two-letter code.
pub const STATES: [(&'static str, &'static str); 57] = [
    ("Alabama", "AL"),
    ("Alaska", "AK"),
    ("Arizona", "AZ"),
    ("Arkansas", "AR"),
    ("California", "CA"),
    ("Colorado", "CO"),
    ("Connecticut", "CT"),
    ("Delaware", "DE"),
    ("District of Columbia", "DC"),
    ("Florida", "FL"),
    ("Georgia", "GA"),
    ("Hawaii", "HI"),
    ("Idaho", "ID"),
    ("Illinois", "IL"),
    ("Indiana", "IN"),
    ("Iowa", "IA"),
    ("Kansas", "KS"),
    ("Kentucky", "KY"),
    ("Louisiana", "LA"),
    ("Maine", "ME"),
    ("Maryland", "MD"),
    ("Massachusetts", "MA"),
    ("Michigan", "MI"),
    ("Minnesota", "MN"),
    ("Mississippi", "MS"),
    ("Missouri", "MO"),
    ("Montana", "MT"),
    ("Nebraska", "NE"),
    ("Nevada", "NV"),
    ("New Hampshire", "NH"),
    ("New Jersey", "NJ"),
    ("New Mexico", "NM"),
    ("New York", "NY"),
    ("North Carolina", "NC"),
    ("North Dakota", "ND"),
    ("Ohio", "OH"),
    ("Oklahoma", "OK"),
    ("Oregon", "OR"),
    ("Pennsylvania", "PA"),
    ("Rhode Island", "RI"),
    ("South Carolina", "SC"),
    ("South Dakota", "SD"),
    ("Tennessee", "TN"),
    ("Texas", "TX"),
    ("Utah", "UT"),
    ("Vermont", "VT"),
    ("Virginia", "VA"),
    ("Washington", "WA"),
    ("West Virginia", "WV"),
    ("Wisconsin", "WI"),
    ("Wyoming", "WY"),
    ("American Samoa", "AS"),
    ("Guam", "GU"),
    ("Northern Mariana Islands", "MP"),
    ("Puerto Rico", "PR"),
    ("US Virgin Islands", "VI"),
    ("US Minor Outlying Islands", "UM"),
];

/// Entry `i` of `STATES` names `value` (trimmed), by full name or by code, up to ASCII case.
pub open spec fn state_entry_matches(i: int, value: Seq<char>) -> bool {
    ||| eq_ignore_ascii_case(STATES@[i].0@, trim(value))
    ||| eq_ignore_ascii_case(STATES@[i].1@, trim(value))
}

/// The first entry of `STATES` at or after `i` that names `value`.
pub open spec fn state_index_from(value: Seq<char>, i: int) -> Option<int>
    decreases 57 - i,
{
    if i < 0 || i >= 57 {
        None
    } else if state_entry_matches(i, value) {
        Some(i)
    } else {
        state_index_from(value, i + 1)
    }
}

/// The two-letter code of the state that `value` names.
pub open spec fn state_code_of(value: Seq<char>) -> Option<Seq<char>> {
    match state_index_from(value, 0) {
        Some(i) => Some(STATES@[i].1@),
        None => None,
    }
}

/// `code` is one of the codes of `TAX_FREE_STATES`.
pub open spec fn is_tax_free_code(code: Seq<char>) -> bool {
    exists|i: int| 0 <= i < 5 && TAX_FREE_STATES@[i]@ == code
}

/// The code of a state, from its name or code, ignoring surrounding whitespace and
/// ASCII case; `None` for anything that is not a US state, district or territory.
pub fn state_code(value: &str) -> (r: Option<&'static str>)
    ensures
        match state_index_from(value@, 0) {
            Some(i) => r == Some(STATES@[i].1),
            None => r is None,
        },
{
    let v = chars_of(value);
    let t = trim_chars(v.as_slice());
    let mut i: usize = 0;
    while i < 57
        invariant
            i <= 57,
            t@ == trim(value@),
            state_index_from(value@, 0) == state_index_from(value@, i as int),
        decreases 57 - i,
    {
        let (name, code) = STATES[i];
        let name_chars = chars_of(name);
        let code_chars = chars_of(code);
        if eq_ignore_case(name_chars.as_slice(), t.as_slice()) || eq_ignore_case(
            code_chars.as_slice(),
            t.as_slice(),
        ) {
            return Some(code);
        }
        i = i + 1;
    }
    None
}

/// Which addresses a run covers.
#[derive(Clone, Copy, Debug, PartialEq, Eq, Structural)]
pub enum Scope {
    /// the tax-free states and Nevada
    TaxFreeNv,
    /// the states without a general state sales tax
    TaxFree,
    /// every state, district and territory
    All,
}

/// Why a configuration value was refused.
#[derive(Clone, Debug, PartialEq, Eq)]
pub enum ConfigError {
    /// the scope name is not one of the three known ones
    UnknownScope,
    /// the named setting is not an integer
    NotInteger { name: String },
    /// the named setting lies outside its bounds
    OutOfRange { name: String, min: usize, max: usize },
    /// the USPS switch is neither `true` nor `false`
    InvalidSwitch,
}

/// The text of the scope's name.
pub open spec fn scope_name(scope: Scope) -> Seq<char> {
    match scope {
        Scope::TaxFreeNv => "tax-free-nv"@,
        Scope::TaxFree => "tax-free"@,
        Scope::All => "all"@,
    }
}

/// The scope that a name denotes.
pub open spec fn scope_named(value: Seq<char>) -> Option<Scope> {
    if value == "tax-free-nv"@ {
        Some(Scope::TaxFreeNv)
    } else if value == "tax-free"@ {
        Some(Scope::TaxFree)
    } else if value == "all"@ {
        Some(Scope::All)
    } else {
        None
    }
}

/// A state belongs to a scope: it is a known state, and either the scope is `All`,
/// or it is tax-free, or the scope is `TaxFreeNv` and it is Nevada.
pub open spec fn scope_includes(scope: Scope, state: Seq<char>) -> bool {
    match state_code_of(state) {
        Some(code) => scope == Scope::All || is_tax_free_code(code) || (scope == Scope::TaxFreeNv
            && code == "NV"@),
        None => false,
    }
}

impl Scope {
    /// The scope that `value` names: `tax-free-nv`, `tax-free` or `all`.
    pub fn parse(value: &str) -> (r: Result<Scope, ConfigError>)
        ensures
            match scope_named(value@) {
                Some(s) => r == Ok::<Scope, ConfigError>(s),
                None => r == Err::<Scope, ConfigError>(ConfigError::UnknownScope),
            },
    {
        let v = chars_of(value);
        let a = chars_of("tax-free-nv");
        let b = chars_of("tax-free");
        let c = chars_of("all");
        if chars_eq(v.as_slice(), a.as_slice()) {
            Ok(Scope::TaxFreeNv)
        } else if chars_eq(v.as_slice(), b.as_slice()) {
            Ok(Scope::TaxFree)
        } else if chars_eq(v.as_slice(), c.as_slice()) {
            Ok(Scope::All)
        } else {
            Err(ConfigError::UnknownScope)
        }
    }

    /// The scope's name, as `parse` reads it.
    pub fn name(self) -> (r: &'static str)
        ensures
            r@ == scope_name(self),
    {
        match self {
            Scope::TaxFreeNv => "tax-free-nv",
            Scope::TaxFree => "tax-free",
            Scope::All => "all",
        }
    }

    /// Whether `state` (a name or a code) belongs to this scope.
    pub fn includes(self, state: &str) -> (r: bool)
        ensures
            r == scope_includes(self, state@),
    {
        match state_code(state) {
            None => false,
            Some(code) => {
                let cs = chars_of(code);
                let mut tax_free = false;
                let mut i: usize = 0;
                while i < 5
                    invariant
                        i <= 5,
                        cs@ == code@,
                        tax_free == (exists|j: int| 0 <= j < i && TAX_FREE_STATES@[j]@ == code@),
                    decreases 5 - i,
                {
                    let t = chars_of(TAX_FREE_STATES[i]);
                    if chars_eq(t.as_slice(), cs.as_slice()) {
                        tax_free = true;
                    }
                    i = i + 1;
                }
                let nv = chars_of("NV");
                self == Scope::All || tax_free || (self == Scope::TaxFreeNv && chars_eq(
                    cs.as_slice(),
                    nv.as_slice(),
                ))
            },
        }
    }
}

/// The value a bounded numeric setting takes: its text when given (else `default`),
/// read as `usize::from_str` reads it, which must lie in `min..=max`.
pub open spec fn bounded_value_of(raw: Option<Seq<char>>, default: usize, min: usize, max: usize) -> Option<usize> {
    let v = match raw {
        Some(text) => usize_text(text),
        None => Some(default),
    };
    match v {
        Some(n) => if min <= n <= max { Some(n) } else { None },
        None => None,
    }
}

/// Checks a bounded numeric setting named `name` whose text is `raw` (`None` when
/// the setting is absent, which gives `default`).
pub fn bounded_value(name: &str, raw: Option<&str>, default: usize, min: usize, max: usize) -> (r: Result<usize, ConfigError>)
    ensures
        match r {
            Ok(n) => bounded_value_of(opt_text(raw), default, min, max) == Some(n),
            Err(ConfigError::NotInteger { name: n }) => n@ == name@ && raw is Some && usize_text(raw->Some_0@) is None,
            Err(ConfigError::OutOfRange { name: n, min: lo, max: hi }) => n@ == name@ && lo == min && hi == max
                && bounded_value_of(opt_text(raw), default, min, max) is None
                && (raw is Some ==> usize_text(raw->Some_0@) is Some),
            Err(_) => false,
        },
{
    let value = match raw {
        Some(text) => {
            let cs = chars_of(text);
            match parse_usize(cs.as_slice()) {
                Some(n) => n,
                None => return Err(ConfigError::NotInteger { name: String::from_str(name) }),
            }
        },
        None => default,
    };
    if min <= value && value <= max {
        Ok(value)
    } else {
        Err(ConfigError::OutOfRange { name: String::from_str(name), min, max })
    }
}

/// The contents of an optional string slice.
pub open spec fn opt_text(s: Option<&str>) -> Option<Seq<char>> {
    match s {
        Some(x) => Some(x@),
        None => None,
    }
}

/// The value a switch's text denotes: `true` or `false`, nothing else.
pub open spec fn switch_value(value: Seq<char>) -> Option<bool> {
    if value == "true"@ {
        Some(true)
    } else if value == "false"@ {
        Some(false)
    } else {
        None
    }
}

/// The USPS switch: `true` or `false`, nothing else.
pub fn parse_switch(value: &str) -> (r: Result<bool, ConfigError>)
    ensures
        match switch_value(value@) {
            Some(b) => r == Ok::<bool, ConfigError>(b),
            None => r == Err::<bool, ConfigError>(ConfigError::InvalidSwitch),
        },
{
    let v = chars_of(value);
    let t = chars_of("true");
    let f = chars_of("false");
    if chars_eq(v.as_slice(), t.as_slice()) {
        Ok(true)
    } else if chars_eq(v.as_slice(), f.as_slice()) {
        Ok(false)
    } else {
        Err(ConfigError::InvalidSwitch)
    }
}

} // verus!
