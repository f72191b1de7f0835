use vstd::prelude::*;

verus! {

/// A hierarchical snippet name such as `config/mysql`, written with `/`
/// between its segments.
#[derive(Default, Debug, Clone)]
pub struct TemplateName(pub String);

/// `name` with every `/` turned into `\`.
pub open spec fn backslashed(name: Seq<char>) -> Seq<char> {
    name.map_values(|c: char| if c == '/' { '\\' } else { c })
}

/// The path text of `name` on a platform whose main path separator is `separator`:
/// unchanged, except where that separator is a backslash.
pub open spec fn normalized_name(name: Seq<char>, separator: char) -> Seq<char> {
    if separator == '\\' {
        backslashed(name)
    } else {
        name
    }
}

/// Relies on the constant std::path::MAIN_SEPARATOR: the separator of the
/// platform this runs on (nothing is assumed of its value).
#[verifier::external_body]
fn main_separator() -> (c: char) {
    std::path::MAIN_SEPARATOR
}

/// Relies on str::replace: every `/` is replaced by `\`, other characters are kept.
#[verifier::external_body]
fn replace_slashes(s: &str) -> (r: String)
    ensures
        r@ == backslashed(s@),
{
    s.replace('/', "\\")
}

impl TemplateName {
    pub open spec fn view(&self) -> Seq<char> {
        self.0@
    }

    /// The name as path text for a platform whose main separator is `separator`.
    pub fn normalized_for(&self, separator: char) -> (r: String)
        ensures
            r@ == normalized_name(self@, separator),
    {
        if separator == '\\' {
            replace_slashes(self.0.as_str())
        } else {
            self.0.clone()
        }
    }

    /// The name as path text for the platform this runs on: unchanged on
    /// platforms that separate path segments with `/`, and with `\` in place
    /// of each `/` where the separator is a backslash.
    pub fn normalized(&self) -> (r: String)
        ensures
            r@ == self@ || r@ == backslashed(self@),
    {
        self.normalized_for(main_separator())
    }
}

impl From<String> for TemplateName {
    fn from(s: String) -> (r: TemplateName)
        ensures
            r@ == s@,
    {
        TemplateName(s)
    }
}

impl vstd::std_specs::convert::FromSpecImpl<String> for TemplateName {
    open spec fn obeys_from_spec() -> bool {
        true
    }

    open spec fn from_spec(v: String) -> TemplateName {
        TemplateName(v)
    }
}

impl From<&str> for TemplateName {
    fn from(s: &str) -> (r: TemplateName)
        ensures
            r@ == s@,
    {
        TemplateName(s.to_owned())
    }
}

/// A `String` is not determined by its characters in specifications, so this
/// conversion states its result through its own `ensures` alone.
impl vstd::std_specs::convert::FromSpecImpl<&str> for TemplateName {
    open spec fn obeys_from_spec() -> bool {
        false
    }

    open spec fn from_spec(v: &str) -> TemplateName {
        TemplateName(choose|s: String| s@ == v@)
    }
}

impl std::str::FromStr for TemplateName {
    type Err = String;

    fn from_str(s: &str) -> (r: Result<TemplateName, String>)
        ensures
            r matches Ok(n) && n@ == s@,
    {
        Ok(TemplateName(s.to_owned()))
    }
}

} // verus!
