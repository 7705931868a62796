use vstd::prelude::*;

verus! {

/// What canonicalizing a path gave.
#[derive(Debug, PartialEq, Eq)]
pub enum Resolution {
    /// The path did not resolve (it does not exist, or cannot be reached).
    Unresolved,
    /// The path resolved; these are the components of its canonical form.
    Resolved(Vec<String>),
    /// The path resolved, but to a form with a component that is not valid
    /// UTF-8, so it cannot be compared.
    Unrepresentable,
}

/// A canonicalization together with the path it was asked for. Only this
/// module creates one, so the two always belong together.
#[derive(Debug)]
pub struct Canonical {
    query: String,
    resolution: Resolution,
}

impl Canonical {
    /// The path that was canonicalized.
    pub closed spec fn query(&self) -> Seq<char> {
        self.query@
    }

    /// What canonicalizing it gave.
    pub closed spec fn outcome(&self) -> Resolution {
        self.resolution
    }

    pub fn queried_path(&self) -> (r: &str)
        ensures
            r@ == self.query(),
    {
        self.query.as_str()
    }

    pub fn resolution(&self) -> (r: &Resolution)
        ensures
            *r == self.outcome(),
    {
        &self.resolution
    }
}

/// Relies on `std::path::Path::canonicalize` to resolve `.`, `..` and
/// symbolic links and make the path absolute (this reads the filesystem and
/// fails when the path does not exist); the parts of a success are read with
/// `Path::components`. A failure is `Unresolved`; a success with a part that
/// is not valid UTF-8 is `Unrepresentable`. An absolute path has at least one
/// component.
#[verifier::external_body]
pub(crate) fn canonicalize(path: &str) -> (r: Canonical)
    ensures
        r.query() == path@,
        r.outcome() matches Resolution::Resolved(c) ==> c@.len() > 0,
{
    let resolution = match std::path::Path::new(path).canonicalize() {
        Err(_) => Resolution::Unresolved,
        Ok(p) => match p.components().map(|c| c.as_os_str().to_str().map(String::from)).collect() {
            Some(parts) => Resolution::Resolved(parts),
            None => Resolution::Unrepresentable,
        },
    };
    Canonical { query: path.to_string(), resolution }
}

} // verus!
