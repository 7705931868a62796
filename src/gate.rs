use vstd::prelude::*;
use crate::canonical::{canonicalize, Canonical, Resolution};
use crate::containment::{components_view, is_within, starts_with_components};

verus! {

/// What `std::path::Path::parent` gives for a path: the path without its
/// final component, or nothing when it ends in a root or prefix or is empty.
pub uninterp spec fn parent_of(path: Seq<char>) -> Option<Seq<char>>;

/// Relies on `std::path::Path::parent`: a function of the path's text alone.
#[verifier::external_body]
fn parent_path(path: &str) -> (r: Option<String>)
    ensures
        r matches Some(p) ==> parent_of(path@) == Some(p@),
        r is None ==> parent_of(path@) is None,
{
    std::path::Path::new(path).parent().map(|p| p.to_string_lossy().into_owned())
}

/// `path` is equal to or below the canonical form of `root`; a root that
/// did not resolve, or resolved to an unrepresentable form, contains nothing.
pub open spec fn root_contains(root: Resolution, path: Seq<Seq<char>>) -> bool {
    match root {
        Resolution::Resolved(r) => is_within(path, components_view(&r)),
        _ => false,
    }
}

/// `path` is equal to or below at least one root.
pub open spec fn admitted_by(path: Seq<Seq<char>>, roots: Seq<Resolution>) -> bool {
    exists|i: int| 0 <= i < roots.len() && root_contains(#[trigger] roots[i], path)
}

/// The containment rule. A candidate that resolved is judged by its own
/// form; one that resolved to an unrepresentable form is denied; one that
/// did not resolve is judged by its parent's form, when that resolved.
/// Every other case is denied.
pub open spec fn gate_allows(own: Resolution, parent: Option<Resolution>, roots: Seq<Resolution>) -> bool {
    match own {
        Resolution::Resolved(c) => admitted_by(components_view(&c), roots),
        Resolution::Unrepresentable => false,
        Resolution::Unresolved => match parent {
            Some(Resolution::Resolved(p)) => admitted_by(components_view(&p), roots),
            _ => false,
        },
    }
}

pub open spec fn outcomes(records: Seq<Canonical>) -> Seq<Resolution> {
    records.map_values(|c: Canonical| c.outcome())
}

pub open spec fn parent_outcome(parent: Option<Canonical>) -> Option<Resolution> {
    match parent {
        Some(p) => Some(p.outcome()),
        None => None,
    }
}

/// Tests whether the canonical `path` is equal to or below one of the
/// canonicalized `roots`; roots that did not resolve to a comparable form
/// are skipped.
pub fn admits(path: &Vec<String>, roots: &Vec<Canonical>) -> (r: bool)
    ensures
        r == admitted_by(components_view(path), outcomes(roots@)),
{
    let ghost rv = outcomes(roots@);
    let mut i: usize = 0;
    while i < roots.len()
        invariant
            i <= roots.len(),
            rv == outcomes(roots@),
            forall|j: int| 0 <= j < i ==> !root_contains(#[trigger] rv[j], components_view(path)),
        decreases roots.len() - i,
    {
        match roots[i].resolution() {
            Resolution::Resolved(root) => {
                if starts_with_components(path, root) {
                    assert(root_contains(rv[i as int], components_view(path)));
                    return true;
                }
            },
            _ => {},
        }
        i = i + 1;
    }
    false
}

/// Decides a request from the canonicalizations of the candidate (`own`),
/// of its parent directory (looked at only when `own` did not resolve) and
/// of each allowed root.
pub fn gate_decision(own: &Canonical, parent: &Option<Canonical>, roots: &Vec<Canonical>) -> (r: bool)
    ensures
        r == gate_allows(own.outcome(), parent_outcome(*parent), outcomes(roots@)),
{
    match own.resolution() {
        Resolution::Resolved(c) => admits(c, roots),
        Resolution::Unrepresentable => false,
        Resolution::Unresolved => match parent {
            Some(p) => match p.resolution() {
                Resolution::Resolved(c) => admits(c, roots),
                _ => false,
            },
            None => false,
        },
    }
}

/// The outcome of a containment check together with the canonicalizations
/// it rested on: `own` for the candidate, `parent` for its parent directory
/// (sought only when the candidate did not resolve), and one per root in the
/// order the roots were given. Each record keeps the path it was asked for.
pub struct GateVerdict {
    pub allowed: bool,
    pub own: Canonical,
    pub parent: Option<Canonical>,
    pub canonical_roots: Vec<Canonical>,
}

impl GateVerdict {
    /// The verdict is the containment rule over the records it carries, and
    /// those are the canonicalizations of `path`, of its parent (exactly when
    /// `path` did not resolve and has a parent) and of each of `roots`.
    pub open spec fn follows_rule(&self, path: Seq<char>, roots: Seq<Seq<char>>) -> bool {
        &&& self.allowed == gate_allows(
            self.own.outcome(),
            parent_outcome(self.parent),
            outcomes(self.canonical_roots@),
        )
        &&& self.own.query() == path
        &&& self.parent matches Some(q) ==> parent_of(path) == Some(q.query())
        &&& self.parent is Some <==> (self.own.outcome() is Unresolved && parent_of(path) is Some)
        &&& self.canonical_roots@.len() == roots.len()
        &&& forall|i: int| 0 <= i < roots.len() ==> #[trigger] self.canonical_roots@[i].query() == roots[i]
    }
}

/// Checks whether `path` may be read or written when `roots` are the allowed
/// directories. The path is canonicalized; when it does not resolve (a file
/// not yet created) its parent directory is canonicalized instead, one level
/// only. Each root is canonicalized too, and skipped when it gives no
/// comparable form. Any failure to resolve denies the request.
pub fn is_allowed_under(path: &str, roots: &Vec<String>) -> (r: GateVerdict)
    ensures
        r.follows_rule(path@, roots@.map_values(|s: String| s@)),
{
    let own = canonicalize(path);
    let parent = match own.resolution() {
        Resolution::Unresolved => match parent_path(path) {
            Some(p) => Some(canonicalize(p.as_str())),
            None => None,
        },
        _ => None,
    };
    let mut canonical_roots: Vec<Canonical> = Vec::new();
    let mut i: usize = 0;
    while i < roots.len()
        invariant
            i <= roots.len(),
            canonical_roots@.len() == i,
            forall|j: int| 0 <= j < i ==> #[trigger] canonical_roots@[j].query() == roots@[j]@,
        decreases roots.len() - i,
    {
        canonical_roots.push(canonicalize(roots[i].as_str()));
        i = i + 1;
    }
    let allowed = gate_decision(&own, &parent, &canonical_roots);
    GateVerdict { allowed, own, parent, canonical_roots }
}

/// A candidate whose canonical form (its own, or its parent's when it did
/// not resolve) is equal to or below a resolved root is allowed.
pub proof fn descendant_of_root_is_allowed(
    own: Resolution,
    parent: Option<Resolution>,
    form: Vec<String>,
    roots: Seq<Resolution>,
    i: int,
)
    requires
        own == Resolution::Resolved(form) || (own is Unresolved && parent == Some(Resolution::Resolved(form))),
        0 <= i < roots.len(),
        root_contains(roots[i], components_view(&form)),
    ensures
        gate_allows(own, parent, roots),
{
}

/// A candidate whose canonical form (its own, or its parent's when it did
/// not resolve) lies outside every root is denied.
pub proof fn outside_every_root_is_denied(
    own: Resolution,
    parent: Option<Resolution>,
    form: Vec<String>,
    roots: Seq<Resolution>,
)
    requires
        own == Resolution::Resolved(form) || (own is Unresolved && parent == Some(Resolution::Resolved(form))),
        forall|i: int| 0 <= i < roots.len() ==> !root_contains(#[trigger] roots[i], components_view(&form)),
    ensures
        !gate_allows(own, parent, roots),
{
}

/// Containment compares whole components: a path that differs from the base
/// in one of the base's components is not within it, even when the text of
/// one component starts with the other (`/home/userX` against `/home/user`).
pub proof fn differing_component_is_outside(path: Seq<Seq<char>>, base: Seq<Seq<char>>, k: int)
    requires
        0 <= k < base.len(),
        k < path.len(),
        path[k] != base[k],
    ensures
        !is_within(path, base),
{
    if base.len() <= path.len() {
        assert(path.subrange(0, base.len() as int)[k] == path[k]);
    }
}

/// A file that does not exist yet is allowed when its parent directory
/// resolves to a place equal to or below a root.
pub proof fn new_file_in_allowed_directory_is_allowed(parent: Vec<String>, roots: Seq<Resolution>, i: int)
    requires
        0 <= i < roots.len(),
        root_contains(roots[i], components_view(&parent)),
    ensures
        gate_allows(Resolution::Unresolved, Some(Resolution::Resolved(parent)), roots),
{
}

/// A candidate that does not resolve is denied, whatever the roots, when it
/// has no parent or its parent gives no comparable form; the search never
/// goes further up.
pub proof fn unresolvable_candidate_is_denied(parent: Option<Resolution>, roots: Seq<Resolution>)
    requires
        !(parent matches Some(Resolution::Resolved(_))),
    ensures
        !gate_allows(Resolution::Unresolved, parent, roots),
{
}

/// A candidate that resolves to a form that cannot be compared is denied,
/// whatever its parent and the roots.
pub proof fn unrepresentable_candidate_is_denied(parent: Option<Resolution>, roots: Seq<Resolution>)
    ensures
        !gate_allows(Resolution::Unrepresentable, parent, roots),
{
}

/// When no root resolves to a comparable form, every candidate is denied.
pub proof fn unresolvable_roots_deny(own: Resolution, parent: Option<Resolution>, roots: Seq<Resolution>)
    requires
        forall|i: int| 0 <= i < roots.len() ==> !(#[trigger] roots[i] is Resolved),
    ensures
        !gate_allows(own, parent, roots),
{
    assert forall|p: Seq<Seq<char>>| !admitted_by(p, roots) by {
        assert forall|i: int| 0 <= i < roots.len() implies !root_contains(#[trigger] roots[i], p) by {
            assert(!(roots[i] is Resolved));
        }
    }
}

} // verus!
