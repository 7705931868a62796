//! Path-containment guard for file persistence: a candidate path is read or
//! written only when its canonical form lies inside one of the user's
//! download, document or desktop directories.

mod canonical;
mod containment;
mod gate;
mod roots;
mod secure_io;

pub use canonical::{Canonical, Resolution};
pub use containment::{components_view, is_within, starts_with_components};
pub use gate::{
    admits, descendant_of_root_is_allowed, differing_component_is_outside, gate_decision,
    is_allowed_under, new_file_in_allowed_directory_is_allowed, outside_every_root_is_denied,
    unresolvable_candidate_is_denied, unresolvable_roots_deny, unrepresentable_candidate_is_denied,
    GateVerdict,
};
pub use roots::{listing_is_deterministic, KnownDirs};
pub use secure_io::{
    authorize, check_access, denial_message, failure_message, is_path_allowed,
    messages_disclose_only_io_errors, read_outcome, save_outcome, Operation,
};
