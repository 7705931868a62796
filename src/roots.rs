use vstd::prelude::*;
use crate::containment::components_view;

verus! {

/// The well-known user directories as the host reported them; each may be
/// missing. Looking them up reads the environment and the user's settings
/// on disk, which callers do before handing the answers here.
pub struct KnownDirs {
    pub download: Option<String>,
    pub document: Option<String>,
    pub desktop: Option<String>,
}

pub open spec fn present(o: Option<String>) -> Seq<Seq<char>> {
    match o {
        Some(s) => seq![s@],
        None => Seq::empty(),
    }
}

/// The allowed roots in their display order: downloads, documents, desktop,
/// leaving out those the host could not resolve.
pub open spec fn listing(
    download: Option<String>,
    document: Option<String>,
    desktop: Option<String>,
) -> Seq<Seq<char>> {
    present(download) + present(document) + present(desktop)
}

impl KnownDirs {
    pub open spec fn listing_spec(&self) -> Seq<Seq<char>> {
        listing(self.download, self.document, self.desktop)
    }

    /// The directories that resolved, in the order downloads, documents,
    /// desktop.
    pub fn allowed_roots(&self) -> (r: Vec<String>)
        ensures
            components_view(&r) =~= self.listing_spec(),
            r@.len() <= 3,
    {
        let mut r: Vec<String> = Vec::new();
        match &self.download {
            Some(d) => r.push(d.clone()),
            None => {},
        }
        match &self.document {
            Some(d) => r.push(d.clone()),
            None => {},
        }
        match &self.desktop {
            Some(d) => r.push(d.clone()),
            None => {},
        }
        r
    }
}

/// For the same answers from the host, the listing is the same sequence:
/// the listing is a function of the resolved directories alone.
pub proof fn listing_is_deterministic(a: KnownDirs, b: KnownDirs)
    requires
        a.download == b.download,
        a.document == b.document,
        a.desktop == b.desktop,
    ensures
        a.listing_spec() == b.listing_spec(),
{
}

} // verus!
