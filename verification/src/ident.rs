//! Structured package identifiers and their canonical string rendering.
//! Every graph-package conversion renders identifiers through the one
//! formatter here, so two structurally equal identifiers always produce
//! byte-identical strings.

use vstd::prelude::*;

verus! {

/// A structured package identifier: origin and name, with optional
/// version and release qualifiers.
#[derive(Debug, Clone)]
pub struct PackageIdent {
    pub origin: String,
    pub name: String,
    pub version: Option<String>,
    pub release: Option<String>,
}

/// The canonical string form of an identifier: the present parts joined
/// by `/`, in origin, name, version, release order.  A release without a
/// version is never rendered.
pub open spec fn ident_text(i: PackageIdent) -> Seq<char> {
    let base = i.origin@ + "/"@ + i.name@;
    if i.version is Some {
        let with_version = base + "/"@ + i.version->0@;
        if i.release is Some {
            with_version + "/"@ + i.release->0@
        } else {
            with_version
        }
    } else {
        base
    }
}

impl PackageIdent {
    /// Renders this identifier in its canonical string form.
    pub fn to_ident_string(&self) -> (r: String)
        ensures
            r@ == ident_text(*self),
    {
        let mut s = self.origin.clone();
        s.append("/");
        s.append(self.name.as_str());
        match &self.version {
            Some(version) => {
                s.append("/");
                s.append(version.as_str());
                match &self.release {
                    Some(release) => {
                        s.append("/");
                        s.append(release.as_str());
                    },
                    None => {},
                }
            },
            None => {},
        }
        s
    }
}

} // verus!
