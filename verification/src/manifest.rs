//! The typed manifest: what this tool reads out of a `package.json`.
//!
//! A manifest keeps only the fields the pipeline looks at — the package
//! name, the workspace glob patterns, and the names of the declared
//! dependencies — each with an explicit default when the field is absent.
//! A field that is present but of the wrong shape is a parse error.

use vstd::prelude::*;

use crate::json::{
    get_key_list_field, get_str_array_field, get_str_field, is_json, is_json_text,
    key_list_field_of, str_array_field_of, str_field_of,
};

verus! {

/// The fields of interest of a `package.json`, as plain values.
///
/// `dependencies` and `dev_dependencies` hold only the declared package
/// names (the keys of the JSON objects); the version strings play no part
/// here.
#[derive(Debug, PartialEq, Eq)]
pub struct Manifest {
    pub name: Option<String>,
    pub workspaces: Vec<String>,
    pub dependencies: Vec<String>,
    pub dev_dependencies: Vec<String>,
}

/// A manifest as its character content: the mathematical value that the
/// contracts speak of.
#[verifier::ext_equal]
pub ghost struct ManifestView {
    pub name: Option<Seq<char>>,
    pub workspaces: Seq<Seq<char>>,
    pub dependencies: Seq<Seq<char>>,
    pub dev_dependencies: Seq<Seq<char>>,
}

impl View for Manifest {
    type V = ManifestView;

    open spec fn view(&self) -> ManifestView {
        ManifestView {
            name: self.name.deep_view(),
            workspaces: self.workspaces.deep_view(),
            dependencies: self.dependencies.deep_view(),
            dev_dependencies: self.dev_dependencies.deep_view(),
        }
    }
}

/// Why a manifest text was rejected.
#[derive(Debug, Clone, Copy, PartialEq, Eq, Structural)]
pub enum ManifestError {
    /// The text is not a JSON document.
    Syntax,
    /// A `name` field is present but is not a string.
    NameNotString,
    /// A `workspaces` field is present but is not an array of strings.
    WorkspacesNotStrings,
    /// A `dependencies` field is present but is not an object.
    DependenciesNotObject,
    /// A `devDependencies` field is present but is not an object.
    DevDependenciesNotObject,
}

/// What parsing a manifest text yields: the `Syntax` error on a text that
/// is not JSON; otherwise the first shape error among the fields, in
/// field order; otherwise the manifest whose fields are the document's,
/// with an absent field defaulting to no name, no workspaces, no
/// dependencies.
pub open spec fn spec_parse_manifest(s: Seq<char>) -> Result<ManifestView, ManifestError> {
    if !is_json(s) {
        Err(ManifestError::Syntax)
    } else if str_field_of(s, "name"@) == Some(None::<Seq<char>>) {
        Err(ManifestError::NameNotString)
    } else if str_array_field_of(s, "workspaces"@) == Some(None::<Seq<Seq<char>>>) {
        Err(ManifestError::WorkspacesNotStrings)
    } else if key_list_field_of(s, "dependencies"@) == Some(None::<Seq<Seq<char>>>) {
        Err(ManifestError::DependenciesNotObject)
    } else if key_list_field_of(s, "devDependencies"@) == Some(None::<Seq<Seq<char>>>) {
        Err(ManifestError::DevDependenciesNotObject)
    } else {
        Ok(
            ManifestView {
                name: match str_field_of(s, "name"@) {
                    Some(n) => n,
                    None => None,
                },
                workspaces: match str_array_field_of(s, "workspaces"@) {
                    Some(Some(w)) => w,
                    _ => Seq::empty(),
                },
                dependencies: match key_list_field_of(s, "dependencies"@) {
                    Some(Some(k)) => k,
                    _ => Seq::empty(),
                },
                dev_dependencies: match key_list_field_of(s, "devDependencies"@) {
                    Some(Some(k)) => k,
                    _ => Seq::empty(),
                },
            },
        )
    }
}

impl Manifest {
    /// The declared dependency names, direct and dev, as sequences of
    /// characters.
    pub open spec fn spec_all_dependencies(self) -> Seq<Seq<char>> {
        self.dependencies.deep_view() + self.dev_dependencies.deep_view()
    }

    /// Whether this manifest declares `pkg` under `dependencies` or
    /// `devDependencies`.
    pub open spec fn spec_declares(self, pkg: Seq<char>) -> bool {
        self.spec_all_dependencies().contains(pkg)
    }

    /// The union of the declared direct and dev dependency names, in
    /// declaration order, direct ones first.
    pub fn all_dependencies(&self) -> (r: Vec<String>)
        ensures
            r.deep_view() == self.spec_all_dependencies(),
    {
        let mut r: Vec<String> = Vec::new();
        let mut i: usize = 0;
        while i < self.dependencies.len()
            invariant
                i <= self.dependencies.len(),
                r@ =~= self.dependencies@.subrange(0, i as int),
            decreases self.dependencies.len() - i,
        {
            r.push(self.dependencies[i].clone());
            i += 1;
        }
        let mut j: usize = 0;
        while j < self.dev_dependencies.len()
            invariant
                j <= self.dev_dependencies.len(),
                r@ =~= self.dependencies@ + self.dev_dependencies@.subrange(0, j as int),
            decreases self.dev_dependencies.len() - j,
        {
            r.push(self.dev_dependencies[j].clone());
            j += 1;
        }
        proof {
            assert(r@ =~= self.dependencies@ + self.dev_dependencies@);
            assert(r.deep_view() =~= self.spec_all_dependencies());
        }
        r
    }
}

/// Parses a manifest text, returning exactly `spec_parse_manifest` of it:
/// `ManifestError::Syntax` on texts that are not JSON; a field of the
/// wrong shape gives the error named after it; an absent field gets its
/// default.
pub fn parse_manifest(text: &str) -> (r: Result<Manifest, ManifestError>)
    ensures
        r matches Ok(m) ==> spec_parse_manifest(text@) == Ok::<ManifestView, ManifestError>(m@),
        r matches Err(e) ==> spec_parse_manifest(text@) == Err::<ManifestView, ManifestError>(e),
{
    if !is_json_text(text) {
        return Err(ManifestError::Syntax);
    }
    let name = match get_str_field(text, "name") {
        Some(Some(s)) => Some(s),
        Some(None) => {
            return Err(ManifestError::NameNotString);
        },
        None => None,
    };
    let workspaces = match get_str_array_field(text, "workspaces") {
        Some(Some(ws)) => ws,
        Some(None) => {
            return Err(ManifestError::WorkspacesNotStrings);
        },
        None => Vec::new(),
    };
    let dependencies = match get_key_list_field(text, "dependencies") {
        Some(Some(ks)) => ks,
        Some(None) => {
            return Err(ManifestError::DependenciesNotObject);
        },
        None => Vec::new(),
    };
    let dev_dependencies = match get_key_list_field(text, "devDependencies") {
        Some(Some(ks)) => ks,
        Some(None) => {
            return Err(ManifestError::DevDependenciesNotObject);
        },
        None => Vec::new(),
    };
    let m = Manifest { name, workspaces, dependencies, dev_dependencies };
    proof {
        assert(spec_parse_manifest(text@) matches Ok(mv) && mv =~= m@);
        assert(spec_parse_manifest(text@) == Ok::<ManifestView, ManifestError>(m@));
    }
    Ok(m)
}

} // verus!
