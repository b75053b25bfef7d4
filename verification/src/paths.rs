//! Resolution of the backend's working directory.

use vstd::prelude::*;

verus! {

/// A filesystem directory, as its sequence of components. The shell turns
/// a real path into components and back; the resolution logic here only
/// drops the last component (the parent directory) and appends one.
pub struct DirPath {
    pub components: Vec<String>,
}

impl View for DirPath {
    type V = Seq<Seq<char>>;

    open spec fn view(&self) -> Seq<Seq<char>> {
        self.components.deep_view()
    }
}

/// The directory without its final component; none when there is no
/// component to remove.
pub open spec fn parent_of(p: Seq<Seq<char>>) -> Option<Seq<Seq<char>>> {
    if p.len() == 0 {
        None
    } else {
        Some(p.drop_last())
    }
}

/// The fixed name of the backend directory.
pub open spec fn backend_dir_name() -> Seq<char> {
    "backend"@
}

/// Where the backend's working directory is. In development mode it sits
/// beside the current working directory; in packaged mode beside the
/// bundled resource directory, falling back to the development location
/// when that lookup failed. When the chosen base has no parent, the bare
/// relative name is used.
pub open spec fn resolved_backend_path(
    development: bool,
    resource_dir: Option<Seq<Seq<char>>>,
    cwd: Seq<Seq<char>>,
) -> Seq<Seq<char>> {
    let base = if development {
        cwd
    } else {
        match resource_dir {
            Some(r) => r,
            None => cwd,
        }
    };
    match parent_of(base) {
        Some(par) => par.push(backend_dir_name()),
        None => seq![backend_dir_name()],
    }
}

/// The view of an optional directory.
pub open spec fn opt_dir_view(d: Option<DirPath>) -> Option<Seq<Seq<char>>> {
    match d {
        Some(p) => Some(p@),
        None => None,
    }
}

/// Resolve the backend directory once at startup. `resource_dir` is the
/// bundled resource directory if the host could provide one; `cwd` is the
/// current working directory. In development mode the resource directory
/// is ignored.
pub fn resolve_backend_path(
    development: bool,
    resource_dir: Option<DirPath>,
    cwd: DirPath,
) -> (r: DirPath)
    ensures
        r@ == resolved_backend_path(development, opt_dir_view(resource_dir), cwd@),
{
    let mut base = if development {
        cwd
    } else {
        match resource_dir {
            Some(d) => d,
            None => cwd,
        }
    };
    let ghost base0 = base@;
    if base.components.len() > 0 {
        base.components.pop();
        base.components.push("backend".to_owned());
        proof {
            assert(base@ =~= base0.drop_last().push(backend_dir_name()));
        }
        base
    } else {
        let mut components: Vec<String> = Vec::new();
        components.push("backend".to_owned());
        let r = DirPath { components };
        proof {
            assert(r@ =~= seq![backend_dir_name()]);
        }
        r
    }
}

} // verus!
