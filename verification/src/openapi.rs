//! The part of an OpenAPI description that routes are checked against:
//! its paths, the operations documented under each path, and their ids.
use vstd::prelude::*;

verus! {

/// The HTTP operations an OpenAPI path item can document.
#[derive(Clone, Copy, Debug, PartialEq, Eq, PartialOrd, Ord, Hash, Structural)]
pub enum PathItemType {
    Get,
    Post,
    Put,
    Delete,
    Options,
    Head,
    Patch,
    Trace,
    Connect,
}

/// The HTTP method, by its token, whose operations a path-item type
/// documents.
pub open spec fn path_item_method_token(t: PathItemType) -> Seq<char> {
    match t {
        PathItemType::Get => seq!['G', 'E', 'T'],
        PathItemType::Post => seq!['P', 'O', 'S', 'T'],
        PathItemType::Put => seq!['P', 'U', 'T'],
        PathItemType::Delete => seq!['D', 'E', 'L', 'E', 'T', 'E'],
        PathItemType::Options => seq!['O', 'P', 'T', 'I', 'O', 'N', 'S'],
        PathItemType::Head => seq!['H', 'E', 'A', 'D'],
        PathItemType::Patch => seq!['P', 'A', 'T', 'C', 'H'],
        PathItemType::Trace => seq!['T', 'R', 'A', 'C', 'E'],
        PathItemType::Connect => seq!['C', 'O', 'N', 'N', 'E', 'C', 'T'],
    }
}

/// One documented operation of a path.
#[derive(Clone, Debug, PartialEq, Eq)]
pub struct Operation {
    pub method: PathItemType,
    pub operation_id: Option<String>,
}

/// A documented path with its operations.
#[derive(Clone, Debug, PartialEq, Eq)]
pub struct PathItem {
    pub path: String,
    pub operations: Vec<Operation>,
}

/// The documented paths of an API. Where a path or an operation is listed
/// twice, its first entry is the one that counts.
#[derive(Clone, Debug, PartialEq, Eq)]
pub struct ApiSpec {
    pub paths: Vec<PathItem>,
}

pub type OperationView = (PathItemType, Option<Seq<char>>);

pub type PathItemView = (Seq<char>, Seq<OperationView>);

pub open spec fn opt_string_view(s: Option<String>) -> Option<Seq<char>> {
    match s {
        Some(t) => Some(t@),
        None => None,
    }
}

impl View for Operation {
    type V = OperationView;

    open spec fn view(&self) -> OperationView {
        (self.method, opt_string_view(self.operation_id))
    }
}

impl View for PathItem {
    type V = PathItemView;

    open spec fn view(&self) -> PathItemView {
        (self.path@, self.operations@.map_values(|o: Operation| o@))
    }
}

impl View for ApiSpec {
    type V = Seq<PathItemView>;

    open spec fn view(&self) -> Seq<PathItemView> {
        self.paths@.map_values(|p: PathItem| p@)
    }
}

/// The operations documented under `route`, if the route is documented.
pub open spec fn lookup_path(paths: Seq<PathItemView>, route: Seq<char>) -> Option<Seq<OperationView>>
    decreases paths.len(),
{
    if paths.len() == 0 {
        None
    } else if paths[0].0 == route {
        Some(paths[0].1)
    } else {
        lookup_path(paths.drop_first(), route)
    }
}

/// The operation id documented for `method`, if the method is documented.
pub open spec fn lookup_operation(ops: Seq<OperationView>, method: PathItemType) -> Option<
    Option<Seq<char>>,
>
    decreases ops.len(),
{
    if ops.len() == 0 {
        None
    } else if ops[0].0 == method {
        Some(ops[0].1)
    } else {
        lookup_operation(ops.drop_first(), method)
    }
}

impl ApiSpec {
    /// The path item documented for `route`.
    pub fn get_path_item(&self, route: &String) -> (res: Option<&PathItem>)
        ensures
            match lookup_path(self@, route@) {
                Some(ops) => res is Some && res->0@.0 == route@ && res->0@.1 == ops,
                None => res is None,
            },
    {
        let ghost v = self@;
        let mut i: usize = 0;
        assert(v.skip(0) =~= v);
        while i < self.paths.len()
            invariant
                v == self@,
                v.len() == self.paths@.len(),
                i <= self.paths@.len(),
                lookup_path(v, route@) == lookup_path(v.skip(i as int), route@),
            decreases self.paths.len() - i,
        {
            proof {
                assert(v.skip(i as int).drop_first() =~= v.skip(i + 1));
                assert(v.skip(i as int)[0] == v[i as int]);
            }
            if self.paths[i].path == *route {
                return Some(&self.paths[i]);
            }
            i = i + 1;
        }
        proof {
            assert(v.skip(i as int).len() == 0);
        }
        None
    }
}

impl PathItem {
    /// The operation documented for `method`.
    pub fn get_operation(&self, method: PathItemType) -> (res: Option<&Operation>)
        ensures
            match lookup_operation(self@.1, method) {
                Some(id) => res is Some && res->0.method == method && res->0@.1 == id,
                None => res is None,
            },
    {
        let ghost v = self@.1;
        let mut i: usize = 0;
        assert(v.skip(0) =~= v);
        while i < self.operations.len()
            invariant
                v == self@.1,
                v.len() == self.operations@.len(),
                i <= self.operations@.len(),
                lookup_operation(v, method) == lookup_operation(v.skip(i as int), method),
            decreases self.operations.len() - i,
        {
            proof {
                assert(v.skip(i as int).drop_first() =~= v.skip(i + 1));
                assert(v.skip(i as int)[0] == v[i as int]);
            }
            if self.operations[i].method == method {
                return Some(&self.operations[i]);
            }
            i = i + 1;
        }
        proof {
            assert(v.skip(i as int).len() == 0);
        }
        None
    }
}

} // verus!
