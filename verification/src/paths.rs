//! File paths: where an included file or an imported module is looked for.
//! Taking a path's parent and joining two paths are lexical operations of
//! `std::path`; which of the places found holds a file is for the caller to
//! say.
use vstd::prelude::*;

verus! {

/// What `std::path::Path::parent` gives for the path `p`, as a string:
/// `None` where `p` has no parent (an empty path or a root).
pub uninterp spec fn parent_of(p: Seq<char>) -> Option<Seq<char>>;

/// What `std::path::Path::join` gives for `name` joined to `base`, as a
/// string.
pub uninterp spec fn joined(base: Seq<char>, name: Seq<char>) -> Seq<char>;

/// `Path::parent` of `p`, as a string. The result depends on the text of
/// `p` alone; what it is, is only named.
#[verifier::external_body]
pub(crate) fn path_parent(p: &str) -> (r: Option<String>)
    ensures
        match r {
            Some(q) => parent_of(p@) == Some(q@),
            None => parent_of(p@) is None,
        },
{
    match std::path::Path::new(p).parent() {
        Some(q) => Some(q.to_string_lossy().into_owned()),
        None => None,
    }
}

/// `Path::join` of `base` and `name`, as a string. The result depends on
/// the two texts alone; what it is, is only named.
#[verifier::external_body]
pub(crate) fn path_join(base: &str, name: &str) -> (r: String)
    ensures
        r@ == joined(base@, name@),
{
    std::path::Path::new(base).join(name).to_string_lossy().into_owned()
}

/// Each string as its characters.
pub open spec fn texts(s: Seq<String>) -> Seq<Seq<char>> {
    Seq::new(s.len(), |i: int| s[i]@)
}

/// The places to look for `name` named in the file `file`: next to that
/// file, then in each directory of `dirs` in order. `None` where `file` has
/// no parent.
pub open spec fn search_places(file: Seq<char>, name: Seq<char>, dirs: Seq<Seq<char>>) -> Option<Seq<Seq<char>>> {
    match parent_of(file) {
        None => None,
        Some(dir) => Some(seq![joined(dir, name)] + Seq::new(dirs.len(), |i: int| joined(dirs[i], name))),
    }
}

/// The places to look for `name` named in the file `file`: next to that
/// file, then in each directory of `dirs` in order; `None` where `file` has
/// no parent.
pub fn locations(file: &str, name: &str, dirs: &Vec<String>) -> (r: Option<Vec<String>>)
    ensures
        match r {
            Some(v) => search_places(file@, name@, texts(dirs@)) == Some(
                texts(v@),
            ),
            None => search_places(file@, name@, texts(dirs@)) is None,
        },
{
    let dir = match path_parent(file) {
        Some(d) => d,
        None => {
            return None;
        },
    };
    let ghost dv = texts(dirs@);
    let mut v: Vec<String> = Vec::new();
    v.push(path_join(dir.as_str(), name));
    let mut i: usize = 0;
    while i < dirs.len()
        invariant
            i <= dirs@.len(),
            dv == texts(dirs@),
            v@.len() == i + 1,
            v@[0]@ == joined(dir@, name@),
            forall|j: int| 0 <= j < i ==> #[trigger] v@[j + 1]@ == joined(dv[j], name@),
        decreases dirs@.len() - i,
    {
        v.push(path_join(dirs[i].as_str(), name));
        i = i + 1;
    }
    proof {
        let want = seq![joined(dir@, name@)] + Seq::new(dv.len(), |k: int| joined(dv[k], name@));
        assert forall|k: int| 0 <= k < want.len() implies #[trigger] texts(v@)[k] == want[k] by {
            if k > 0 {
                assert(v@[(k - 1) + 1]@ == joined(dv[k - 1], name@));
            }
        }
        assert(texts(v@) =~= want);
    }
    Some(v)
}

} // verus!
