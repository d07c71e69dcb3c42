//! Paths as text: components are parted by `/`.

use crate::text::{find_last, last_index_of, lemma_last_index_of, slice_of};
use vstd::prelude::*;

verus! {

/// The last component of a path: what follows its last `/`, or the whole
/// path where it has none.
pub open spec fn final_component(path: Seq<char>) -> Seq<char> {
    match last_index_of(path, '/') {
        Some(i) => path.skip(i + 1),
        None => path,
    }
}

/// The extension of a path: what follows the last `.` of its last component.
/// There is none where the component has no `.`, where its only `.` is its
/// first character, and for the component `..`.
pub open spec fn extension(path: Seq<char>) -> Option<Seq<char>> {
    let name = final_component(path);
    if name == seq!['.', '.'] {
        None
    } else {
        match last_index_of(name, '.') {
            Some(i) => if i == 0 {
                None
            } else {
                Some(name.skip(i + 1))
            },
            None => None,
        }
    }
}

/// The directory a path lies in: the path up to its last `/`; `/` itself for
/// a path directly below the root; the empty text for a bare name; and `.`
/// for the empty path.
pub open spec fn directory_of(path: Seq<char>) -> Seq<char> {
    match last_index_of(path, '/') {
        Some(i) => if i == 0 {
            seq!['/']
        } else {
            path.take(i)
        },
        None => if path.len() == 0 {
            seq!['.']
        } else {
            Seq::<char>::empty()
        },
    }
}

/// The path `rel` as seen from the directory `dir`: `rel` itself where it
/// starts at the root or `dir` is empty, else `dir`, a `/` unless `dir` ends
/// in one, and `rel`.
pub open spec fn join(dir: Seq<char>, rel: Seq<char>) -> Seq<char> {
    if (rel.len() > 0 && rel[0] == '/') || dir.len() == 0 {
        rel
    } else if dir.last() == '/' {
        dir + rel
    } else {
        dir + seq!['/'] + rel
    }
}

/// A path with an extension ends in a `.` and that extension.
pub proof fn lemma_extension_is_suffix(path: Seq<char>)
    ensures
        extension(path) matches Some(e) ==> path.len() >= e.len() + 1 && path.skip(
            path.len() - e.len(),
        ) == e && path[path.len() - e.len() - 1] == '.',
{
    if let Some(e) = extension(path) {
        let name = final_component(path);
        lemma_last_index_of(path, '/');
        lemma_last_index_of(name, '.');
        let i = last_index_of(name, '.').unwrap();
        let offset = path.len() - name.len();
        assert(forall|k: int| 0 <= k < name.len() ==> name[k] == path[offset + k]);
        assert(path.skip(path.len() - e.len()) =~= e);
        assert(name[i] == path[offset + i]);
    }
}

/// The extension of `path`.
pub fn extension_of(path: &Vec<char>) -> (r: Option<Vec<char>>)
    ensures
        match r {
            Some(e) => extension(path@) == Some(e@),
            None => extension(path@) is None,
        },
{
    let start: usize = match find_last(path, '/') {
        Some(i) => i + 1,
        None => 0,
    };
    let name = slice_of(path, start, path.len());
    assert(name@ =~= final_component(path@));
    if name.len() == 2 && name[0] == '.' && name[1] == '.' {
        assert(name@ =~= seq!['.', '.']);
        return None;
    }
    assert(name@ != seq!['.', '.']) by {
        if name@ == seq!['.', '.'] {
            assert(name@.len() == 2);
            assert(name@[0] == '.' && name@[1] == '.');
        }
    }
    match find_last(&name, '.') {
        Some(i) => {
            if i == 0 {
                None
            } else {
                let e = slice_of(&name, i + 1, name.len());
                assert(e@ =~= name@.skip(i + 1));
                Some(e)
            }
        },
        None => None,
    }
}

/// The directory that `path` lies in.
pub fn directory(path: &Vec<char>) -> (r: Vec<char>)
    ensures
        r@ == directory_of(path@),
{
    match find_last(path, '/') {
        Some(i) => {
            if i == 0 {
                let mut r: Vec<char> = Vec::new();
                r.push('/');
                assert(r@ =~= seq!['/']);
                r
            } else {
                let r = slice_of(path, 0, i);
                assert(r@ =~= path@.take(i as int));
                r
            }
        },
        None => {
            let mut r: Vec<char> = Vec::new();
            if path.len() == 0 {
                r.push('.');
                assert(r@ =~= seq!['.']);
            } else {
                assert(r@ =~= Seq::<char>::empty());
            }
            r
        },
    }
}

/// The path `rel` as seen from the directory `dir`.
pub fn joined(dir: &Vec<char>, rel: &Vec<char>) -> (r: Vec<char>)
    ensures
        r@ == join(dir@, rel@),
{
    let mut r: Vec<char> = Vec::new();
    if !((rel.len() > 0 && rel[0] == '/') || dir.len() == 0) {
        crate::text::push_all(&mut r, dir);
        if dir[dir.len() - 1] != '/' {
            r.push('/');
        }
    }
    crate::text::push_all(&mut r, rel);
    assert(r@ =~= join(dir@, rel@));
    r
}

} // verus!
