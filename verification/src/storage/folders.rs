//! The remote folders that hold a file: the folder names of a relative path.
use crate::text::{chars_of, texts};
use vstd::prelude::*;

verus! {

/// `done` with `part` added when it names a folder: empty parts and "." are skipped.
pub open spec fn keep_part(done: Seq<Seq<char>>, part: Seq<char>) -> Seq<Seq<char>> {
    if part.len() == 0 || part == seq!['.'] {
        done
    } else {
        done.push(part)
    }
}

/// The folder names of `p`, read from the left: `done` holds the names found so far and
/// `cur` the part being read; a '/' ends a part.
pub open spec fn components_from(p: Seq<char>, done: Seq<Seq<char>>, cur: Seq<char>) -> Seq<
    Seq<char>,
>
    decreases p.len(),
{
    if p.len() == 0 {
        keep_part(done, cur)
    } else if p[0] == '/' {
        components_from(p.drop_first(), keep_part(done, cur), Seq::empty())
    } else {
        components_from(p.drop_first(), done, cur.push(p[0]))
    }
}

/// The folder names of a relative path, in order: its parts between '/' characters, with
/// empty parts and "." skipped.
pub open spec fn folder_names(p: Seq<char>) -> Seq<Seq<char>> {
    components_from(p, Seq::empty(), Seq::empty())
}

/// The folders to create, one inside the other, for the relative path `path`: its parts
/// between '/' characters, in order, without empty parts and ".".
pub fn folder_components(path: &str) -> (r: Vec<String>)
    ensures
        texts(r@) == folder_names(path@),
{
    let p = chars_of(path);
    let mut done: Vec<String> = Vec::new();
    let mut start: usize = 0;
    let mut i: usize = 0;
    assert(p@.skip(0) =~= p@);
    assert(p@.subrange(0, 0) =~= Seq::<char>::empty());
    assert(texts(done@) =~= Seq::<Seq<char>>::empty());
    while i < p.len()
        invariant
            p@ == path@,
            start <= i <= p@.len(),
            components_from(p@.skip(i as int), texts(done@), p@.subrange(start as int, i as int))
                == folder_names(path@),
        decreases p@.len() - i,
    {
        let ghost rest = p@.skip(i as int);
        assert(rest[0] == p@[i as int]);
        assert(rest.drop_first() =~= p@.skip(i + 1));
        if p[i] == '/' {
            let ghost cur = p@.subrange(start as int, i as int);
            let ghost before = texts(done@);
            if i > start && !(i - start == 1 && p[start] == '.') {
                let part = String::from_str(path.substring_char(start, i));
                done.push(part);
                assert(cur.len() > 0);
                if i - start == 1 {
                    assert(cur[0] == p@[start as int]);
                    assert(seq!['.'][0] == '.');
                }
                assert(keep_part(before, cur) == before.push(cur));
                assert(texts(done@) =~= before.push(cur));
            } else {
                if i - start == 1 {
                    assert(cur =~= seq!['.']);
                }
                assert(texts(done@) =~= keep_part(before, cur));
            }
            assert(p@.subrange(i + 1, i + 1) =~= Seq::<char>::empty());
            start = i + 1;
        } else {
            assert(p@.subrange(start as int, i + 1) =~= p@.subrange(start as int, i as int).push(
                p@[i as int],
            ));
        }
        i = i + 1;
    }
    let ghost cur = p@.subrange(start as int, i as int);
    let ghost before = texts(done@);
    assert(p@.skip(i as int).len() == 0);
    if i > start && !(i - start == 1 && p[start] == '.') {
        let part = String::from_str(path.substring_char(start, i));
        done.push(part);
        assert(cur.len() > 0);
        if i - start == 1 {
            assert(cur[0] == p@[start as int]);
            assert(seq!['.'][0] == '.');
        }
        assert(keep_part(before, cur) == before.push(cur));
        assert(texts(done@) =~= before.push(cur));
    } else {
        if i - start == 1 {
            assert(cur =~= seq!['.']);
        }
        assert(texts(done@) =~= keep_part(before, cur));
    }
    done
}

/// The folders, one inside the other under the remote root, that receive the file at
/// `relative_path`: the directories of its path when the folder structure is preserved (all
/// its folder names but the last, which names the file), none otherwise.
pub open spec fn upload_folder_names(relative_path: Seq<char>, preserve: bool) -> Seq<Seq<char>> {
    if preserve && folder_names(relative_path).len() > 0 {
        folder_names(relative_path).drop_last()
    } else {
        Seq::empty()
    }
}

/// The folders that receive the file at `relative_path` (see `upload_folder_names`).
pub fn upload_folders(relative_path: &str, preserve: bool) -> (r: Vec<String>)
    ensures
        texts(r@) == upload_folder_names(relative_path@, preserve),
{
    if !preserve {
        let r: Vec<String> = Vec::new();
        assert(texts(r@) =~= Seq::<Seq<char>>::empty());
        return r;
    }
    let mut names = folder_components(relative_path);
    if names.len() > 0 {
        let ghost before = names@;
        names.pop();
        assert(texts(names@) =~= texts(before).drop_last());
    }
    names
}

} // verus!
