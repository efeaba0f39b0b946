use vstd::prelude::*;

use crate::paths::{expand_workspace, opt_text, tilde_expanded};
use crate::repo_url::texts;
use crate::text::same_text;

verus! {

/// The pieces of `s` between `/` characters, as `str::split('/')` gives
/// them: never none, and empty pieces kept.
pub open spec fn split_slash(s: Seq<char>) -> Seq<Seq<char>>
    decreases s.len(),
{
    if s.len() == 0 {
        seq![Seq::empty()]
    } else {
        let p = split_slash(s.drop_last());
        if s.last() == '/' {
            p.push(Seq::empty())
        } else {
            p.update(p.len() - 1, p.last().push(s.last()))
        }
    }
}

pub proof fn lemma_split_slash_nonempty(s: Seq<char>)
    ensures
        split_slash(s).len() >= 1,
    decreases s.len(),
{
    if s.len() > 0 {
        lemma_split_slash_nonempty(s.drop_last());
    }
}

/// A piece of a path that names a directory: not empty, and not `.`.
pub open spec fn is_path_part(c: Seq<char>) -> bool {
    c.len() > 0 && c != seq!['.']
}

/// The pieces that name directories, in order.
pub open spec fn keep_parts(cs: Seq<Seq<char>>) -> Seq<Seq<char>>
    decreases cs.len(),
{
    if cs.len() == 0 {
        Seq::empty()
    } else {
        let p = keep_parts(cs.drop_last());
        if is_path_part(cs.last()) {
            p.push(cs.last())
        } else {
            p
        }
    }
}

/// The directory names along a path; repeated `/` and `.` name none.
pub open spec fn path_parts(s: Seq<char>) -> Seq<Seq<char>> {
    keep_parts(split_slash(s))
}

pub open spec fn is_absolute(s: Seq<char>) -> bool {
    s.len() > 0 && s[0] == '/'
}

/// Host and organization read from where `cwd` lies below `workspace`: the
/// first two directories under it, where `cwd` is at least that deep.
pub open spec fn inferred_context(workspace: Seq<char>, cwd: Seq<char>) -> Option<(Seq<char>, Seq<char>)> {
    let w = path_parts(workspace);
    let c = path_parts(cwd);
    if is_absolute(workspace) == is_absolute(cwd) && w.len() + 2 <= c.len() && c.take(w.len() as int) == w {
        Some((c[w.len() as int], c[w.len() + 1int]))
    } else {
        None
    }
}

/// The pieces of `s` between `/` characters.
pub fn split_on_slash(s: &str) -> (r: Vec<String>)
    ensures
        texts(r@) == split_slash(s@),
{
    let n = s.unicode_len();
    let mut parts: Vec<String> = Vec::new();
    let mut start: usize = 0;
    let mut i: usize = 0;
    assert(s@.take(0) =~= Seq::<char>::empty());
    assert(texts(parts@).push(s@.subrange(0, 0)) =~= split_slash(s@.take(0)));
    while i < n
        invariant
            n == s@.len(),
            start <= i <= n,
            texts(parts@).push(s@.subrange(start as int, i as int)) == split_slash(s@.take(i as int)),
        decreases n - i,
    {
        let c = s.get_char(i);
        proof {
            let t = s@.take(i + 1);
            assert(t.drop_last() =~= s@.take(i as int));
            assert(t.last() == c);
            lemma_split_slash_nonempty(s@.take(i as int));
        }
        if c == '/' {
            let piece = String::from_str(s.substring_char(start, i));
            proof {
                assert(texts(parts@.push(piece)) =~= texts(parts@).push(piece@));
                assert(s@.subrange(i + 1, i + 1) =~= Seq::<char>::empty());
            }
            parts.push(piece);
            start = i + 1;
        } else {
            proof {
                assert(s@.subrange(start as int, i + 1) =~= s@.subrange(start as int, i as int).push(c));
                assert(texts(parts@).push(s@.subrange(start as int, i + 1)) =~= split_slash(s@.take(i + 1)));
            }
        }
        i = i + 1;
    }
    let last = String::from_str(s.substring_char(start, n));
    proof {
        assert(s@.take(n as int) =~= s@);
        assert(texts(parts@.push(last)) =~= texts(parts@).push(last@));
    }
    parts.push(last);
    parts
}

/// The directory names along a path.
pub fn path_components(s: &str) -> (r: Vec<String>)
    ensures
        texts(r@) == path_parts(s@),
{
    let pieces = split_on_slash(s);
    let mut parts: Vec<String> = Vec::new();
    let mut i: usize = 0;
    proof {
        reveal_strlit(".");
        assert("."@ =~= seq!['.']);
    }
    while i < pieces.len()
        invariant
            i <= pieces@.len(),
            "."@ == seq!['.'],
            texts(parts@) == keep_parts(texts(pieces@).take(i as int)),
        decreases pieces@.len() - i,
    {
        proof {
            assert(texts(pieces@).take(i + 1).drop_last() =~= texts(pieces@).take(i as int));
        }
        let piece = &pieces[i];
        if piece.unicode_len() > 0 && !same_text(piece.as_str(), ".") {
            let copy = piece.clone();
            proof {
                assert(texts(parts@.push(copy)) =~= texts(parts@).push(piece@));
            }
            parts.push(copy);
        }
        i = i + 1;
    }
    assert(texts(pieces@).take(i as int) =~= texts(pieces@));
    parts
}

/// Host and organization read from where `cwd` lies below the workspace
/// (after tilde expansion with `home`), `None` where it lies elsewhere or
/// less than two directories deep.
pub fn infer_context(workspace: &str, home: Option<&str>, cwd: &str) -> (r: Option<(String, String)>)
    ensures
        match r {
            Some((h, o)) => inferred_context(tilde_expanded(workspace@, opt_text(home)), cwd@) == Some((h@, o@)),
            None => inferred_context(tilde_expanded(workspace@, opt_text(home)), cwd@) is None,
        },
{
    let ws = expand_workspace(workspace, home);
    let ghost wv = ws@;
    let wabs = ws.unicode_len() > 0 && ws.get_char(0) == '/';
    let cabs = cwd.unicode_len() > 0 && cwd.get_char(0) == '/';
    if wabs != cabs {
        return None;
    }
    let w = path_components(ws.as_str());
    let c = path_components(cwd);
    if c.len() < 2 || w.len() > c.len() - 2 {
        return None;
    }
    let mut i: usize = 0;
    while i < w.len()
        invariant
            i <= w@.len(),
            w@.len() + 2 <= c@.len(),
            wv == tilde_expanded(workspace@, opt_text(home)),
            texts(w@) == path_parts(wv),
            texts(c@) == path_parts(cwd@),
            is_absolute(wv) == is_absolute(cwd@),
            forall|j: int| 0 <= j < i ==> texts(w@)[j] == texts(c@)[j],
        decreases w@.len() - i,
    {
        if w[i] != c[i] {
            proof {
                assert(texts(w@)[i as int] == w@[i as int]@);
                assert(texts(c@)[i as int] == c@[i as int]@);
                assert(texts(c@).take(w@.len() as int)[i as int] != texts(w@)[i as int]);
                assert(texts(c@).take(w@.len() as int) != texts(w@));
            }
            return None;
        }
        i = i + 1;
    }
    assert(texts(c@).take(w@.len() as int) =~= texts(w@));
    let n = w.len();
    Some((c[n].clone(), c[n + 1].clone()))
}

} // verus!
