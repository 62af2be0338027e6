//! Unix path manipulation on strings, with the semantics of `std::path`.

use vstd::prelude::*;
use vstd::string::*;

verus! {

/// `base.join(rel)` on Unix: an absolute `rel` replaces `base`; otherwise `rel`
/// is appended, with a `/` in between unless `base` is empty or already ends
/// in one.
pub open spec fn join(base: Seq<char>, rel: Seq<char>) -> Seq<char> {
    if rel.len() > 0 && rel[0] == '/' {
        rel
    } else if base.len() > 0 && base.last() != '/' {
        base + seq!['/'] + rel
    } else {
        base + rel
    }
}

/// Splits `s` at every `:`, keeping empty pieces, as `std::env::split_paths`
/// does on Unix. There is always at least one piece.
pub open spec fn split_colon(s: Seq<char>) -> Seq<Seq<char>>
    decreases s.len(),
{
    if s.len() == 0 {
        seq![Seq::<char>::empty()]
    } else {
        let init = split_colon(s.drop_last());
        if s.last() == ':' {
            init.push(Seq::<char>::empty())
        } else {
            init.update(init.len() - 1, init.last().push(s.last()))
        }
    }
}

pub proof fn lemma_split_colon_nonempty(s: Seq<char>)
    ensures
        split_colon(s).len() >= 1,
    decreases s.len(),
{
    if s.len() > 0 {
        lemma_split_colon_nonempty(s.drop_last());
    }
}

/// Index of the last `/` in `s`, or -1 when there is none.
pub open spec fn last_slash(s: Seq<char>) -> int
    decreases s.len(),
{
    if s.len() == 0 {
        -1
    } else if s.last() == '/' {
        s.len() - 1
    } else {
        last_slash(s.drop_last())
    }
}

pub proof fn lemma_last_slash_bounds(s: Seq<char>)
    ensures
        -1 <= last_slash(s) < s.len(),
        last_slash(s) >= 0 ==> s[last_slash(s)] == '/',
        forall|k: int| last_slash(s) < k < s.len() ==> s[k] != '/',
    decreases s.len(),
{
    if s.len() > 0 && s.last() != '/' {
        lemma_last_slash_bounds(s.drop_last());
        let t = s.drop_last();
        assert forall|k: int| last_slash(s) < k < s.len() implies s[k] != '/' by {
            if k < t.len() {
                assert(s[k] == t[k]);
            }
        }
    }
}

/// The directory part of `s`, up to and including its last `/` (empty when
/// `s` holds no `/`).
pub open spec fn dir_prefix(s: Seq<char>) -> Seq<char> {
    s.take(last_slash(s) + 1)
}

/// The last component of `s`: everything after its last `/`.
pub open spec fn file_name(s: Seq<char>) -> Seq<char> {
    s.skip(last_slash(s) + 1)
}

/// `base.join(rel)` for Unix paths held as strings.
pub fn join_path(base: &str, rel: &str) -> (r: String)
    ensures
        r@ == join(base@, rel@),
{
    let rn = rel.unicode_len();
    let bn = base.unicode_len();
    if rn > 0 && rel.get_char(0) == '/' {
        String::from_str(rel)
    } else if bn > 0 && base.get_char(bn - 1) != '/' {
        let mut r = String::from_str(base);
        r.append("/");
        r.append(rel);
        proof {
            reveal_strlit("/");
            assert(base@.last() == base@[bn - 1]);
        }
        r
    } else {
        let mut r = String::from_str(base);
        r.append(rel);
        r
    }
}

/// The pieces of a `PATH`-style value, split at every `:`.
pub fn split_colon_str(s: &str) -> (r: Vec<String>)
    ensures
        r.deep_view() == split_colon(s@),
{
    let n = s.unicode_len();
    let mut pieces: Vec<String> = Vec::new();
    let mut start: usize = 0;
    let mut i: usize = 0;
    proof {
        assert(pieces.deep_view() =~= Seq::<Seq<char>>::empty());
        assert(s@.take(0) =~= Seq::<char>::empty());
        assert(s@.subrange(0, 0) =~= Seq::<char>::empty());
    }
    while i < n
        invariant
            n == s@.len(),
            start <= i <= n,
            pieces.deep_view().push(s@.subrange(start as int, i as int)) == split_colon(
                s@.take(i as int),
            ),
        decreases n - i,
    {
        let c = s.get_char(i);
        let ghost prev = s@.take(i as int);
        proof {
            assert(s@.take(i + 1).drop_last() =~= prev);
            assert(s@.take(i + 1).last() == c);
            lemma_split_colon_nonempty(prev);
        }
        if c == ':' {
            let piece = String::from_str(s.substring_char(start, i));
            pieces.push(piece);
            start = i + 1;
            proof {
                assert(s@.subrange(start as int, i + 1) =~= Seq::<char>::empty());
            }
        } else {
            proof {
                assert(s@.subrange(start as int, i + 1) =~= s@.subrange(start as int, i as int).push(c));
            }
        }
        i = i + 1;
        proof {
            let old_split = split_colon(prev);
            assert(pieces.deep_view().push(s@.subrange(start as int, i as int)) =~= split_colon(
                s@.take(i as int),
            ));
        }
    }
    let last = String::from_str(s.substring_char(start, n));
    pieces.push(last);
    proof {
        assert(s@.take(n as int) =~= s@);
    }
    pieces
}

} // verus!

verus! {

/// The suffix nix-darwin gives to `/etc` files it moved aside.
pub open spec fn saved_suffix() -> Seq<char> {
    ".before-nix-darwin"@
}

/// Where a file that nix-darwin moved aside goes back to: the same
/// directory, with the file name stripped of `.before-nix-darwin`; nothing
/// for any other file.
pub open spec fn restore_target(path: Seq<char>) -> Option<Seq<char>> {
    match crate::text::strip_suffix(file_name(path), saved_suffix()) {
        Some(orig) => Some(dir_prefix(path) + orig),
        None => None,
    }
}

/// Index of the last `/` in `s`, or `None`.
fn last_slash_index(s: &Vec<char>) -> (r: Option<usize>)
    ensures
        match r {
            Some(i) => last_slash(s@) == i as int && i < s.len(),
            None => last_slash(s@) == -1,
        },
{
    proof {
        lemma_last_slash_bounds(s@);
    }
    let mut j: usize = s.len();
    while j > 0 && s[j - 1] != '/'
        invariant
            j <= s.len(),
            forall|k: int| j <= k < s.len() ==> s@[k] != '/',
        decreases j,
    {
        j = j - 1;
    }
    proof {
        lemma_last_slash_bounds(s@);
        lemma_last_slash_is_last(s@, j as int - 1);
    }
    if j == 0 {
        None
    } else {
        Some(j - 1)
    }
}

proof fn lemma_last_slash_is_last(s: Seq<char>, i: int)
    requires
        -1 <= i < s.len(),
        i >= 0 ==> s[i] == '/',
        forall|k: int| i < k < s.len() ==> s[k] != '/',
    ensures
        last_slash(s) == i,
    decreases s.len(),
{
    if s.len() > 0 && i < s.len() - 1 {
        let t = s.drop_last();
        assert forall|k: int| i < k < t.len() implies t[k] != '/' by {
            assert(t[k] == s[k]);
        }
        if i >= 0 {
            assert(t[i] == s[i]);
        }
        lemma_last_slash_is_last(t, i);
    }
}

/// The original location of a file that nix-darwin moved aside, if `path`
/// is one.
pub fn restore_target_of(path: &str) -> (r: Option<String>)
    ensures
        match r {
            Some(t) => restore_target(path@) == Some(t@),
            None => restore_target(path@) is None,
        },
{
    let v = crate::text::chars_of(path);
    let start: usize = match last_slash_index(&v) {
        Some(i) => i + 1,
        None => 0,
    };
    proof {
        lemma_last_slash_bounds(path@);
    }
    let name = String::from_str(path.substring_char(start, v.len()));
    let dir = path.substring_char(0, start);
    proof {
        assert(name@ =~= file_name(path@));
        assert(dir@ =~= dir_prefix(path@));
    }
    match crate::text::strip_suffix_str(name.as_str(), ".before-nix-darwin") {
        Some(orig) => {
            let mut r = String::from_str(dir);
            r.append(orig.as_str());
            Some(r)
        },
        None => None,
    }
}

} // verus!

verus! {

/// Restoring undoes nix-darwin's move: a file `name` in directory `dir`
/// (given with its trailing `/`) that was moved aside to
/// `<name>.before-nix-darwin` goes back to `<dir><name>`.
pub proof fn restore_undoes_move(dir: Seq<char>, name: Seq<char>)
    requires
        dir.len() > 0 && dir.last() == '/',
        forall|i: int| 0 <= i < name.len() ==> name[i] != '/',
    ensures
        restore_target(dir + name + saved_suffix()) == Some(dir + name),
{
    reveal_strlit(".before-nix-darwin");
    let suffix = saved_suffix();
    let full = dir + name + suffix;
    let i = dir.len() - 1;
    assert(full[i] == '/');
    assert forall|k: int| i < k < full.len() implies full[k] != '/' by {
        if k < dir.len() + name.len() {
            assert(full[k] == name[k - dir.len()]);
        } else {
            assert(full[k] == suffix[k - dir.len() - name.len()]);
        }
    }
    lemma_last_slash_is_last(full, i);
    assert(file_name(full) =~= name + suffix);
    assert(dir_prefix(full) =~= dir);
    let f = name + suffix;
    assert(f.skip(f.len() - suffix.len()) =~= suffix);
    assert(f.take(f.len() - suffix.len()) =~= name);
}

} // verus!
