//! Splitting a schema script into the statements to execute: comment lines
//! and blank lines are dropped, the rest is joined and cut at each `;`, and
//! each piece is trimmed; empty pieces are skipped.

use vstd::prelude::*;
use vstd::string::*;
use crate::text::{is_blank, is_blank_text, is_white_space, white_space};

verus! {

/// The pieces of `s` between occurrences of `c`, as `str::split` gives them.
pub open spec fn split_spec(s: Seq<char>, c: char) -> Seq<Seq<char>>
    decreases s.len(),
{
    if s.len() == 0 {
        seq![Seq::empty()]
    } else {
        let prev = split_spec(s.drop_last(), c);
        if s.last() == c {
            prev.push(Seq::empty())
        } else {
            prev.update(prev.len() - 1, prev.last().push(s.last()))
        }
    }
}

pub open spec fn strip_cr(l: Seq<char>) -> Seq<char> {
    if l.len() > 0 && l.last() == '\r' {
        l.drop_last()
    } else {
        l
    }
}

/// The lines of `s`, as `str::lines` gives them: cut at `\n`, a final `\r`
/// removed from each, and no empty line after a final `\n`.
pub open spec fn lines_spec(s: Seq<char>) -> Seq<Seq<char>> {
    let parts = split_spec(s, '\n');
    let kept = if parts.last().len() == 0 {
        parts.drop_last()
    } else {
        parts
    };
    kept.map_values(|l: Seq<char>| strip_cr(l))
}

pub open spec fn trim_start_spec(s: Seq<char>) -> Seq<char>
    decreases s.len(),
{
    if s.len() > 0 && is_white_space(s[0]) {
        trim_start_spec(s.drop_first())
    } else {
        s
    }
}

pub open spec fn trim_end_spec(s: Seq<char>) -> Seq<char>
    decreases s.len(),
{
    if s.len() > 0 && is_white_space(s.last()) {
        trim_end_spec(s.drop_last())
    } else {
        s
    }
}

/// `s` without leading and trailing white space, as `str::trim` gives it.
pub open spec fn trim_spec(s: Seq<char>) -> Seq<char> {
    trim_end_spec(trim_start_spec(s))
}

/// A line is kept when it is not blank and does not start, after its
/// indentation, with `--`.
pub open spec fn keeps_line(l: Seq<char>) -> bool {
    let t = trim_spec(l);
    !is_blank_text(l) && !(t.len() >= 2 && t[0] == '-' && t[1] == '-')
}

pub open spec fn kept_lines(ls: Seq<Seq<char>>) -> Seq<Seq<char>>
    decreases ls.len(),
{
    if ls.len() == 0 {
        ls
    } else if keeps_line(ls.last()) {
        kept_lines(ls.drop_last()).push(ls.last())
    } else {
        kept_lines(ls.drop_last())
    }
}

/// The lines joined with `\n` between them.
pub open spec fn join_lines(ls: Seq<Seq<char>>) -> Seq<char>
    decreases ls.len(),
{
    if ls.len() == 0 {
        Seq::empty()
    } else if ls.len() == 1 {
        ls[0]
    } else {
        join_lines(ls.drop_last()).push('\n') + ls.last()
    }
}

/// The trimmed pieces that are not empty.
pub open spec fn nonempty_trimmed(ps: Seq<Seq<char>>) -> Seq<Seq<char>>
    decreases ps.len(),
{
    if ps.len() == 0 {
        ps
    } else if trim_spec(ps.last()).len() > 0 {
        nonempty_trimmed(ps.drop_last()).push(trim_spec(ps.last()))
    } else {
        nonempty_trimmed(ps.drop_last())
    }
}

/// The statements of a schema script.
pub open spec fn statements_spec(sql: Seq<char>) -> Seq<Seq<char>> {
    nonempty_trimmed(split_spec(join_lines(kept_lines(lines_spec(sql))), ';'))
}

pub open spec fn views(v: Seq<String>) -> Seq<Seq<char>> {
    v.map_values(|x: String| x@)
}

proof fn lemma_split_nonempty(s: Seq<char>, c: char)
    ensures
        split_spec(s, c).len() >= 1,
    decreases s.len(),
{
    if s.len() > 0 {
        lemma_split_nonempty(s.drop_last(), c);
    }
}

/// Cuts `s` at each occurrence of `c`.
pub fn split_on(s: &str, c: char) -> (r: Vec<String>)
    ensures
        views(r@) == split_spec(s@, c),
{
    let n = s.unicode_len();
    let mut pieces: Vec<String> = Vec::new();
    let mut cur = String::new();
    let mut i: usize = 0;
    proof {
        assert(s@.subrange(0, 0) =~= Seq::<char>::empty());
        assert(views(pieces@).push(cur@) =~= split_spec(s@.subrange(0, 0), c));
    }
    while i < n
        invariant
            n == s@.len(),
            i <= n,
            views(pieces@).push(cur@) == split_spec(s@.subrange(0, i as int), c),
        decreases n - i,
    {
        let ch = s.get_char(i);
        proof {
            let next = s@.subrange(0, i + 1);
            assert(next.drop_last() =~= s@.subrange(0, i as int));
            assert(next.last() == ch);
            lemma_split_nonempty(s@.subrange(0, i as int), c);
        }
        if ch == c {
            let ghost old_pieces = pieces@;
            pieces.push(cur);
            cur = String::new();
            proof {
                assert(views(pieces@) =~= views(old_pieces).push(pieces@.last()@));
                assert(views(pieces@).push(cur@) =~= split_spec(s@.subrange(0, i + 1), c));
            }
        } else {
            let ghost old_cur = cur@;
            cur.append(s.substring_char(i, i + 1));
            proof {
                assert(s@.subrange(i as int, i + 1) =~= seq![ch]);
                assert(cur@ =~= old_cur.push(ch));
                assert(views(pieces@).push(cur@) =~= split_spec(s@.subrange(0, i + 1), c));
            }
        }
        i = i + 1;
    }
    let ghost old_pieces = pieces@;
    pieces.push(cur);
    proof {
        assert(s@.subrange(0, n as int) =~= s@);
        assert(views(pieces@) =~= views(old_pieces).push(pieces@.last()@));
    }
    pieces
}

/// `s` without leading and trailing white space.
pub fn trim(s: &str) -> (r: String)
    ensures
        r@ == trim_spec(s@),
{
    let n = s.unicode_len();
    let mut i: usize = 0;
    proof {
        assert(s@.subrange(0, n as int) =~= s@);
    }
    while i < n && white_space(s.get_char(i))
        invariant
            n == s@.len(),
            i <= n,
            trim_start_spec(s@) == trim_start_spec(s@.subrange(i as int, n as int)),
        decreases n - i,
    {
        proof {
            assert(s@.subrange(i as int, n as int).drop_first() =~= s@.subrange(i + 1, n as int));
        }
        i = i + 1;
    }
    proof {
        if i < n {
            assert(!is_white_space(s@.subrange(i as int, n as int)[0]));
        }
        assert(trim_start_spec(s@) == s@.subrange(i as int, n as int));
    }
    let mut j: usize = n;
    while j > i && white_space(s.get_char(j - 1))
        invariant
            n == s@.len(),
            i <= j <= n,
            trim_start_spec(s@) == s@.subrange(i as int, n as int),
            trim_spec(s@) == trim_end_spec(s@.subrange(i as int, j as int)),
        decreases j,
    {
        proof {
            assert(s@.subrange(i as int, j as int).drop_last() =~= s@.subrange(i as int, j - 1));
        }
        j = j - 1;
    }
    proof {
        if j > i {
            assert(s@.subrange(i as int, j as int).last() == s@[j - 1]);
        }
    }
    s.substring_char(i, j).to_string()
}

/// The lines of `s`.
pub fn lines(s: &str) -> (r: Vec<String>)
    ensures
        views(r@) == lines_spec(s@),
{
    let mut parts = split_on(s, '\n');
    proof {
        lemma_split_nonempty(s@, '\n');
    }
    let last_empty = parts[parts.len() - 1].as_str().unicode_len() == 0;
    let ghost all = views(parts@);
    if last_empty {
        parts.pop();
        proof {
            assert(views(parts@) =~= all.drop_last());
        }
    }
    let ghost kept = views(parts@);
    let mut out: Vec<String> = Vec::new();
    let mut k: usize = 0;
    while k < parts.len()
        invariant
            kept == views(parts@),
            k <= parts@.len(),
            views(out@) =~= kept.subrange(0, k as int).map_values(|l: Seq<char>| strip_cr(l)),
        decreases parts@.len() - k,
    {
        let l = parts[k].as_str();
        let m = l.unicode_len();
        let line = if m > 0 && l.get_char(m - 1) == '\r' {
            let t = l.substring_char(0, m - 1);
            proof {
                assert(t@ =~= l@.drop_last());
            }
            t.to_string()
        } else {
            l.to_string()
        };
        let ghost old_out = out@;
        out.push(line);
        proof {
            assert(views(out@) =~= views(old_out).push(line@));
            assert(kept[k as int] == parts@[k as int]@);
            assert(kept.subrange(0, k + 1).map_values(|l: Seq<char>| strip_cr(l)) =~= kept.subrange(
                0,
                k as int,
            ).map_values(|l: Seq<char>| strip_cr(l)).push(strip_cr(kept[k as int])));
        }
        k = k + 1;
    }
    proof {
        assert(kept.subrange(0, parts@.len() as int) =~= kept);
    }
    out
}

/// Whether a line is kept in the script.
pub fn keep_line(l: &str) -> (r: bool)
    ensures
        r == keeps_line(l@),
{
    if is_blank(l) {
        return false;
    }
    let t = trim(l);
    let t = t.as_str();
    !(t.unicode_len() >= 2 && t.get_char(0) == '-' && t.get_char(1) == '-')
}

/// Splits a schema script into the statements to execute, in order.
pub fn migration_statements(sql: &str) -> (r: Vec<String>)
    ensures
        views(r@) == statements_spec(sql@),
{
    let all = lines(sql);
    let ghost ls = views(all@);
    let mut cleaned = String::new();
    let mut kept: usize = 0;
    let mut k: usize = 0;
    while k < all.len()
        invariant
            ls == views(all@),
            k <= all@.len(),
            kept == kept_lines(ls.subrange(0, k as int)).len(),
            cleaned@ == join_lines(kept_lines(ls.subrange(0, k as int))),
            kept <= k,
        decreases all@.len() - k,
    {
        let l = all[k].as_str();
        proof {
            let next = ls.subrange(0, k + 1);
            assert(next.drop_last() =~= ls.subrange(0, k as int));
            assert(next.last() == l@);
        }
        if keep_line(l) {
            let ghost before = cleaned@;
            if kept > 0 {
                cleaned.append("\n");
                proof {
                    reveal_strlit("\n");
                }
            }
            cleaned.append(l);
            kept = kept + 1;
            proof {
                let ks = kept_lines(ls.subrange(0, k + 1));
                if kept > 1 {
                    assert(ks.drop_last() =~= kept_lines(ls.subrange(0, k as int)));
                    assert(cleaned@ =~= before.push('\n') + l@);
                } else {
                    assert(ks =~= seq![l@]);
                    assert(cleaned@ =~= l@);
                }
            }
        }
        k = k + 1;
    }
    proof {
        assert(ls.subrange(0, all@.len() as int) =~= ls);
    }
    let pieces = split_on(cleaned.as_str(), ';');
    let ghost ps = views(pieces@);
    let mut out: Vec<String> = Vec::new();
    let mut p: usize = 0;
    while p < pieces.len()
        invariant
            ps == views(pieces@),
            p <= pieces@.len(),
            views(out@) == nonempty_trimmed(ps.subrange(0, p as int)),
        decreases pieces@.len() - p,
    {
        let t = trim(pieces[p].as_str());
        proof {
            let next = ps.subrange(0, p + 1);
            assert(next.drop_last() =~= ps.subrange(0, p as int));
            assert(next.last() == pieces@[p as int]@);
        }
        if t.as_str().unicode_len() > 0 {
            let ghost old_out = out@;
            out.push(t);
            proof {
                assert(views(out@) =~= views(old_out).push(out@.last()@));
            }
        }
        p = p + 1;
    }
    proof {
        assert(ps.subrange(0, pieces@.len() as int) =~= ps);
    }
    out
}

} // verus!
