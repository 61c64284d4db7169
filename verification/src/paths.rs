use vstd::prelude::*;
use vstd::string::StrSliceExecFns;
use vstd::string::StringExecFns;

verus! {

/// A path separator, in either of the spellings the target platform's
/// paths accept.
pub open spec fn is_path_separator(c: char) -> bool {
    c == '\\' || c == '/'
}

/// A drive letter as a drive prefix (`C:`) spells it.
pub open spec fn is_ascii_drive_letter(c: char) -> bool {
    ('a' <= c && c <= 'z') || ('A' <= c && c <= 'Z')
}

/// Length of the path's drive prefix (`C:`), or zero when it has none.
pub open spec fn prefix_len(p: Seq<char>) -> int {
    if p.len() >= 2 && is_ascii_drive_letter(p[0]) && p[1] == ':' {
        2
    } else {
        0
    }
}

/// The sequence without its trailing path separators.
pub open spec fn without_trailing_separators(s: Seq<char>) -> Seq<char>
    decreases s.len(),
{
    if s.len() > 0 && is_path_separator(s.last()) {
        without_trailing_separators(s.drop_last())
    } else {
        s
    }
}

/// The sequence without its trailing non-separator run (its last path
/// component).
pub open spec fn without_last_component(s: Seq<char>) -> Seq<char>
    decreases s.len(),
{
    if s.len() > 0 && !is_path_separator(s.last()) {
        without_last_component(s.drop_last())
    } else {
        s
    }
}

/// The directory a path's final component sits in, as `parent` computes
/// it: after the drive prefix, drop trailing separators, then the last
/// component, then the separators before it. A path that holds nothing
/// beyond its prefix and root has no parent. A path whose only component
/// is the final one keeps just its prefix and root: the root separator
/// when the path is rooted, the bare prefix (possibly empty) when it is
/// relative.
pub open spec fn spec_parent(p: Seq<char>) -> Option<Seq<char>> {
    let pre = prefix_len(p);
    let body = p.skip(pre);
    let trimmed = without_trailing_separators(body);
    if trimmed.len() == 0 {
        None
    } else {
        let up = without_trailing_separators(without_last_component(trimmed));
        if up.len() > 0 {
            Some(p.take(pre) + up)
        } else if is_path_separator(body[0]) {
            Some(p.take(pre) + body.take(1))
        } else {
            Some(p.take(pre))
        }
    }
}

/// A directory joined with the fixed relative tail `logs\Client.txt`. A
/// separator is inserted unless the directory is empty, already ends in a
/// separator, or is a bare drive prefix.
pub open spec fn spec_join_log_tail(dir: Seq<char>) -> Seq<char> {
    if dir.len() == 0 || is_path_separator(dir[dir.len() - 1]) || prefix_len(dir)
        == dir.len() {
        dir + "logs\\Client.txt"@
    } else {
        dir + "\\logs\\Client.txt"@
    }
}

/// The log path that belongs to an executable path: the directory the
/// executable sits in, with `logs\Client.txt` appended; nothing when the
/// path has no parent directory.
pub open spec fn spec_log_path(p: Seq<char>) -> Option<Seq<char>> {
    match spec_parent(p) {
        Some(dir) => Some(spec_join_log_tail(dir)),
        None => None,
    }
}

/// Whether the character is a path separator.
fn is_sep_char(c: char) -> (r: bool)
    ensures
        r == is_path_separator(c),
{
    c == '\\' || c == '/'
}

proof fn lemma_strip_separators_is_take(s: Seq<char>, k: int)
    requires
        0 <= k <= s.len(),
        forall|i: int| k <= i < s.len() ==> is_path_separator(s[i]),
        k > 0 ==> !is_path_separator(s[k - 1]),
    ensures
        without_trailing_separators(s) == s.take(k),
    decreases s.len(),
{
    if s.len() == 0 || k == s.len() {
        assert(s.take(k) =~= s);
    } else {
        lemma_strip_separators_is_take(s.drop_last(), k);
        assert(s.drop_last().take(k) =~= s.take(k));
    }
}

proof fn lemma_strip_component_is_take(s: Seq<char>, k: int)
    requires
        0 <= k <= s.len(),
        forall|i: int| k <= i < s.len() ==> !is_path_separator(s[i]),
        k > 0 ==> is_path_separator(s[k - 1]),
    ensures
        without_last_component(s) == s.take(k),
    decreases s.len(),
{
    if s.len() == 0 || k == s.len() {
        assert(s.take(k) =~= s);
    } else {
        lemma_strip_component_is_take(s.drop_last(), k);
        assert(s.drop_last().take(k) =~= s.take(k));
    }
}

/// Derives the log path from the target executable's path: the directory
/// the executable sits in, plus `logs\Client.txt`. A path that names no
/// file inside a directory — empty, only a root, only a drive prefix —
/// yields nothing; a bare file name yields the relative `logs\Client.txt`.
pub fn construct_log_path(poe_executable_path: &str) -> (r: Option<String>)
    ensures
        r is Some <==> spec_parent(poe_executable_path@) is Some,
        r matches Some(path) ==> Some(path@) == spec_log_path(poe_executable_path@),
{
    let p = poe_executable_path;
    let ghost pv = p@;
    let n = p.unicode_len();

    let pre: usize = if n >= 2 {
        let c0 = p.get_char(0);
        let c1 = p.get_char(1);
        if c1 == ':' && (('a' <= c0 && c0 <= 'z') || ('A' <= c0 && c0 <= 'Z')) {
            2
        } else {
            0
        }
    } else {
        0
    };
    proof {
        assert(pre as int == prefix_len(pv));
    }
    let ghost body = pv.skip(pre as int);

    // Strip the trailing separators of the body.
    let mut e1: usize = n;
    while e1 > pre && is_sep_char(p.get_char(e1 - 1))
        invariant
            n == p@.len(),
            pre <= e1 <= n,
            forall|i: int| e1 <= i < n ==> is_path_separator(p@[i]),
        decreases e1,
    {
        e1 -= 1;
    }
    proof {
        assert(forall|i: int| 0 <= i < body.len() ==> body[i] == pv[i + pre]);
        lemma_strip_separators_is_take(body, e1 - pre);
    }
    if e1 == pre {
        // Nothing beyond prefix and root: no parent directory.
        return None;
    }
    let ghost trimmed = body.take(e1 - pre);

    // Strip the last component.
    let mut e2: usize = e1;
    while e2 > pre && !is_sep_char(p.get_char(e2 - 1))
        invariant
            n == p@.len(),
            pre <= e2 <= e1 <= n,
            forall|i: int| e2 <= i < e1 ==> !is_path_separator(p@[i]),
        decreases e2,
    {
        e2 -= 1;
    }
    proof {
        assert(forall|i: int| 0 <= i < trimmed.len() ==> trimmed[i] == pv[i + pre]);
        lemma_strip_component_is_take(trimmed, e2 - pre);
    }
    let ghost shorn = trimmed.take(e2 - pre);

    // Strip the separators in front of the stripped component.
    let mut e3: usize = e2;
    while e3 > pre && is_sep_char(p.get_char(e3 - 1))
        invariant
            n == p@.len(),
            pre <= e3 <= e2 <= n,
            forall|i: int| e3 <= i < e2 ==> is_path_separator(p@[i]),
        decreases e3,
    {
        e3 -= 1;
    }
    proof {
        assert(forall|i: int| 0 <= i < shorn.len() ==> shorn[i] == pv[i + pre]);
        lemma_strip_separators_is_take(shorn, e3 - pre);
        assert(without_trailing_separators(without_last_component(trimmed)) =~= shorn.take(
            e3 - pre,
        ));
    }

    // The parent directory is a prefix of the path: the remaining
    // components, or the root separator, or the bare drive prefix.
    let m: usize = if e3 > pre {
        e3
    } else if is_sep_char(p.get_char(pre)) {
        pre + 1
    } else {
        pre
    };
    proof {
        if e3 > pre {
            assert(pv.take(pre as int) + shorn.take(e3 - pre) =~= pv.take(e3 as int));
        } else if is_path_separator(body[0]) {
            assert(pv.take(pre as int) + body.take(1) =~= pv.take(pre + 1));
        }
        assert(spec_parent(pv) == Some(pv.take(m as int)));
    }

    let dir = p.substring_char(0, m);
    let mut log_path = dir.to_owned();
    let ghost dv = pv.take(m as int);
    if m > 0 && m != pre && !is_sep_char(p.get_char(m - 1)) {
        proof {
            assert(prefix_len(dv) != dv.len());
        }
        log_path.append("\\logs\\Client.txt");
    } else {
        proof {
            if m > 0 && !is_path_separator(dv[m - 1]) {
                assert(m == pre == 2);
                assert(prefix_len(dv) == dv.len());
            }
        }
        log_path.append("logs\\Client.txt");
    }
    Some(log_path)
}

} // verus!
