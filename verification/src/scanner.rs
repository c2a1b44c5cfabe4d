//! Fallback playlist construction: enumerate playable files.
//!
//! When no list file drives the playlist, the operator hands over files
//! and directories; the caller enumerates the names and this module keeps
//! the ones with a playable extension, ordered lexicographically by code
//! point so that the playlist is deterministic whatever order the
//! filesystem reported the names in.

use vstd::prelude::*;
use vstd::seq_lib::lemma_multiset_commutative;

verus! {

/// `suf` is a suffix of `s`.
pub open spec fn has_suffix(s: Seq<char>, suf: Seq<char>) -> bool {
    s.len() >= suf.len() && s.skip(s.len() - suf.len()) == suf
}

/// The extensions the scanner accepts as playable media.
pub open spec fn spec_playable(s: Seq<char>) -> bool {
    ||| has_suffix(s, ".mp4"@)
    ||| has_suffix(s, ".mkv"@)
    ||| has_suffix(s, ".avi"@)
    ||| has_suffix(s, ".mov"@)
    ||| has_suffix(s, ".webm"@)
    ||| has_suffix(s, ".mp3"@)
    ||| has_suffix(s, ".wav"@)
    ||| has_suffix(s, ".flac"@)
    ||| has_suffix(s, ".ogg"@)
    ||| has_suffix(s, ".m4a"@)
}

/// Does `s` end with `suf`?
pub fn ends_with(s: &str, suf: &str) -> (r: bool)
    ensures
        r == has_suffix(s@, suf@),
{
    let n = s.unicode_len();
    let m = suf.unicode_len();
    if n < m {
        return false;
    }
    let d = n - m;
    let mut i: usize = 0;
    while i < m
        invariant
            n == s@.len(),
            m == suf@.len(),
            d == n - m,
            i <= m,
            forall|k: int| 0 <= k < i ==> s@[d + k] == suf@[k],
        decreases m - i,
    {
        let ca = s.get_char(d + i);
        let cb = suf.get_char(i);
        if ca != cb {
            proof {
                assert(s@.skip(d as int)[i as int] == s@[d + i]);
            }
            return false;
        }
        i = i + 1;
    }
    proof {
        assert(s@.skip(d as int) =~= suf@);
    }
    true
}

/// Is the file at `s` playable, by its extension?
pub fn is_playable(s: &str) -> (r: bool)
    ensures
        r == spec_playable(s@),
{
    ends_with(s, ".mp4") || ends_with(s, ".mkv") || ends_with(s, ".avi") || ends_with(s, ".mov")
        || ends_with(s, ".webm") || ends_with(s, ".mp3") || ends_with(s, ".wav") || ends_with(
        s,
        ".flac",
    ) || ends_with(s, ".ogg") || ends_with(s, ".m4a")
}

/// Lexicographic order on character sequences, by code point.
pub open spec fn lex_le(a: Seq<char>, b: Seq<char>) -> bool
    decreases a.len(),
{
    if a.len() == 0 {
        true
    } else if b.len() == 0 {
        false
    } else if a[0] == b[0] {
        lex_le(a.drop_first(), b.drop_first())
    } else {
        a[0] < b[0]
    }
}

/// Law: the lexicographic order is total.
pub proof fn lemma_lex_total(a: Seq<char>, b: Seq<char>)
    ensures
        lex_le(a, b) || lex_le(b, a),
    decreases a.len(),
{
    if a.len() == 0 {
        assert(lex_le(a, b));
    } else if b.len() == 0 {
        assert(lex_le(b, a));
    } else if a[0] == b[0] {
        lemma_lex_total(a.drop_first(), b.drop_first());
        assert(lex_le(a, b) == lex_le(a.drop_first(), b.drop_first()));
        assert(lex_le(b, a) == lex_le(b.drop_first(), a.drop_first()));
    } else if a[0] < b[0] {
        assert(lex_le(a, b));
    } else {
        assert(b[0] < a[0]);
        assert(lex_le(b, a));
    }
}

/// Law: the lexicographic order is transitive.
pub proof fn lemma_lex_trans(a: Seq<char>, b: Seq<char>, c: Seq<char>)
    requires
        lex_le(a, b),
        lex_le(b, c),
    ensures
        lex_le(a, c),
    decreases a.len(),
{
    if a.len() > 0 && b.len() > 0 && c.len() > 0 && a[0] == b[0] && b[0] == c[0] {
        lemma_lex_trans(a.drop_first(), b.drop_first(), c.drop_first());
    }
}

/// Once the first `i` characters agree, the order is decided by the rest.
proof fn lemma_lex_skip(a: Seq<char>, b: Seq<char>, i: int)
    requires
        0 <= i <= a.len(),
        i <= b.len(),
        forall|k: int| 0 <= k < i ==> a[k] == b[k],
    ensures
        lex_le(a, b) == lex_le(a.skip(i), b.skip(i)),
    decreases i,
{
    if i > 0 {
        lemma_lex_skip(a.drop_first(), b.drop_first(), i - 1);
        assert(a.drop_first().skip(i - 1) =~= a.skip(i));
        assert(b.drop_first().skip(i - 1) =~= b.skip(i));
    } else {
        assert(a.skip(0) =~= a);
        assert(b.skip(0) =~= b);
    }
}

/// Compare two names in lexicographic order.
pub fn lex_le_exec(a: &str, b: &str) -> (r: bool)
    ensures
        r == lex_le(a@, b@),
{
    let an = a.unicode_len();
    let bn = b.unicode_len();
    let mut i: usize = 0;
    while i < an
        invariant
            an == a@.len(),
            bn == b@.len(),
            i <= an,
            i <= bn,
            forall|k: int| 0 <= k < i ==> a@[k] == b@[k],
        decreases an - i,
    {
        if i >= bn {
            proof {
                lemma_lex_skip(a@, b@, i as int);
            }
            return false;
        }
        let ca = a.get_char(i);
        let cb = b.get_char(i);
        if ca != cb {
            proof {
                lemma_lex_skip(a@, b@, i as int);
                assert(a@.skip(i as int)[0] == a@[i as int]);
                assert(b@.skip(i as int)[0] == b@[i as int]);
            }
            return ca < cb;
        }
        i = i + 1;
    }
    proof {
        lemma_lex_skip(a@, b@, i as int);
        assert(a@.skip(i as int).len() == 0);
    }
    true
}

/// The sequence is sorted in lexicographic order.
pub open spec fn lex_sorted(s: Seq<Seq<char>>) -> bool {
    forall|i: int, j: int| 0 <= i < j < s.len() ==> lex_le(s[i], s[j])
}

/// The scanner's filter, as a function value.
pub open spec fn playable_pred() -> spec_fn(Seq<char>) -> bool {
    |s: Seq<char>| spec_playable(s)
}

/// Insert `x` into the sorted `v`, keeping it sorted; the contents grow
/// by exactly `x`.
fn insert_sorted(v: &mut Vec<String>, x: String)
    requires
        lex_sorted(old(v).deep_view()),
    ensures
        lex_sorted(final(v).deep_view()),
        final(v).deep_view().to_multiset() == old(v).deep_view().to_multiset().insert(x@),
{
    broadcast use vstd::seq_lib::group_to_multiset_ensures;

    let ghost old_deep = v.deep_view();
    let n = v.len();
    let mut i: usize = 0;
    loop
        invariant
            n == v@.len(),
            i <= n,
            v@ == old(v)@,
            forall|k: int| 0 <= k < i ==> lex_le(v.deep_view()[k], x@),
        ensures
            i <= n,
            v@ == old(v)@,
            forall|k: int| 0 <= k < i ==> lex_le(v.deep_view()[k], x@),
            i < n ==> !lex_le(v.deep_view()[i as int], x@),
        decreases n - i,
    {
        if i >= n {
            break;
        }
        let keep_scanning = lex_le_exec(v[i].as_str(), x.as_str());
        if !keep_scanning {
            break;
        }
        i = i + 1;
    }
    proof {
        if i < n {
            lemma_lex_total(old_deep[i as int], x@);
        }
        assert forall|q: int| i <= q < n implies lex_le(x@, old_deep[q]) by {
            if q > i {
                lemma_lex_trans(x@, old_deep[i as int], old_deep[q]);
            }
        }
    }
    v.insert(i, x);
    proof {
        let new_deep = v.deep_view();
        old_deep.insert_ensures(i as int, x@);
        assert(new_deep =~= old_deep.insert(i as int, x@));
        assert forall|p: int, q: int| 0 <= p < q < new_deep.len() implies lex_le(
            new_deep[p],
            new_deep[q],
        ) by {
            if p < i && q == i {
            } else if p == i && q > i {
            } else if p < i && q > i {
                lemma_lex_trans(old_deep[p], x@, old_deep[q - 1]);
            }
        }
        // The contents: cutting at `i` and re-adding `x` in the middle
        // touches no other element.
        assert(old_deep =~= old_deep.take(i as int) + old_deep.skip(i as int));
        assert(new_deep =~= old_deep.take(i as int).push(x@) + old_deep.skip(i as int));
        lemma_multiset_commutative(old_deep.take(i as int), old_deep.skip(i as int));
        lemma_multiset_commutative(old_deep.take(i as int).push(x@), old_deep.skip(i as int));
        assert(old_deep.take(i as int).push(x@).to_multiset() =~= old_deep.take(
            i as int,
        ).to_multiset().insert(x@));
        assert(new_deep.to_multiset() =~= old_deep.to_multiset().insert(x@));
    }
}

/// Keep the playable names and order them lexicographically.  The result
/// holds exactly the playable entries of `names`, each as often as it
/// occurred, in sorted order.
pub fn scan_files(names: &Vec<String>) -> (r: Vec<String>)
    ensures
        lex_sorted(r.deep_view()),
        r.deep_view().to_multiset() == names.deep_view().filter(playable_pred()).to_multiset(),
{
    broadcast use vstd::seq_lib::group_to_multiset_ensures;

    let ghost all = names.deep_view();
    let mut r: Vec<String> = Vec::new();
    let mut i: usize = 0;
    proof {
        reveal(Seq::filter);
        assert(r.deep_view() =~~= Seq::<Seq<char>>::empty());
        assert(all.take(0) =~~= Seq::<Seq<char>>::empty());
        assert(Seq::<Seq<char>>::empty().filter(playable_pred()) =~~= Seq::<Seq<char>>::empty());
    }
    while i < names.len()
        invariant
            all == names.deep_view(),
            i <= names.len(),
            lex_sorted(r.deep_view()),
            r.deep_view().to_multiset() == all.take(i as int).filter(playable_pred()).to_multiset(),
        decreases names.len() - i,
    {
        broadcast use vstd::seq_lib::group_to_multiset_ensures;

        let ghost prev = r.deep_view();
        let name = &names[i];
        let playable = is_playable(name.as_str());
        if playable {
            insert_sorted(&mut r, name.clone());
        }
        i = i + 1;
        proof {
            reveal(Seq::filter);
            let t = all.take(i as int);
            assert(t.drop_last() =~~= all.take(i as int - 1));
            assert(t.last() == all[i as int - 1]);
            assert(all[i as int - 1] == names@[i as int - 1]@);
            assert(playable_pred()(t.last()) == spec_playable(all[i as int - 1]));
            if playable {
                assert(t.filter(playable_pred()) == all.take(i as int - 1).filter(
                    playable_pred(),
                ).push(all[i as int - 1]));
            } else {
                assert(t.filter(playable_pred()) == all.take(i as int - 1).filter(playable_pred()));
            }
        }
    }
    proof {
        assert(all.take(names.len() as int) =~~= all);
    }
    r
}

} // verus!
