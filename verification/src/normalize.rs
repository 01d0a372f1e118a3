use vstd::prelude::*;

use crate::order::lemma_lex_lt_connected;
use crate::order::lemma_lex_lt_irreflexive;
use crate::order::lemma_lex_lt_transitive;
use crate::order::lex_lt;
use crate::order::str_lt;

verus! {

/// The sequence is strictly ascending in the canonical identifier order;
/// in particular it holds no duplicate identifiers.
pub open spec fn strictly_sorted(s: Seq<Seq<char>>) -> bool {
    forall|i: int, j: int| 0 <= i < j < s.len() ==> lex_lt(s[i], s[j])
}

/// `n` is the normalized form of the recipient list `r`: the same set of
/// identifiers, deduplicated and canonically sorted.
pub open spec fn is_normalization_of(n: Seq<Seq<char>>, r: Seq<Seq<char>>) -> bool {
    &&& strictly_sorted(n)
    &&& n.to_set() == r.to_set()
}

/// A strictly sorted sequence never repeats its first element later on.
proof fn lemma_strictly_sorted_head(s: Seq<Seq<char>>)
    requires
        strictly_sorted(s),
        s.len() > 0,
    ensures
        !s.drop_first().to_set().contains(s[0]),
        strictly_sorted(s.drop_first()),
        s.to_set() == s.drop_first().to_set().insert(s[0]),
{
    assert forall|i: int, j: int|
        0 <= i < j < s.drop_first().len() implies lex_lt(
        s.drop_first()[i],
        s.drop_first()[j],
    ) by {
        assert(s.drop_first()[i] == s[i + 1]);
        assert(s.drop_first()[j] == s[j + 1]);
    }
    if s.drop_first().to_set().contains(s[0]) {
        let i = choose|i: int| 0 <= i < s.drop_first().len() && s.drop_first()[i] == s[0];
        assert(s[i + 1] == s[0]);
        assert(lex_lt(s[0], s[i + 1]));
        lemma_lex_lt_irreflexive(s[0]);
    }
    assert(s.to_set() =~= s.drop_first().to_set().insert(s[0])) by {
        assert forall|x: Seq<char>| s.to_set().contains(x) implies s.drop_first().to_set().insert(
            s[0],
        ).contains(x) by {
            let i = choose|i: int| 0 <= i < s.len() && s[i] == x;
            if i > 0 {
                assert(s.drop_first()[i - 1] == x);
            }
        }
        assert forall|x: Seq<char>|
            s.drop_first().to_set().insert(s[0]).contains(x) implies s.to_set().contains(x) by {
            if x == s[0] {
                assert(s.contains(x));
            } else {
                let i = choose|i: int|
                    0 <= i < s.drop_first().len() && s.drop_first()[i] == x;
                assert(s[i + 1] == x);
            }
        }
    }
}

/// The normalized form is unique: two strictly sorted sequences over the
/// same set of identifiers are the same sequence.  Normalization is
/// therefore a function of the identifier set alone — it is idempotent and
/// independent of the order and multiplicity of its input.
pub proof fn lemma_normalization_unique(a: Seq<Seq<char>>, b: Seq<Seq<char>>)
    requires
        strictly_sorted(a),
        strictly_sorted(b),
        a.to_set() == b.to_set(),
    ensures
        a == b,
    decreases a.len(),
{
    if a.len() == 0 {
        if b.len() > 0 {
            assert(b.to_set().contains(b[0]));
            assert(a.contains(b[0]));
        }
        assert(a =~= b);
    } else {
        assert(a.to_set().contains(a[0]));
        assert(b.contains(a[0]));
        if b.len() == 0 {
            assert(b.to_set().contains(a[0]));
        }
        assert(b.to_set().contains(b[0]));
        assert(a.contains(b[0]));
        let i = choose|i: int| 0 <= i < a.len() && a[i] == b[0];
        let j = choose|j: int| 0 <= j < b.len() && b[j] == a[0];
        if a[0] != b[0] {
            assert(i > 0 && j > 0);
            assert(lex_lt(a[0], a[i]));
            assert(lex_lt(b[0], b[j]));
            lemma_lex_lt_transitive(a[0], b[0], a[0]);
            lemma_lex_lt_irreflexive(a[0]);
        }
        lemma_strictly_sorted_head(a);
        lemma_strictly_sorted_head(b);
        assert(a.drop_first().to_set() =~= b.drop_first().to_set()) by {
            assert(a.to_set().remove(a[0]) =~= a.drop_first().to_set());
            assert(b.to_set().remove(b[0]) =~= b.drop_first().to_set());
        }
        lemma_normalization_unique(a.drop_first(), b.drop_first());
        assert forall|k: int| 0 <= k < a.len() implies a[k] == b[k] by {
            if k > 0 {
                assert(a.drop_first()[k - 1] == a[k]);
                assert(b.drop_first()[k - 1] == b[k]);
            }
        }
        assert(a =~= b);
    }
}

/// Normalization is idempotent: normalizing a normalized list leaves it
/// unchanged.
pub proof fn lemma_normalization_idempotent(n: Seq<Seq<char>>, m: Seq<Seq<char>>, r: Seq<Seq<char>>)
    requires
        is_normalization_of(n, r),
        is_normalization_of(m, n),
    ensures
        m == n,
{
    lemma_normalization_unique(m, n);
}

/// Normalization is order- and multiplicity-independent: recipient lists
/// carrying the same identifiers — in any order, with any duplication —
/// normalize to the same sequence.
pub proof fn lemma_normalization_order_independent(
    n1: Seq<Seq<char>>,
    r1: Seq<Seq<char>>,
    n2: Seq<Seq<char>>,
    r2: Seq<Seq<char>>,
)
    requires
        is_normalization_of(n1, r1),
        is_normalization_of(n2, r2),
        r1.to_set() == r2.to_set(),
    ensures
        n1 == n2,
{
    lemma_normalization_unique(n1, n2);
}

/// Inserts `p` into the strictly sorted list `out`, keeping it strictly
/// sorted; an identifier already present is dropped, not repeated.
fn insert_sorted(out: &mut Vec<String>, p: String)
    requires
        strictly_sorted(old(out).deep_view()),
    ensures
        strictly_sorted(final(out).deep_view()),
        final(out).deep_view().to_set() == old(out).deep_view().to_set().insert(p@),
        final(out)@.len() >= 1,
        final(out)@.len() >= old(out)@.len(),
        final(out)@.len() <= old(out)@.len() + 1,
{
    let ghost pre = out.deep_view();
    let mut j: usize = 0;
    while j < out.len() && str_lt(out[j].as_str(), p.as_str())
        invariant
            strictly_sorted(out.deep_view()),
            out.deep_view() == pre,
            j <= out@.len(),
            forall|k: int| 0 <= k < j ==> lex_lt(pre[k], p@),
        decreases out@.len() - j,
    {
        j = j + 1;
    }
    if j < out.len() && out[j] == p {
        proof {
            assert(pre[j as int] == p@);
            assert(pre.to_set() =~= pre.to_set().insert(p@)) by {
                assert(pre.contains(p@));
            }
        }
    } else {
        proof {
            if j < out@.len() {
                if !lex_lt(p@, pre[j as int]) {
                    lemma_lex_lt_connected(p@, pre[j as int]);
                }
                assert(lex_lt(p@, pre[j as int]));
            }
        }
        out.insert(j, p);
        proof {
            let post = out.deep_view();
            assert(post =~= pre.insert(j as int, p@)) by {
                assert forall|k: int| 0 <= k < post.len() implies post[k] == pre.insert(
                    j as int,
                    p@,
                )[k] by {
                    assert(out@[k].deep_view() == post[k]);
                }
            }
            assert forall|x: int, y: int| 0 <= x < y < post.len() implies lex_lt(
                post[x],
                post[y],
            ) by {
                if y < j {
                    assert(post[x] == pre[x] && post[y] == pre[y]);
                } else if x > j {
                    assert(post[x] == pre[x - 1] && post[y] == pre[y - 1]);
                } else if y == j {
                    assert(post[x] == pre[x] && post[y] == p@);
                } else if x == j {
                    assert(post[x] == p@ && post[y] == pre[y - 1]);
                    if y - 1 > j {
                        lemma_lex_lt_transitive(p@, pre[j as int], pre[y - 1]);
                    }
                } else {
                    // x < j < y
                    assert(post[x] == pre[x] && post[y] == pre[y - 1]);
                    if y - 1 > j {
                        if j < pre.len() {
                            lemma_lex_lt_transitive(pre[x], pre[j as int], pre[y - 1]);
                        } else {
                            lemma_lex_lt_transitive(pre[x], p@, pre[y - 1]);
                        }
                    } else {
                        // y - 1 == j is impossible here since y > j means y - 1 >= j,
                        // and y - 1 == j with x < j gives pre indices x < j
                        assert(post[y] == pre[j as int]);
                    }
                }
            }
            assert(post.to_set() =~= pre.to_set().insert(p@)) by {
                assert forall|x: Seq<char>| post.to_set().contains(x) implies pre.to_set().insert(
                    p@,
                ).contains(x) by {
                    let k = choose|k: int| 0 <= k < post.len() && post[k] == x;
                    if k < j {
                        assert(pre[k] == x);
                    } else if k > j {
                        assert(pre[k - 1] == x);
                    }
                }
                assert forall|x: Seq<char>|
                    pre.to_set().insert(p@).contains(x) implies post.to_set().contains(x) by {
                    if x == p@ {
                        assert(post[j as int] == x);
                    } else {
                        let k = choose|k: int| 0 <= k < pre.len() && pre[k] == x;
                        if k < j {
                            assert(post[k] == x);
                        } else {
                            assert(post[k + 1] == x);
                        }
                    }
                }
            }
        }
    }
}

/// Deduplicates and canonically sorts a recipient list, so that the same
/// logical recipient set — in any order, with any duplicate multiplicity —
/// always routes funds identically.
pub fn normalize(payees: &Vec<String>) -> (r: Vec<String>)
    ensures
        is_normalization_of(r.deep_view(), payees.deep_view()),
        r@.len() <= payees@.len(),
        r@.len() == 0 <==> payees@.len() == 0,
{
    let ghost all = payees.deep_view();
    let mut out: Vec<String> = Vec::new();
    let mut idx: usize = 0;
    proof {
        assert(out.deep_view().to_set() =~= all.take(0).to_set());
    }
    while idx < payees.len()
        invariant
            idx <= payees@.len(),
            all == payees.deep_view(),
            strictly_sorted(out.deep_view()),
            out.deep_view().to_set() == all.take(idx as int).to_set(),
            out@.len() <= idx,
            idx > 0 ==> out@.len() > 0,
        decreases payees@.len() - idx,
    {
        let p = payees[idx].clone();
        proof {
            assert(p@ == all[idx as int]);
            assert(all.take(idx + 1).to_set() =~= all.take(idx as int).to_set().insert(p@)) by {
                assert forall|x: Seq<char>|
                    all.take(idx + 1).to_set().contains(x) implies all.take(
                    idx as int,
                ).to_set().insert(p@).contains(x) by {
                    let k = choose|k: int|
                        0 <= k < idx + 1 && (#[trigger] all.take(idx + 1)[k]) == x;
                    if k < idx {
                        assert(all.take(idx as int)[k] == x);
                    }
                }
                assert forall|x: Seq<char>|
                    all.take(idx as int).to_set().insert(p@).contains(x) implies all.take(
                    idx + 1,
                ).to_set().contains(x) by {
                    if x == p@ {
                        assert(all.take(idx + 1)[idx as int] == x);
                    } else {
                        let k = choose|k: int| 0 <= k < idx && all.take(idx as int)[k] == x;
                        assert(all.take(idx + 1)[k] == x);
                    }
                }
            }
        }
        insert_sorted(&mut out, p);
        idx = idx + 1;
    }
    proof {
        assert(all.take(payees@.len() as int) =~= all);
    }
    out
}

} // verus!
