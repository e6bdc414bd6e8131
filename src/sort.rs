use vstd::prelude::*;

use crate::package::{Package, PackageKind};
use crate::text::{lemma_lex_total, lemma_lex_trans, lex_le, lex_le_exec};

verus! {

broadcast use vstd::seq_lib::group_to_multiset_ensures;

/// The key an inventory is ordered by.
#[derive(Clone, Copy, Debug, PartialEq, Eq, Structural)]
pub enum SortBy {
    Size,
    Name,
    Kind,
}

/// Conda packages come before Python ones.
pub open spec fn kind_rank(k: PackageKind) -> int {
    match k {
        PackageKind::Conda => 0,
        PackageKind::Pypi => 1,
    }
}

/// A size for ordering: an absent size counts as zero.
pub open spec fn size_key(p: Package) -> int {
    match p.size_bytes {
        Some(s) => s as int,
        None => 0,
    }
}

/// `a` may stand before `b` when ordering by `by`.
pub open spec fn sort_le(by: SortBy, a: Package, b: Package) -> bool {
    match by {
        SortBy::Size => size_key(a) <= size_key(b),
        SortBy::Name => lex_le(a.name@, b.name@),
        SortBy::Kind => kind_rank(a.kind) <= kind_rank(b.kind),
    }
}

/// Every element may stand before every later one.
pub open spec fn sorted_by(by: SortBy, s: Seq<Package>) -> bool {
    forall|i: int, j: int| 0 <= i < j < s.len() ==> sort_le(by, #[trigger] s[i], #[trigger] s[j])
}

proof fn lemma_sort_le_total(by: SortBy, a: Package, b: Package)
    ensures
        sort_le(by, a, b) || sort_le(by, b, a),
{
    if by == SortBy::Name {
        lemma_lex_total(a.name@, b.name@);
    }
}

proof fn lemma_sort_le_trans(by: SortBy, a: Package, b: Package, c: Package)
    requires
        sort_le(by, a, b),
        sort_le(by, b, c),
    ensures
        sort_le(by, a, c),
{
    if by == SortBy::Name {
        lemma_lex_trans(a.name@, b.name@, c.name@);
    }
}

fn sort_le_exec(by: SortBy, a: &Package, b: &Package) -> (r: bool)
    ensures
        r == sort_le(by, *a, *b),
{
    match by {
        SortBy::Size => {
            let sa: u64 = match a.size_bytes {
                Some(s) => s,
                None => 0,
            };
            let sb: u64 = match b.size_bytes {
                Some(s) => s,
                None => 0,
            };
            sa <= sb
        },
        SortBy::Name => lex_le_exec(a.name.as_str(), b.name.as_str()),
        SortBy::Kind => match (a.kind, b.kind) {
            (PackageKind::Pypi, PackageKind::Conda) => false,
            _ => true,
        },
    }
}

/// `perm` sends each position of `sorted` to a distinct position of
/// `original` holding the same package, and packages with equal keys keep
/// the relative order they had in `original`.
pub open spec fn stable_arrangement(by: SortBy, original: Seq<Package>, sorted: Seq<Package>, perm: Seq<int>) -> bool {
    &&& perm.len() == sorted.len()
    &&& sorted.len() == original.len()
    &&& forall|k: int| 0 <= k < perm.len() ==> 0 <= #[trigger] perm[k] < original.len() && sorted[k] == original[perm[k]]
    &&& forall|k: int, l: int| 0 <= k < l < perm.len() ==> #[trigger] perm[k] != #[trigger] perm[l]
    &&& forall|k: int, l: int|
        0 <= k < l < perm.len() && sort_le(by, sorted[k], sorted[l]) && sort_le(by, sorted[l], sorted[k])
            ==> #[trigger] perm[k] < #[trigger] perm[l]
}

/// Orders the packages by `by`, ascending. The sort is stable: packages with
/// equal keys keep their relative order, so equal keys never leave the
/// result order open.
pub fn sort_packages(packages: &mut Vec<Package>, by: SortBy)
    ensures
        final(packages)@.to_multiset() == old(packages)@.to_multiset(),
        sorted_by(by, final(packages)@),
        exists|perm: Seq<int>| stable_arrangement(by, old(packages)@, final(packages)@, perm),
{
    let mut rest: Vec<Package> = Vec::new();
    std::mem::swap(&mut rest, packages);
    let ghost original = rest@;
    let mut result: Vec<Package> = Vec::new();
    let ghost mut perm: Seq<int> = Seq::empty();
    while rest.len() > 0
        invariant
            result@.to_multiset().add(rest@.to_multiset()) == original.to_multiset(),
            sorted_by(by, result@),
            rest@ == original.subrange(0, rest@.len() as int),
            rest@.len() + result@.len() == original.len(),
            perm.len() == result@.len(),
            forall|k: int| 0 <= k < perm.len() ==> rest@.len() <= #[trigger] perm[k] < original.len()
                && result@[k] == original[perm[k]],
            forall|k: int, l: int| 0 <= k < l < perm.len() ==> #[trigger] perm[k] != #[trigger] perm[l],
            forall|k: int, l: int|
                0 <= k < l < perm.len() && sort_le(by, result@[k], result@[l]) && sort_le(by, result@[l], result@[k])
                    ==> #[trigger] perm[k] < #[trigger] perm[l],
        decreases rest@.len(),
    {
        let ghost before = rest@;
        let x = rest.pop().unwrap();
        proof {
            assert(before =~= rest@.push(x));
        }
        let mut j: usize = 0;
        while j < result.len() && !sort_le_exec(by, &x, &result[j])
            invariant
                j <= result@.len(),
                forall|k: int| 0 <= k < j ==> !sort_le(by, x, #[trigger] result@[k]),
            decreases result@.len() - j,
        {
            j = j + 1;
        }
        let ghost old_result = result@;
        let ghost old_perm = perm;
        let ghost m = rest@.len() as int;
        result.insert(j, x);
        proof {
            assert(result@ =~= old_result.insert(j as int, x));
            perm = old_perm.insert(j as int, m);
            assert(x == original[m]);
            assert(rest@ =~= original.subrange(0, m));
            assert forall|k: int| 0 <= k < perm.len() implies m <= #[trigger] perm[k] < original.len()
                && result@[k] == original[perm[k]] by {
                if k > j {
                    assert(perm[k] == old_perm[k - 1]);
                } else if k < j {
                    assert(perm[k] == old_perm[k]);
                }
            }
            assert forall|k: int, l: int| 0 <= k < l < perm.len() implies #[trigger] perm[k] != #[trigger] perm[l] by {
                let ok = if k < j { k } else { k - 1 };
                let ol = if l < j { l } else { l - 1 };
                if k != j && l != j {
                    assert(perm[k] == old_perm[ok] && perm[l] == old_perm[ol]);
                } else if k == j {
                    assert(perm[l] == old_perm[ol]);
                } else {
                    assert(perm[k] == old_perm[ok]);
                }
            }
            assert forall|k: int, l: int|
                0 <= k < l < perm.len() && sort_le(by, result@[k], result@[l]) && sort_le(by, result@[l], result@[k])
                    implies #[trigger] perm[k] < #[trigger] perm[l] by {
                let ok = if k < j { k } else { k - 1 };
                let ol = if l < j { l } else { l - 1 };
                if k != j && l != j {
                    assert(perm[k] == old_perm[ok] && perm[l] == old_perm[ol]);
                    assert(result@[k] == old_result[ok] && result@[l] == old_result[ol]);
                } else if k == j {
                    assert(perm[l] == old_perm[ol]);
                } else {
                    assert(!sort_le(by, x, old_result[k]));
                }
            }
            assert forall|k: int| j <= k < old_result.len() implies sort_le(
                by,
                x,
                #[trigger] old_result[k],
            ) by {
                if k > j {
                    lemma_sort_le_trans(by, x, old_result[j as int], old_result[k]);
                }
            }
            assert forall|a: int, b: int| 0 <= a < b < result@.len() implies sort_le(
                by,
                #[trigger] result@[a],
                #[trigger] result@[b],
            ) by {
                if b == j {
                    lemma_sort_le_total(by, x, result@[a]);
                } else if a == j {
                    assert(result@[b] == old_result[b - 1]);
                } else if a < j && b > j {
                    lemma_sort_le_total(by, x, result@[a]);
                    assert(result@[b] == old_result[b - 1]);
                    lemma_sort_le_trans(by, result@[a], x, result@[b]);
                }
            }
        }
    }
    proof {
        assert(stable_arrangement(by, original, result@, perm));
    }
    *packages = result;
}

} // verus!
