use vstd::prelude::*;

use crate::package::{normalize_error, normalizes, DiskUsage, ListError, Package, PackageExt, RegistryWheelIndex};
use crate::text::contains_name;

verus! {

/// Whether a pattern compiles as a regular expression.
pub uninterp spec fn regex_valid(pattern: Seq<char>) -> bool;

/// Whether a compiled pattern matches anywhere in a text.
pub uninterp spec fn regex_is_match(pattern: Seq<char>, text: Seq<char>) -> bool;

#[verifier::external_type_specification]
#[verifier::external_body]
pub struct ExRegex(regex::Regex);

/// A name pattern compiled once.
///
/// Invariant: `regex` is `regex::Regex::new(&pattern)`. Verus cannot state it,
/// as a `Regex` is opaque to it; it holds because the type is private to this
/// module and `compile_pattern` is the only place that builds one, from both
/// halves at once. `pattern_matches` relies on it.
struct NamePattern {
    pattern: String,
    regex: regex::Regex,
}

impl NamePattern {
    /// The text this pattern was compiled from.
    closed spec fn source(&self) -> Seq<char> {
        self.pattern@
    }
}

/// Relies on `regex::Regex::new`, which fails on exactly the patterns it
/// cannot compile.
#[verifier::external_body]
fn compile_pattern(pattern: &String) -> (r: Option<NamePattern>)
    ensures
        r is Some <==> regex_valid(pattern@),
        r matches Some(c) ==> c.source() == pattern@,
{
    match regex::Regex::new(pattern) {
        Ok(regex) => Some(NamePattern { pattern: pattern.clone(), regex }),
        Err(_) => None,
    }
}

/// Relies on `regex::Regex::is_match`: whether the compiled pattern matches
/// anywhere in the text.
#[verifier::external_body]
fn pattern_matches(compiled: &NamePattern, text: &str) -> (r: bool)
    ensures
        r == regex_is_match(compiled.source(), text@),
{
    compiled.regex.is_match(text)
}

/// The name filter, seen as characters.
pub open spec fn pattern_of(regex: Option<String>) -> Option<Seq<char>> {
    match regex {
        Some(r) => Some(r@),
        None => None,
    }
}

/// Whether a package with this name and explicit flag passes the filters.
pub open spec fn passes(regex: Option<Seq<char>>, explicit_only: bool, name: Seq<char>, is_explicit: bool) -> bool {
    &&& match regex {
        Some(r) => regex_is_match(r, name),
        None => true,
    }
    &&& (explicit_only ==> is_explicit)
}

/// Whether a package passes the filters.
pub open spec fn keep(regex: Option<Seq<char>>, explicit_only: bool, p: Package) -> bool {
    passes(regex, explicit_only, p.name@, p.is_explicit)
}

/// The packages that pass the filters, in their order.
pub open spec fn kept(regex: Option<Seq<char>>, explicit_only: bool, s: Seq<Package>) -> Seq<Package> {
    s.filter(|p: Package| keep(regex, explicit_only, p))
}

/// Whether the filter pattern is given and does not compile.
pub open spec fn pattern_rejected(regex: Option<Seq<char>>) -> bool {
    regex matches Some(r) && !regex_valid(r)
}

/// Keeps the packages whose name matches `regex` (when given) and, with
/// `explicit_only`, that are explicit dependencies. A pattern that does not
/// compile is an error; otherwise an empty result is an error; otherwise the
/// result is `Ok`.
pub fn filter_packages(packages: Vec<Package>, regex: &Option<String>, explicit_only: bool) -> (r: Result<Vec<Package>, ListError>)
    ensures
        r == Err::<Vec<Package>, ListError>(ListError::InvalidRegex) <==> pattern_rejected(pattern_of(*regex)),
        r == Err::<Vec<Package>, ListError>(ListError::NoPackages) <==> !pattern_rejected(pattern_of(*regex))
            && kept(pattern_of(*regex), explicit_only, packages@).len() == 0,
        r matches Ok(v) ==> v@ == kept(pattern_of(*regex), explicit_only, packages@) && v@.len() > 0,
        r is Err ==> r == Err::<Vec<Package>, ListError>(ListError::InvalidRegex)
            || r == Err::<Vec<Package>, ListError>(ListError::NoPackages),
{
    let ghost pat = pattern_of(*regex);
    let ghost original = packages@;
    let ghost f = |p: Package| keep(pat, explicit_only, p);
    let n = packages.len();
    let compiled = match regex {
        Some(pattern) => match compile_pattern(pattern) {
            Some(c) => Some(c),
            None => {
                return Err(ListError::InvalidRegex);
            },
        },
        None => None,
    };
    let mut rest = packages;
    let mut out: Vec<Package> = Vec::new();
    let mut i: usize = 0;
    proof {
        reveal(Seq::filter);
        assert(original.subrange(0, 0).len() == 0);
    }
    while rest.len() > 0
        invariant
            pat == pattern_of(*regex),
            original == packages@,
            f == (|p: Package| keep(pat, explicit_only, p)),
            i + rest@.len() == original.len(),
            original.len() == n,
            rest@ == original.subrange(i as int, original.len() as int),
            out@ == original.subrange(0, i as int).filter(f),
            !pattern_rejected(pat),
            compiled is Some <==> regex is Some,
            compiled matches Some(c) ==> pat == Some(c.source()),
        decreases rest@.len(),
    {
        let ghost before = rest@;
        let p = rest.remove(0);
        let matched = match &compiled {
            Some(c) => pattern_matches(c, p.name.as_str()),
            None => true,
        };
        proof {
            assert(p == original[i as int]);
            assert(rest@ =~= original.subrange(i + 1, original.len() as int));
            assert(original.subrange(0, i + 1).drop_last() =~= original.subrange(0, i as int));
            assert(original.subrange(0, i + 1).last() == p);
            assert(f(p) == (matched && (!explicit_only || p.is_explicit)));
        }
        let ghost prev = out@;
        if matched && (!explicit_only || p.is_explicit) {
            out.push(p);
        }
        proof {
            reveal(Seq::filter);
            assert(original.subrange(0, i + 1).filter(f) == if f(p) {
                prev.push(p)
            } else {
                prev
            });
        }
        i = i + 1;
    }
    proof {
        reveal(Seq::filter);
        assert(original.subrange(0, i as int) =~= original);
    }
    if out.len() == 0 {
        Err(ListError::NoPackages)
    } else {
        Ok(out)
    }
}

/// `inventory` holds the normalized form of each record, in order.
pub open spec fn inventory_of(
    inventory: Seq<Package>,
    records: Seq<PackageExt>,
    names: Seq<String>,
    registry: Option<RegistryWheelIndex>,
    disk: DiskUsage,
) -> bool {
    &&& inventory.len() == records.len()
    &&& forall|i: int| 0 <= i < records.len() ==> normalizes(#[trigger] inventory[i], records[i], names, registry, disk)
}

/// The registry index a caller passed, as a value.
pub open spec fn registry_of(registry_index: Option<&RegistryWheelIndex>) -> Option<RegistryWheelIndex> {
    match registry_index {
        Some(x) => Some(*x),
        None => None,
    }
}

/// The error of the first record, in order, that cannot be normalized.
pub open spec fn inventory_error(
    records: Seq<PackageExt>,
    registry: Option<RegistryWheelIndex>,
    disk: DiskUsage,
) -> Option<ListError>
    decreases records.len(),
{
    if records.len() == 0 {
        None
    } else {
        match inventory_error(records.drop_last(), registry, disk) {
            Some(e) => Some(e),
            None => normalize_error(records.last(), registry, disk),
        }
    }
}

proof fn lemma_error_prefix(records: Seq<PackageExt>, n: int, registry: Option<RegistryWheelIndex>, disk: DiskUsage)
    requires
        0 <= n <= records.len(),
        inventory_error(records.subrange(0, n), registry, disk) is Some,
    ensures
        inventory_error(records, registry, disk) == inventory_error(records.subrange(0, n), registry, disk),
    decreases records.len() - n,
{
    if n == records.len() {
        assert(records.subrange(0, n) =~= records);
    } else {
        assert(records.subrange(0, n + 1).drop_last() =~= records.subrange(0, n));
        lemma_error_prefix(records, n + 1, registry, disk);
    }
}

/// Normalizes every record of the lock data, in order; fails with the error
/// of the first record that cannot be normalized.
pub fn build_inventory(
    records: &Vec<PackageExt>,
    project_dependency_names: &Vec<String>,
    registry_index: Option<&RegistryWheelIndex>,
    disk: &DiskUsage,
) -> (r: Result<Vec<Package>, ListError>)
    requires
        forall|i: int| 0 <= i < records@.len() ==> (#[trigger] records@[i]).wf(),
    ensures
        inventory_error(records@, registry_of(registry_index), *disk) matches Some(e)
            ==> r == Err::<Vec<Package>, ListError>(e),
        inventory_error(records@, registry_of(registry_index), *disk) is None ==> (r matches Ok(v)
            && inventory_of(v@, records@, project_dependency_names@, registry_of(registry_index), *disk)
            && forall|i: int| 0 <= i < v@.len() ==> (#[trigger] v@[i]).wf()),
{
    let ghost registry = registry_of(registry_index);
    let mut out: Vec<Package> = Vec::new();
    let mut i: usize = 0;
    proof {
        assert(records@.subrange(0, 0).len() == 0);
    }
    while i < records.len()
        invariant
            i <= records@.len(),
            out@.len() == i,
            registry == registry_of(registry_index),
            forall|k: int| 0 <= k < records@.len() ==> (#[trigger] records@[k]).wf(),
            inventory_error(records@.subrange(0, i as int), registry, *disk) is None,
            forall|k: int| 0 <= k < i ==> normalizes(#[trigger] out@[k], records@[k], project_dependency_names@, registry, *disk),
            forall|k: int| 0 <= k < i ==> (#[trigger] out@[k]).wf(),
        decreases records@.len() - i,
    {
        proof {
            assert(records@.subrange(0, i + 1).drop_last() =~= records@.subrange(0, i as int));
            assert(records@.subrange(0, i + 1).last() == records@[i as int]);
        }
        match Package::new(&records[i], project_dependency_names, registry_index, disk) {
            Ok(p) => {
                out.push(p);
            },
            Err(e) => {
                proof {
                    lemma_error_prefix(records@, i + 1, registry, *disk);
                }
                return Err(e);
            },
        }
        i = i + 1;
    }
    proof {
        assert(records@.subrange(0, i as int) =~= records@);
    }
    Ok(out)
}

/// What holds of every element of a sequence holds of every element that a
/// filter keeps.
proof fn lemma_filter_all(s: Seq<Package>, f: spec_fn(Package) -> bool, g: spec_fn(Package) -> bool)
    requires
        forall|i: int| 0 <= i < s.len() ==> g(#[trigger] s[i]),
    ensures
        forall|k: int| 0 <= k < s.filter(f).len() ==> g(#[trigger] s.filter(f)[k]),
    decreases s.len(),
{
    reveal(Seq::filter);
    if s.len() > 0 {
        let t = s.drop_last();
        assert forall|i: int| 0 <= i < t.len() implies g(#[trigger] t[i]) by {
            assert(t[i] == s[i]);
        }
        lemma_filter_all(t, f, g);
        let sub = t.filter(f);
        assert(s.filter(f) == if f(s.last()) {
            sub.push(s.last())
        } else {
            sub
        });
        assert(g(s.last()));
        assert forall|k: int| 0 <= k < s.filter(f).len() implies g(#[trigger] s.filter(f)[k]) by {
            if k < sub.len() {
                assert(s.filter(f)[k] == sub[k]);
            }
        }
    }
}

/// The filters keep nothing exactly when no element passes them.
proof fn lemma_kept_empty(regex: Option<Seq<char>>, explicit_only: bool, s: Seq<Package>)
    ensures
        kept(regex, explicit_only, s).len() == 0 <==> forall|i: int| 0 <= i < s.len() ==> !keep(regex, explicit_only, #[trigger] s[i]),
{
    broadcast use vstd::seq_lib::group_filter_ensures;

    let f = |p: Package| keep(regex, explicit_only, p);
    assert(kept(regex, explicit_only, s) == s.filter(f));

    if s.filter(f).len() == 0 {
        assert forall|i: int| 0 <= i < s.len() implies !f(#[trigger] s[i]) by {
            if f(s[i]) {
                assert(s.filter(f).contains(s[i]));
            }
        }
    } else {
        lemma_filter_all(s, f, |p: Package| true);
        assert(f(s.filter(f)[0]));
        let h = |p: Package| !f(p);
        if forall|i: int| 0 <= i < s.len() ==> !f(#[trigger] s[i]) {
            lemma_filter_all(s, f, h);
            assert(h(s.filter(f)[0]));
        }
    }
}

/// Builds the inventory of the lock data and keeps the packages whose name
/// matches `regex` (when given) and, with `explicit_only`, that are explicit
/// dependencies. A pattern that does not compile is an error; otherwise an
/// empty result is an error; otherwise the result is `Ok`. Where a record
/// cannot be normalized, that error comes first.
pub fn list_packages(
    records: &Vec<PackageExt>,
    project_dependency_names: &Vec<String>,
    registry_index: Option<&RegistryWheelIndex>,
    disk: &DiskUsage,
    regex: &Option<String>,
    explicit_only: bool,
) -> (r: Result<Vec<Package>, ListError>)
    requires
        forall|i: int| 0 <= i < records@.len() ==> (#[trigger] records@[i]).wf(),
    ensures
        inventory_error(records@, registry_of(registry_index), *disk) matches Some(e)
            ==> r == Err::<Vec<Package>, ListError>(e),
        inventory_error(records@, registry_of(registry_index), *disk) is None ==> (r == Err::<Vec<Package>, ListError>(ListError::InvalidRegex) <==> pattern_rejected(pattern_of(*regex))),
        inventory_error(records@, registry_of(registry_index), *disk) is None ==> (r == Err::<Vec<Package>, ListError>(ListError::NoPackages) <==> !pattern_rejected(pattern_of(*regex))
            && forall|i: int| 0 <= i < records@.len() ==> !passes(pattern_of(*regex), explicit_only,
                (#[trigger] records@[i]).name_spec(), contains_name(project_dependency_names@, records@[i].name_spec()))),
        inventory_error(records@, registry_of(registry_index), *disk) is None && r is Err
            ==> r == Err::<Vec<Package>, ListError>(ListError::InvalidRegex)
            || r == Err::<Vec<Package>, ListError>(ListError::NoPackages),
        r matches Ok(v) ==> exists|inventory: Seq<Package>| inventory_of(inventory, records@, project_dependency_names@,
            registry_of(registry_index), *disk) && v@ == kept(pattern_of(*regex), explicit_only, inventory),
        r matches Ok(v) ==> forall|k: int| 0 <= k < v@.len() ==> (#[trigger] v@[k]).wf()
            && keep(pattern_of(*regex), explicit_only, v@[k]),
{
    broadcast use vstd::seq_lib::group_filter_ensures;

    let inventory = match build_inventory(records, project_dependency_names, registry_index, disk) {
        Ok(v) => v,
        Err(e) => {
            return Err(e);
        },
    };
    let ghost inv = inventory@;
    let ghost f = |p: Package| keep(pattern_of(*regex), explicit_only, p);
    proof {
        lemma_kept_empty(pattern_of(*regex), explicit_only, inv);
        let pat = pattern_of(*regex);
        let names = project_dependency_names@;
        assert forall|i: int| 0 <= i < inv.len() implies keep(pat, explicit_only, #[trigger] inv[i]) == passes(pat, explicit_only,
            records@[i].name_spec(), contains_name(names, records@[i].name_spec())) by {}
        if forall|i: int| 0 <= i < records@.len() ==> !passes(pat, explicit_only,
            (#[trigger] records@[i]).name_spec(), contains_name(names, records@[i].name_spec())) {
            assert forall|i: int| 0 <= i < inv.len() implies !keep(pat, explicit_only, #[trigger] inv[i]) by {
                assert(!passes(pat, explicit_only, records@[i].name_spec(), contains_name(names, records@[i].name_spec())));
            }
        }
        if forall|i: int| 0 <= i < inv.len() ==> !keep(pat, explicit_only, #[trigger] inv[i]) {
            assert forall|i: int| 0 <= i < records@.len() implies !passes(pat, explicit_only,
                (#[trigger] records@[i]).name_spec(), contains_name(names, records@[i].name_spec())) by {
                assert(!keep(pat, explicit_only, inv[i]));
            }
        }
        lemma_filter_all(inv, f, |p: Package| p.wf());
    }
    filter_packages(inventory, regex, explicit_only)
}

/// Filtering an inventory with `explicit_only` and no pattern keeps exactly the
/// packages whose name is among the declared dependency names, each of them
/// explicit.
pub proof fn lemma_explicit_only(
    inventory: Seq<Package>,
    records: Seq<PackageExt>,
    names: Seq<String>,
    registry: Option<RegistryWheelIndex>,
    disk: DiskUsage,
)
    requires
        inventory_of(inventory, records, names, registry, disk),
    ensures
        kept(None, true, inventory) == inventory.filter(|p: Package| contains_name(names, p.name@)),
        forall|k: int| 0 <= k < kept(None, true, inventory).len()
            ==> (#[trigger] kept(None, true, inventory)[k]).is_explicit,
{
    broadcast use vstd::seq_lib::group_filter_ensures;

    let f = |p: Package| keep(None, true, p);
    let g = |p: Package| contains_name(names, p.name@);
    assert forall|i: int| 0 <= i < inventory.len() implies f(#[trigger] inventory[i]) == g(inventory[i]) by {
        assert(normalizes(inventory[i], records[i], names, registry, disk));
    }
    lemma_filter_same(inventory, f, g);
}

/// Two predicates that agree on every element of a sequence keep the same
/// elements.
proof fn lemma_filter_same(s: Seq<Package>, f: spec_fn(Package) -> bool, g: spec_fn(Package) -> bool)
    requires
        forall|i: int| 0 <= i < s.len() ==> f(#[trigger] s[i]) == g(s[i]),
    ensures
        s.filter(f) == s.filter(g),
    decreases s.len(),
{
    reveal(Seq::filter);
    if s.len() > 0 {
        let t = s.drop_last();
        assert forall|i: int| 0 <= i < t.len() implies f(#[trigger] t[i]) == g(t[i]) by {
            assert(t[i] == s[i]);
        }
        lemma_filter_same(t, f, g);
        assert(f(s.last()) == g(s[s.len() - 1]));
    }
}

} // verus!
