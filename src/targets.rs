use vstd::prelude::*;

verus! {

/// The kind of a build target as the manifest classifies it.
#[derive(Debug, Clone, Copy, PartialEq, Eq, Structural)]
pub enum TargetKind {
    Bin,
    Lib,
    Test,
    Example,
    Bench,
    Other,
}

/// One target of a package, with its name and kinds.
pub struct ManifestTarget {
    pub name: String,
    pub kinds: Vec<TargetKind>,
}

/// A package and the targets it declares, in declaration order.
pub struct Package {
    pub targets: Vec<ManifestTarget>,
}

/// What the metadata query reports; only the root package is considered.
pub struct Metadata {
    pub root_package: Option<Package>,
}

pub open spec fn spec_is_bin(t: ManifestTarget) -> bool {
    t.kinds@.contains(TargetKind::Bin)
}

/// The names of the binary targets among `ts`, in declaration order.
pub open spec fn bin_names(ts: Seq<ManifestTarget>) -> Seq<Seq<char>>
    decreases ts.len(),
{
    if ts.len() == 0 {
        seq![]
    } else {
        let rest = bin_names(ts.drop_last());
        if spec_is_bin(ts.last()) {
            rest.push(ts.last().name@)
        } else {
            rest
        }
    }
}

/// The names of the binary targets that the metadata reports.
pub open spec fn resolved_names(m: Metadata) -> Seq<Seq<char>> {
    match m.root_package {
        Some(p) => bin_names(p.targets@),
        None => seq![],
    }
}

pub open spec fn names_of(v: Seq<String>) -> Seq<Seq<char>> {
    v.map_values(|s: String| s@)
}

/// Whether a target is a binary target.
pub fn is_bin(t: &ManifestTarget) -> (r: bool)
    ensures
        r == spec_is_bin(*t),
{
    let mut i: usize = 0;
    while i < t.kinds.len()
        invariant
            i <= t.kinds@.len(),
            forall|j: int| 0 <= j < i ==> t.kinds@[j] != TargetKind::Bin,
        decreases t.kinds@.len() - i,
    {
        if t.kinds[i] == TargetKind::Bin {
            assert(t.kinds@[i as int] == TargetKind::Bin);
            return true;
        }
        i = i + 1;
    }
    false
}

/// The names of the root package's binary targets, in declaration order.
pub fn binary_targets(metadata: &Metadata) -> (r: Vec<String>)
    ensures
        names_of(r@) == resolved_names(*metadata),
{
    match &metadata.root_package {
        None => {
            let r: Vec<String> = Vec::new();
            assert(names_of(r@) =~= seq![]);
            r
        },
        Some(p) => {
            let mut r: Vec<String> = Vec::new();
            let mut i: usize = 0;
            assert(names_of(r@) =~= bin_names(p.targets@.subrange(0, 0)));
            while i < p.targets.len()
                invariant
                    i <= p.targets@.len(),
                    names_of(r@) == bin_names(p.targets@.subrange(0, i as int)),
                decreases p.targets@.len() - i,
            {
                let t = &p.targets[i];
                let ghost pre = p.targets@.subrange(0, i as int);
                let ghost next = p.targets@.subrange(0, i + 1);
                assert(next.drop_last() =~= pre);
                if is_bin(t) {
                    r.push(t.name.clone());
                    assert(names_of(r@) =~= bin_names(next));
                } else {
                    assert(names_of(r@) =~= bin_names(next));
                }
                i = i + 1;
            }
            assert(p.targets@.subrange(0, p.targets@.len() as int) =~= p.targets@);
            r
        },
    }
}

/// A name is resolved exactly when some declared target of that name is a
/// binary target: targets of other kinds never contribute, and the set of
/// names does not depend on the order of declaration.
pub proof fn lemma_bin_names_exact(ts: Seq<ManifestTarget>, n: Seq<char>)
    ensures
        bin_names(ts).contains(n) <==> exists|j: int|
            0 <= j < ts.len() && spec_is_bin(#[trigger] ts[j]) && ts[j].name@ == n,
    decreases ts.len(),
{
    if ts.len() > 0 {
        let init = ts.drop_last();
        lemma_bin_names_exact(init, n);
        if bin_names(ts).contains(n) {
            if !bin_names(init).contains(n) {
                let j = ts.len() - 1;
                assert(spec_is_bin(ts[j]) && ts[j].name@ == n);
            } else {
                let j = choose|j: int|
                    0 <= j < init.len() && spec_is_bin(#[trigger] init[j]) && init[j].name@ == n;
                assert(ts[j] == init[j]);
            }
        }
        if exists|j: int| 0 <= j < ts.len() && spec_is_bin(#[trigger] ts[j]) && ts[j].name@ == n {
            let j = choose|j: int|
                0 <= j < ts.len() && spec_is_bin(#[trigger] ts[j]) && ts[j].name@ == n;
            if j == ts.len() - 1 {
                assert(bin_names(ts) == bin_names(init).push(n));
                assert(bin_names(ts)[bin_names(ts).len() - 1] == n);
            } else {
                assert(init[j] == ts[j]);
                let k = choose|k: int| 0 <= k < bin_names(init).len() && bin_names(init)[k] == n;
                if spec_is_bin(ts.last()) {
                    assert(bin_names(ts)[k] == n);
                }
            }
        }
    }
}

} // verus!
