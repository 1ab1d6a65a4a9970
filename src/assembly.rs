use vstd::prelude::*;
use vstd::string::StringExecFns;
use vstd::string::StringSliceAdditionalSpecFns;
use crate::BuildpackError;

verus! {

broadcast use vstd::string::is_ascii_spec_bytes;

/// A character allowed in a process type name: an ASCII letter or digit, `.`, `_` or `-`.
pub open spec fn valid_type_char(c: char) -> bool {
    ('a' <= c && c <= 'z') || ('A' <= c && c <= 'Z') || ('0' <= c && c <= '9') || c == '.'
        || c == '_' || c == '-'
}

/// A valid process type name: one or more allowed characters.
pub open spec fn valid_process_type(s: Seq<char>) -> bool {
    s.len() > 0 && forall|i: int| 0 <= i < s.len() ==> valid_type_char(#[trigger] s[i])
}

/// One entry of the launch descriptor.
pub struct Process {
    pub kind: String,
    pub command: String,
    pub args: Vec<String>,
}

/// The process entry that launches a binary target: its name is both the
/// process type and the command, with no arguments.
pub open spec fn launches(p: Process, name: Seq<char>) -> bool {
    p.kind@ == name && p.command@ == name && p.args@.len() == 0
}

/// The entries of the application directory that assembly removes.
pub open spec fn pruned_entries() -> Set<Seq<char>> {
    set!["src"@, "Cargo.toml"@, "Cargo.lock"@]
}

/// The application directory's top-level entries after assembly: the pruned
/// entries are gone and one binary per target has been copied in.
pub open spec fn assembled_entries(before: Set<Seq<char>>, targets: Seq<Seq<char>>) -> Set<
    Seq<char>,
> {
    before.difference(pruned_entries()).union(targets.to_set())
}

/// Whether `name` is a valid process type name.
pub fn is_valid_process_type(name: &str) -> (r: bool)
    ensures
        r == valid_process_type(name@),
{
    if !name.is_ascii() {
        assert(!valid_process_type(name@)) by {
            let i = choose|i: int| 0 <= i < name@.len() && !('\0' <= #[trigger] name@[i] <= '\u{7f}');
            assert(!valid_type_char(name@[i]));
        }
        return false;
    }
    let bytes = name.as_bytes();
    if bytes.len() == 0 {
        return false;
    }
    let mut i: usize = 0;
    while i < bytes.len()
        invariant
            bytes@ == name.spec_bytes(),
            vstd::string::is_ascii(name),
            bytes@.len() == name@.len(),
            i <= bytes@.len(),
            forall|j: int| 0 <= j < i ==> valid_type_char(#[trigger] name@[j]),
        decreases bytes@.len() - i,
    {
        let b = bytes[i];
        assert(b == name@[i as int] as u8);
        let ok = (b >= 97 && b <= 122) || (b >= 65 && b <= 90) || (b >= 48 && b <= 57) || b == 46
            || b == 95 || b == 45;
        if !ok {
            assert(!valid_type_char(name@[i as int]));
            return false;
        }
        assert(valid_type_char(name@[i as int]));
        i = i + 1;
    }
    true
}

/// The launch descriptor: one entry per binary target, in order; any target
/// whose name is not a valid process type fails the whole build.
pub fn launch_descriptor(targets: &Vec<String>) -> (r: Result<Vec<Process>, BuildpackError>)
    ensures
        r.is_ok() <==> forall|i: int| 0 <= i < targets@.len() ==> valid_process_type(
            #[trigger] targets@[i]@,
        ),
        r.is_err() ==> r == Err::<Vec<Process>, BuildpackError>(BuildpackError::InvalidProcessType),
        r.is_ok() ==> r.unwrap()@.len() == targets@.len() && forall|i: int|
            0 <= i < targets@.len() ==> launches(#[trigger] r.unwrap()@[i], targets@[i]@),
{
    let mut out: Vec<Process> = Vec::new();
    let mut i: usize = 0;
    while i < targets.len()
        invariant
            i <= targets@.len(),
            out@.len() == i,
            forall|j: int| 0 <= j < i ==> valid_process_type(#[trigger] targets@[j]@),
            forall|j: int| 0 <= j < i ==> launches(#[trigger] out@[j], targets@[j]@),
        decreases targets@.len() - i,
    {
        let t = &targets[i];
        if !is_valid_process_type(t.as_str()) {
            return Err(BuildpackError::InvalidProcessType);
        }
        let p = Process { kind: t.clone(), command: t.clone(), args: Vec::new() };
        out.push(p);
        i = i + 1;
    }
    Ok(out)
}

/// The top-level entries of the application directory that assembly removes.
pub fn prune_entries() -> (r: Vec<String>)
    ensures
        r@.len() == 3,
        r@[0]@ == "src"@,
        r@[1]@ == "Cargo.toml"@,
        r@[2]@ == "Cargo.lock"@,
{
    let mut v: Vec<String> = Vec::new();
    v.push(String::from_str("src"));
    v.push(String::from_str("Cargo.toml"));
    v.push(String::from_str("Cargo.lock"));
    v
}

/// Where a target's compiled binary lies inside the build output layer.
pub fn artifact_path(target: &str) -> (r: String)
    ensures
        r@ == "release/"@ + target@,
{
    let mut s = String::from_str("release/");
    s.append(target);
    s
}

/// After assembly of a directory that held only the manifest, the lock file
/// and sources, the directory holds exactly one entry per target, and none of
/// the pruned entries.
pub proof fn lemma_assembly_prunes_totally(before: Set<Seq<char>>, targets: Seq<Seq<char>>)
    requires
        before.subset_of(pruned_entries()),
        forall|i: int| 0 <= i < targets.len() ==> !pruned_entries().contains(#[trigger] targets[i]),
    ensures
        assembled_entries(before, targets) == targets.to_set(),
        assembled_entries(before, targets).disjoint(pruned_entries()),
{
    assert(before.difference(pruned_entries()) =~= Set::empty());
    assert(assembled_entries(before, targets) =~= targets.to_set());
    assert forall|n: Seq<char>| #[trigger] targets.to_set().contains(n) implies !pruned_entries().contains(n) by {
        let i = choose|i: int| 0 <= i < targets.len() && targets[i] == n;
    }
}

/// The process types of a successful descriptor are, as a set, exactly the
/// resolved target names.
pub proof fn lemma_descriptor_complete(targets: Seq<Seq<char>>, procs: Seq<Process>)
    requires
        procs.len() == targets.len(),
        forall|i: int| 0 <= i < targets.len() ==> launches(#[trigger] procs[i], targets[i]),
    ensures
        procs.map_values(|p: Process| p.kind@).to_set() == targets.to_set(),
{
    let kinds = procs.map_values(|p: Process| p.kind@);
    assert(kinds =~= targets) by {
        assert forall|i: int| 0 <= i < targets.len() implies kinds[i] == targets[i] by {
            assert(launches(procs[i], targets[i]));
        }
    }
}

} // verus!
