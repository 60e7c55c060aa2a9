use vstd::prelude::*;
use crate::startup::StartupError;

verus! {

/// A platform for which a build of the helper program is bundled.
#[derive(Clone, Copy, Debug, PartialEq, Eq, Structural)]
pub enum Target {
    LinuxX86_64,
    LinuxAarch64,
    MacosX86_64,
    MacosAarch64,
    WindowsX86_64,
}

/// The platforms that the application ships for, one bundled helper each.
pub open spec fn supported_spec() -> Seq<Target> {
    seq![
        Target::LinuxX86_64,
        Target::LinuxAarch64,
        Target::MacosX86_64,
        Target::MacosAarch64,
        Target::WindowsX86_64,
    ]
}

/// The platforms that the application ships for.
pub fn supported_targets() -> (r: Vec<Target>)
    ensures
        r@ == supported_spec(),
{
    let r = vec![
        Target::LinuxX86_64,
        Target::LinuxAarch64,
        Target::MacosX86_64,
        Target::MacosAarch64,
        Target::WindowsX86_64,
    ];
    assert(r@ =~= supported_spec());
    r
}

/// Whether the entry at `i` of `bundled` is a build for `t`.
pub open spec fn matches_at(bundled: Seq<Target>, i: int, t: Target) -> bool {
    0 <= i < bundled.len() && bundled[i] == t
}

/// Identifies the helper program by its logical name; which of its bundled
/// builds runs is chosen per platform by `resolve`.
pub struct HelperDescriptor {
    pub name: String,
}

impl HelperDescriptor {
    pub fn new(name: String) -> (r: HelperDescriptor)
        ensures
            r.name@ == name@,
    {
        HelperDescriptor { name }
    }

    /// Picks the bundled build for `target`: the index of the first entry of
    /// `bundled` that is a build for it, or a resolution error where none is.
    pub fn resolve(&self, bundled: &Vec<Target>, target: Target) -> (r: Result<usize, StartupError>)
        ensures
            r is Ok <==> exists|i: int| matches_at(bundled@, i, target),
            r matches Ok(i) ==> matches_at(bundled@, i as int, target) && forall|j: int|
                0 <= j < i ==> !matches_at(bundled@, j, target),
            r matches Err(e) ==> e == StartupError::Resolution,
    {
        let mut i: usize = 0;
        while i < bundled.len()
            invariant
                i <= bundled@.len(),
                forall|j: int| 0 <= j < i ==> !matches_at(bundled@, j, target),
            decreases bundled@.len() - i,
        {
            if bundled[i] == target {
                assert(matches_at(bundled@, i as int, target));
                return Ok(i);
            }
            i = i + 1;
        }
        Err(StartupError::Resolution)
    }
}

/// Every supported platform has exactly one build among the bundled ones:
/// a build for it is there, and no two entries are builds for it.
pub proof fn lemma_one_build_per_target(t: Target)
    ensures
        exists|i: int| matches_at(supported_spec(), i, t),
        forall|i: int, j: int|
            matches_at(supported_spec(), i, t) && matches_at(supported_spec(), j, t) ==> i == j,
{
    let s = supported_spec();
    let i: int = match t {
        Target::LinuxX86_64 => 0,
        Target::LinuxAarch64 => 1,
        Target::MacosX86_64 => 2,
        Target::MacosAarch64 => 3,
        Target::WindowsX86_64 => 4,
    };
    assert(matches_at(s, i, t));
}

} // verus!
