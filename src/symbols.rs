use vstd::prelude::*;

verus! {

/// What the symbol walk reported for one frame at an address: the source
/// file the symbol came from and its (demangled) name, each when known.
pub struct SymbolRecord {
    pub filename: Option<String>,
    pub name: Option<String>,
}

/// Source files under this directory belong to system libraries; their
/// frames are left out of the call graph.
pub const SYSTEM_PREFIX: &'static str = "/usr";

/// Whether the components of `path` begin with those of `prefix`, as
/// `std::path::Path::starts_with` compares them.
pub uninterp spec fn path_has_prefix(path: Seq<char>, prefix: Seq<char>) -> bool;

/// Whether a source path lies under the system library prefix.
pub open spec fn under_system_prefix(path: Seq<char>) -> bool {
    path_has_prefix(path, SYSTEM_PREFIX@)
}

/// Relies on `std::path::Path::starts_with`: whether the path's components
/// begin with those of the prefix.
#[verifier::external_body]
fn path_starts_with(path: &str, prefix: &str) -> (r: bool)
    ensures
        r == path_has_prefix(path@, prefix@),
{
    std::path::Path::new(path).starts_with(prefix)
}

/// The view of an optional name.
pub open spec fn name_view(n: Option<String>) -> Option<Seq<char>> {
    match n {
        Some(s) => Some(s@),
        None => None,
    }
}

/// A frame counts when it has a name and does not come from a system file.
pub open spec fn frame_kept(f: SymbolRecord) -> bool {
    &&& f.name is Some
    &&& !(f.filename is Some && under_system_prefix(f.filename->Some_0@))
}

/// The name an address resolves to: that of the last frame reported that
/// counts, or none if no frame counts.
pub open spec fn walk_name(frames: Seq<SymbolRecord>) -> Option<Seq<char>>
    decreases frames.len(),
{
    if frames.len() == 0 {
        None
    } else if frame_kept(frames.last()) {
        name_view(frames.last().name)
    } else {
        walk_name(frames.drop_last())
    }
}

/// The address handed to the symbol walk for a call-target address. The walk
/// takes its inputs for return addresses and looks one byte back, so one is
/// added; the sum wraps at the top of the address space, as pointer
/// arithmetic on the address does.
pub fn lookup_address(pc: usize) -> (r: usize)
    ensures
        pc < usize::MAX ==> r == pc + 1,
        pc == usize::MAX ==> r == 0,
{
    if pc == usize::MAX {
        0
    } else {
        pc + 1
    }
}

/// Whether a frame counts.
pub fn keeps_frame(f: &SymbolRecord) -> (r: bool)
    ensures
        r == frame_kept(*f),
{
    match (&f.filename, &f.name) {
        (_, None) => false,
        (Some(file), Some(_)) => !path_starts_with(file.as_str(), SYSTEM_PREFIX),
        (None, Some(_)) => true,
    }
}

/// Folds the frames that the symbol walk reported for one address into the
/// name the address resolves to.
pub fn name_from_frames(frames: &Vec<SymbolRecord>) -> (r: Option<String>)
    ensures
        name_view(r) == walk_name(frames@),
{
    let mut result: Option<String> = None;
    let mut i: usize = 0;
    while i < frames.len()
        invariant
            i <= frames@.len(),
            name_view(result) == walk_name(frames@.take(i as int)),
        decreases frames@.len() - i,
    {
        assert(frames@.take(i as int + 1).drop_last() =~= frames@.take(i as int));
        if keeps_frame(&frames[i]) {
            let n = frames[i].name.as_ref().unwrap().clone();
            result = Some(n);
        }
        i = i + 1;
    }
    assert(frames@.take(frames@.len() as int) =~= frames@);
    result
}

/// No system frame is ever the source of a resolved name: whatever name an
/// address resolves to is that of a frame that counts, and frames that all
/// come from system files (or carry no name) resolve to no name.
pub proof fn lemma_resolved_name_not_system(frames: Seq<SymbolRecord>)
    ensures
        walk_name(frames) is Some ==> exists|i: int|
            0 <= i < frames.len() && frame_kept(#[trigger] frames[i]) && name_view(frames[i].name)
                == walk_name(frames),
        (forall|i: int| 0 <= i < frames.len() ==> !frame_kept(#[trigger] frames[i])) ==> walk_name(
            frames,
        ) is None,
    decreases frames.len(),
{
    if frames.len() > 0 {
        let rest = frames.drop_last();
        lemma_resolved_name_not_system(rest);
        if !frame_kept(frames.last()) {
            if walk_name(frames) is Some {
                let i = choose|i: int|
                    0 <= i < rest.len() && frame_kept(#[trigger] rest[i]) && name_view(rest[i].name)
                        == walk_name(rest);
                assert(frames[i] == rest[i]);
            }
            if forall|i: int| 0 <= i < frames.len() ==> !frame_kept(#[trigger] frames[i]) {
                assert forall|i: int| 0 <= i < rest.len() implies !frame_kept(#[trigger] rest[i]) by {
                    assert(rest[i] == frames[i]);
                }
            }
        } else {
            assert(frame_kept(frames[frames.len() - 1]));
        }
    }
}

} // verus!
