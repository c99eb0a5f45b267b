use vstd::prelude::*;
use crate::{PointerPaths, Version};

verus! {

/// Chain leading to the submenu-open counter.
pub open spec fn spec_submenus_path(v: Version) -> Seq<u64> {
    match v {
        Version::Unsupported => Seq::empty(),
        Version::V08SR14424 => seq![0x1466B60u64, 0x98, 0x10, 0x4C],
        Version::V07SR13648 => seq![0x1448D40u64, 0x98, 0x10, 0x4C],
    }
}

/// Chain leading to the current-section frame counter.
pub open spec fn spec_section_frames_path(v: Version) -> Seq<u64> {
    match v {
        Version::Unsupported => Seq::empty(),
        Version::V08SR14424 => seq![0x1466B60u64, 0x98, 0x10, 0x50],
        Version::V07SR13648 => seq![0x1448D40u64, 0x98, 0x10, 0x50],
    }
}

/// Chain leading to the accumulated-frames counter of normal play.
pub open spec fn spec_accum_path(v: Version) -> Seq<u64> {
    match v {
        Version::Unsupported => Seq::empty(),
        Version::V08SR14424 => seq![0x1466B60u64, 0x98, 0x10, 0x54],
        Version::V07SR13648 => seq![0x1448D40u64, 0x98, 0x10, 0x54],
    }
}

/// Chain leading to the accumulated-frames counter of survival mode.
pub open spec fn spec_accum_survival_path(v: Version) -> Seq<u64> {
    match v {
        Version::Unsupported => Seq::empty(),
        Version::V08SR14424 => seq![0x1466B60u64, 0x98, 0x10, 0x58],
        Version::V07SR13648 => seq![0x1448D40u64, 0x98, 0x10, 0x58],
    }
}

/// Chain leading to the current level name.
pub open spec fn spec_level_path(v: Version) -> Seq<u64> {
    match v {
        Version::Unsupported => Seq::empty(),
        Version::V08SR14424 => seq![0x1466B60u64, 0x98, 0x30, 0x14],
        Version::V07SR13648 => seq![0x1448D40u64, 0x98, 0x30, 0x14],
    }
}

/// Chain leading to the current music name.
pub open spec fn spec_music_path(v: Version) -> Seq<u64> {
    match v {
        Version::Unsupported => Seq::empty(),
        Version::V08SR14424 => seq![0x1466B60u64, 0x98, 0x38, 0x14],
        Version::V07SR13648 => seq![0x1448D40u64, 0x98, 0x38, 0x14],
    }
}

/// The paths are exactly those of the version's table; the unsupported
/// profile carries only empty chains, so every later read fails closed.
pub open spec fn paths_selected(p: PointerPaths, v: Version) -> bool {
    &&& p.submenus_open@ == spec_submenus_path(v)
    &&& p.current_section_frames@ == spec_section_frames_path(v)
    &&& p.accum_frames@ == spec_accum_path(v)
    &&& p.accum_frames_survival@ == spec_accum_survival_path(v)
    &&& p.current_lvl@ == spec_level_path(v)
    &&& p.current_music@ == spec_music_path(v)
}

fn chain4(a: u64, b: u64, c: u64, d: u64) -> (r: Vec<u64>)
    ensures
        r@ == seq![a, b, c, d],
{
    let mut v: Vec<u64> = Vec::new();
    v.push(a);
    v.push(b);
    v.push(c);
    v.push(d);
    proof {
        assert(v@ =~= seq![a, b, c, d]);
    }
    v
}

/// The pointer-chain table of one version.
pub fn get_pointer_paths(version: Version) -> (r: PointerPaths)
    ensures
        paths_selected(r, version),
{
    match version {
        Version::Unsupported => PointerPaths::empty(),
        Version::V08SR14424 => PointerPaths {
            submenus_open: chain4(0x1466B60, 0x98, 0x10, 0x4C),
            current_section_frames: chain4(0x1466B60, 0x98, 0x10, 0x50),
            accum_frames: chain4(0x1466B60, 0x98, 0x10, 0x54),
            accum_frames_survival: chain4(0x1466B60, 0x98, 0x10, 0x58),
            current_lvl: chain4(0x1466B60, 0x98, 0x30, 0x14),
            current_music: chain4(0x1466B60, 0x98, 0x38, 0x14),
        },
        Version::V07SR13648 => PointerPaths {
            submenus_open: chain4(0x1448D40, 0x98, 0x10, 0x4C),
            current_section_frames: chain4(0x1448D40, 0x98, 0x10, 0x50),
            accum_frames: chain4(0x1448D40, 0x98, 0x10, 0x54),
            accum_frames_survival: chain4(0x1448D40, 0x98, 0x10, 0x58),
            current_lvl: chain4(0x1448D40, 0x98, 0x30, 0x14),
            current_music: chain4(0x1448D40, 0x98, 0x38, 0x14),
        },
    }
}

} // verus!
