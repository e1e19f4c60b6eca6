//! Frame-indexed move tables.
//!
//! A move is an ordered, fixed-length sequence of per-frame snapshots, each
//! held for a number of simulation ticks.  The tables are pure data, one
//! per move category, and every numeric field is an exact integer so that
//! re-simulation is bit-identical across machines.  The single `move_data`
//! walk is the canonical per-frame dereference shared by every category.

use vstd::prelude::*;
use crate::cbox::CBox;

verus! {

/// One per-frame snapshot: propulsion speed, resource gain, base collision
/// interval, optional attack interval and an up-to-two hurtbox pair.
#[derive(Clone, Copy, PartialEq, Eq, Debug)]
pub struct FrameData {
    pub speed: i16,
    pub meter: u16,
    pub collision: CBox,
    pub hitbox: Option<CBox>,
    pub hurtbox: (Option<CBox>, Option<CBox>),
}

/// The neutral snapshot every table entry starts from.
pub open spec fn frame_default() -> FrameData {
    FrameData {
        speed: 0,
        meter: 0,
        collision: CBox { x: 125 },
        hitbox: None,
        hurtbox: (Some(CBox { x: 158 }), None),
    }
}

/// The forward-walk snapshot: slow advance with a trickle of meter.
pub open spec fn frame_fwalk() -> FrameData {
    FrameData { speed: 6, meter: 3, ..frame_default() }
}

/// The backward-walk snapshot: a slightly slower retreat, no meter.
pub open spec fn frame_bwalk() -> FrameData {
    FrameData { speed: (-5) as i16, ..frame_default() }
}

impl FrameData {
    /// The neutral snapshot as a value.
    pub fn default() -> (r: FrameData)
        ensures
            r == frame_default(),
    {
        FrameData {
            speed: 0,
            meter: 0,
            collision: CBox::collision(),
            hitbox: None,
            hurtbox: (Some(CBox::base_hurtbox()), None),
        }
    }

    /// The forward-walk snapshot as a value.
    pub fn fwalk() -> (r: FrameData)
        ensures
            r == frame_fwalk(),
    {
        FrameData { speed: 6, meter: 3, ..FrameData::default() }
    }

    /// The backward-walk snapshot as a value.
    pub fn bwalk() -> (r: FrameData)
        ensures
            r == frame_bwalk(),
    {
        FrameData { speed: -5, ..FrameData::default() }
    }
}

/// One table entry: a snapshot, the opaque animation label the renderer
/// maps to visual playback, and how many ticks the snapshot holds.
#[derive(Clone, Copy, Debug)]
pub struct MoveData {
    pub data: FrameData,
    pub animation_frame: &'static str,
    pub duration: u8,
}

/// Mathematical image of a table entry: the animation label as its
/// character sequence, everything else as the plain entry fields.
#[verifier::ext_equal]
pub struct MoveDataV {
    pub data: FrameData,
    pub anim: Seq<char>,
    pub duration: u8,
}

impl View for MoveData {
    type V = MoveDataV;

    open spec fn view(&self) -> MoveDataV {
        MoveDataV { data: self.data, anim: self.animation_frame@, duration: self.duration }
    }
}

/// Image of a whole table.
pub open spec fn table_view(s: Seq<MoveData>) -> Seq<MoveDataV> {
    s.map_values(|m: MoveData| m@)
}

/// Sum of the entry durations from index `i` on.
pub open spec fn total_from(t: Seq<MoveDataV>, i: int) -> int
    decreases t.len() - i,
{
    if i < 0 || i >= t.len() {
        0
    } else {
        t[i].duration + total_from(t, i + 1)
    }
}

/// Total duration of a table: the number of frame indices it defines.
pub open spec fn table_total(t: Seq<MoveDataV>) -> int {
    total_from(t, 0)
}

/// The entry holding at the given frame, walking from index `i` with the
/// frame counter already reduced by the durations before `i`.
pub open spec fn lookup_from(t: Seq<MoveDataV>, i: int, frame: int) -> Option<MoveDataV>
    decreases t.len() - i,
{
    if i < 0 || i >= t.len() {
        None
    } else if frame < t[i].duration {
        Some(t[i])
    } else {
        lookup_from(t, i + 1, frame - t[i].duration)
    }
}

/// The entry a table defines for a frame index, or `None` once the
/// cumulative duration is exhausted.
pub open spec fn table_lookup(t: Seq<MoveDataV>, frame: int) -> Option<MoveDataV> {
    lookup_from(t, 0, frame)
}

proof fn lemma_total_from_nonneg(t: Seq<MoveDataV>, i: int)
    ensures
        total_from(t, i) >= 0,
    decreases t.len() - i,
{
    if 0 <= i < t.len() {
        lemma_total_from_nonneg(t, i + 1);
    }
}

proof fn lemma_lookup_from_defined(t: Seq<MoveDataV>, i: int, frame: int)
    requires
        0 <= frame,
    ensures
        lookup_from(t, i, frame) is Some <==> frame < total_from(t, i),
    decreases t.len() - i,
{
    if 0 <= i < t.len() {
        if frame < t[i].duration {
            lemma_total_from_nonneg(t, i + 1);
        } else {
            lemma_lookup_from_defined(t, i + 1, frame - t[i].duration);
        }
    }
}

/// A table defines an entry for exactly the frame indices below its total
/// duration: the lookup is non-exhausted iff `frame < table_total`.
pub proof fn lemma_lookup_defined(t: Seq<MoveDataV>, frame: int)
    requires
        0 <= frame,
    ensures
        table_lookup(t, frame) is Some <==> frame < table_total(t),
{
    lemma_lookup_from_defined(t, 0, frame);
}

/// The idle table.
pub open spec fn idle_spec() -> Seq<MoveDataV> {
    seq![
        MoveDataV { data: frame_default(), anim: "idle_0"@, duration: 6 },
        MoveDataV { data: frame_default(), anim: "idle_1"@, duration: 3 },
        MoveDataV { data: frame_default(), anim: "idle_2"@, duration: 6 },
        MoveDataV { data: frame_default(), anim: "idle_3"@, duration: 6 },
        MoveDataV { data: frame_default(), anim: "idle_4"@, duration: 3 },
    ]
}

/// Build the idle table.
pub fn idle_table() -> (r: Vec<MoveData>)
    ensures
        table_view(r@) == idle_spec(),
{
    let mut v: Vec<MoveData> = Vec::new();
    v.push(MoveData { data: FrameData::default(), animation_frame: "idle_0", duration: 6 });
    v.push(MoveData { data: FrameData::default(), animation_frame: "idle_1", duration: 3 });
    v.push(MoveData { data: FrameData::default(), animation_frame: "idle_2", duration: 6 });
    v.push(MoveData { data: FrameData::default(), animation_frame: "idle_3", duration: 6 });
    v.push(MoveData { data: FrameData::default(), animation_frame: "idle_4", duration: 3 });
    proof {
        assert(table_view(v@) =~~= idle_spec());
    }
    v
}

/// The forward-walk table.
pub open spec fn fwalk_spec() -> Seq<MoveDataV> {
    seq![
        MoveDataV { data: frame_fwalk(), anim: "fwalk_0"@, duration: 4 },
        MoveDataV { data: frame_fwalk(), anim: "fwalk_1"@, duration: 4 },
        MoveDataV { data: frame_fwalk(), anim: "fwalk_2"@, duration: 4 },
        MoveDataV { data: frame_fwalk(), anim: "fwalk_3"@, duration: 4 },
        MoveDataV { data: frame_fwalk(), anim: "fwalk_4"@, duration: 4 },
        MoveDataV { data: frame_fwalk(), anim: "fwalk_5"@, duration: 4 },
    ]
}

/// Build the forward-walk table.
pub fn fwalk_table() -> (r: Vec<MoveData>)
    ensures
        table_view(r@) == fwalk_spec(),
{
    let mut v: Vec<MoveData> = Vec::new();
    v.push(MoveData { data: FrameData::fwalk(), animation_frame: "fwalk_0", duration: 4 });
    v.push(MoveData { data: FrameData::fwalk(), animation_frame: "fwalk_1", duration: 4 });
    v.push(MoveData { data: FrameData::fwalk(), animation_frame: "fwalk_2", duration: 4 });
    v.push(MoveData { data: FrameData::fwalk(), animation_frame: "fwalk_3", duration: 4 });
    v.push(MoveData { data: FrameData::fwalk(), animation_frame: "fwalk_4", duration: 4 });
    v.push(MoveData { data: FrameData::fwalk(), animation_frame: "fwalk_5", duration: 4 });
    proof {
        assert(table_view(v@) =~~= fwalk_spec());
    }
    v
}

/// The backward-walk table.
pub open spec fn bwalk_spec() -> Seq<MoveDataV> {
    seq![
        MoveDataV { data: frame_bwalk(), anim: "bwalk_0"@, duration: 4 },
        MoveDataV { data: frame_bwalk(), anim: "bwalk_1"@, duration: 4 },
        MoveDataV { data: frame_bwalk(), anim: "bwalk_2"@, duration: 4 },
        MoveDataV { data: frame_bwalk(), anim: "bwalk_3"@, duration: 4 },
        MoveDataV { data: frame_bwalk(), anim: "bwalk_4"@, duration: 4 },
        MoveDataV { data: frame_bwalk(), anim: "bwalk_5"@, duration: 4 },
    ]
}

/// Build the backward-walk table.
pub fn bwalk_table() -> (r: Vec<MoveData>)
    ensures
        table_view(r@) == bwalk_spec(),
{
    let mut v: Vec<MoveData> = Vec::new();
    v.push(MoveData { data: FrameData::bwalk(), animation_frame: "bwalk_0", duration: 4 });
    v.push(MoveData { data: FrameData::bwalk(), animation_frame: "bwalk_1", duration: 4 });
    v.push(MoveData { data: FrameData::bwalk(), animation_frame: "bwalk_2", duration: 4 });
    v.push(MoveData { data: FrameData::bwalk(), animation_frame: "bwalk_3", duration: 4 });
    v.push(MoveData { data: FrameData::bwalk(), animation_frame: "bwalk_4", duration: 4 });
    v.push(MoveData { data: FrameData::bwalk(), animation_frame: "bwalk_5", duration: 4 });
    proof {
        assert(table_view(v@) =~~= bwalk_spec());
    }
    v
}

/// The light normal attack table.
pub open spec fn nnormal_spec() -> Seq<MoveDataV> {
    seq![
        MoveDataV { data: frame_default(), anim: "nnormal_0"@, duration: 2 },
        MoveDataV { data: frame_default(), anim: "nnormal_1"@, duration: 3 },
        MoveDataV {
            data: FrameData {
                meter: 100,
                hitbox: Some(CBox { x: 299 }),
                hurtbox: (Some(CBox { x: 158 }), Some(CBox { x: 324 })),
                ..frame_default()
            },
            anim: "nnormal_2"@,
            duration: 1,
        },
        MoveDataV {
            data: FrameData {
                hitbox: Some(CBox { x: 299 }),
                hurtbox: (Some(CBox { x: 158 }), Some(CBox { x: 324 })),
                ..frame_default()
            },
            anim: "nnormal_2"@,
            duration: 1,
        },
        MoveDataV {
            data: FrameData {
                hurtbox: (Some(CBox { x: 158 }), Some(CBox { x: 324 })),
                ..frame_default()
            },
            anim: "nnormal_2"@,
            duration: 10,
        },
        MoveDataV {
            data: FrameData {
                hurtbox: (Some(CBox { x: 158 }), Some(CBox { x: 237 })),
                ..frame_default()
            },
            anim: "nnormal_3"@,
            duration: 4,
        },
        MoveDataV { data: frame_default(), anim: "nnormal_4"@, duration: 2 },
    ]
}

/// Build the light normal attack table.
pub fn nnormal_table() -> (r: Vec<MoveData>)
    ensures
        table_view(r@) == nnormal_spec(),
{
    let mut v: Vec<MoveData> = Vec::new();
    v.push(MoveData { data: FrameData::default(), animation_frame: "nnormal_0", duration: 2 });
    v.push(MoveData { data: FrameData::default(), animation_frame: "nnormal_1", duration: 3 });
    v.push(MoveData {
        data: FrameData {
            meter: 100,
            hitbox: CBox::nonzero(299),
            hurtbox: (Some(CBox::base_hurtbox()), CBox::nonzero(324)),
            ..FrameData::default()
        },
        animation_frame: "nnormal_2",
        duration: 1,
    });
    v.push(MoveData {
        data: FrameData {
            hitbox: CBox::nonzero(299),
            hurtbox: (Some(CBox::base_hurtbox()), CBox::nonzero(324)),
            ..FrameData::default()
        },
        animation_frame: "nnormal_2",
        duration: 1,
    });
    v.push(MoveData {
        data: FrameData {
            hurtbox: (Some(CBox::base_hurtbox()), CBox::nonzero(324)),
            ..FrameData::default()
        },
        animation_frame: "nnormal_2",
        duration: 10,
    });
    v.push(MoveData {
        data: FrameData {
            hurtbox: (Some(CBox::base_hurtbox()), CBox::nonzero(237)),
            ..FrameData::default()
        },
        animation_frame: "nnormal_3",
        duration: 4,
    });
    v.push(MoveData { data: FrameData::default(), animation_frame: "nnormal_4", duration: 2 });
    proof {
        assert(table_view(v@) =~~= nnormal_spec());
    }
    v
}

/// The heavy normal attack table.
pub open spec fn mnormal_spec() -> Seq<MoveDataV> {
    seq![
        MoveDataV { data: frame_default(), anim: "mnormal_0"@, duration: 2 },
        MoveDataV { data: frame_default(), anim: "mnormal_1"@, duration: 2 },
        MoveDataV {
            data: FrameData {
                meter: 90,
                hitbox: Some(CBox { x: 260 }),
                hurtbox: (Some(CBox { x: 158 }), Some(CBox { x: 260 })),
                ..frame_default()
            },
            anim: "mnormal_2"@,
            duration: 1,
        },
        MoveDataV {
            data: FrameData {
                hitbox: Some(CBox { x: 260 }),
                hurtbox: (Some(CBox { x: 158 }), Some(CBox { x: 260 })),
                ..frame_default()
            },
            anim: "mnormal_2"@,
            duration: 2,
        },
        MoveDataV {
            data: FrameData {
                hurtbox: (Some(CBox { x: 158 }), Some(CBox { x: 260 })),
                ..frame_default()
            },
            anim: "mnormal_2"@,
            duration: 9,
        },
        MoveDataV {
            data: FrameData {
                hurtbox: (Some(CBox { x: 158 }), Some(CBox { x: 222 })),
                ..frame_default()
            },
            anim: "mnormal_3"@,
            duration: 4,
        },
        MoveDataV { data: frame_default(), anim: "mnormal_4"@, duration: 2 },
    ]
}

/// Build the heavy normal attack table.
pub fn mnormal_table() -> (r: Vec<MoveData>)
    ensures
        table_view(r@) == mnormal_spec(),
{
    let mut v: Vec<MoveData> = Vec::new();
    v.push(MoveData { data: FrameData::default(), animation_frame: "mnormal_0", duration: 2 });
    v.push(MoveData { data: FrameData::default(), animation_frame: "mnormal_1", duration: 2 });
    v.push(MoveData {
        data: FrameData {
            meter: 90,
            hitbox: CBox::nonzero(260),
            hurtbox: (Some(CBox::base_hurtbox()), CBox::nonzero(260)),
            ..FrameData::default()
        },
        animation_frame: "mnormal_2",
        duration: 1,
    });
    v.push(MoveData {
        data: FrameData {
            hitbox: CBox::nonzero(260),
            hurtbox: (Some(CBox::base_hurtbox()), CBox::nonzero(260)),
            ..FrameData::default()
        },
        animation_frame: "mnormal_2",
        duration: 2,
    });
    v.push(MoveData {
        data: FrameData {
            hurtbox: (Some(CBox::base_hurtbox()), CBox::nonzero(260)),
            ..FrameData::default()
        },
        animation_frame: "mnormal_2",
        duration: 9,
    });
    v.push(MoveData {
        data: FrameData {
            hurtbox: (Some(CBox::base_hurtbox()), CBox::nonzero(222)),
            ..FrameData::default()
        },
        animation_frame: "mnormal_3",
        duration: 4,
    });
    v.push(MoveData { data: FrameData::default(), animation_frame: "mnormal_4", duration: 2 });
    proof {
        assert(table_view(v@) =~~= mnormal_spec());
    }
    v
}

/// The light special attack table.
pub open spec fn nspecial_spec() -> Seq<MoveDataV> {
    seq![
        MoveDataV {
            data: FrameData { speed: 10, ..frame_default() },
            anim: "nspecial_0"@,
            duration: 2,
        },
        MoveDataV {
            data: FrameData { speed: 32, ..frame_default() },
            anim: "nspecial_1"@,
            duration: 1,
        },
        MoveDataV {
            data: FrameData { speed: 55, ..frame_default() },
            anim: "nspecial_2"@,
            duration: 3,
        },
        MoveDataV {
            data: FrameData { speed: 21, ..frame_default() },
            anim: "nspecial_3"@,
            duration: 3,
        },
        MoveDataV {
            data: FrameData { speed: 8, ..frame_default() },
            anim: "nspecial_4"@,
            duration: 3,
        },
        MoveDataV {
            data: FrameData {
                speed: 4,
                hitbox: Some(CBox { x: 260 }),
                hurtbox: (Some(CBox { x: 158 }), Some(CBox { x: 280 })),
                ..frame_default()
            },
            anim: "nspecial_5"@,
            duration: 2,
        },
        MoveDataV {
            data: FrameData {
                speed: 4,
                hurtbox: (Some(CBox { x: 158 }), Some(CBox { x: 280 })),
                ..frame_default()
            },
            anim: "nspecial_5"@,
            duration: 2,
        },
        MoveDataV {
            data: FrameData {
                speed: 3,
                hurtbox: (Some(CBox { x: 158 }), Some(CBox { x: 280 })),
                ..frame_default()
            },
            anim: "nspecial_5"@,
            duration: 2,
        },
        MoveDataV {
            data: FrameData {
                hurtbox: (Some(CBox { x: 158 }), Some(CBox { x: 254 })),
                ..frame_default()
            },
            anim: "nspecial_5"@,
            duration: 7,
        },
        MoveDataV {
            data: FrameData {
                hurtbox: (Some(CBox { x: 158 }), Some(CBox { x: 240 })),
                ..frame_default()
            },
            anim: "nspecial_6"@,
            duration: 3,
        },
        MoveDataV { data: frame_default(), anim: "nspecial_6"@, duration: 12 },
        MoveDataV { data: frame_default(), anim: "nspecial_7"@, duration: 2 },
    ]
}

/// Build the light special attack table.
pub fn nspecial_table() -> (r: Vec<MoveData>)
    ensures
        table_view(r@) == nspecial_spec(),
{
    let mut v: Vec<MoveData> = Vec::new();
    v.push(MoveData {
        data: FrameData { speed: 10, ..FrameData::default() },
        animation_frame: "nspecial_0",
        duration: 2,
    });
    v.push(MoveData {
        data: FrameData { speed: 32, ..FrameData::default() },
        animation_frame: "nspecial_1",
        duration: 1,
    });
    v.push(MoveData {
        data: FrameData { speed: 55, ..FrameData::default() },
        animation_frame: "nspecial_2",
        duration: 3,
    });
    v.push(MoveData {
        data: FrameData { speed: 21, ..FrameData::default() },
        animation_frame: "nspecial_3",
        duration: 3,
    });
    v.push(MoveData {
        data: FrameData { speed: 8, ..FrameData::default() },
        animation_frame: "nspecial_4",
        duration: 3,
    });
    v.push(MoveData {
        data: FrameData {
            speed: 4,
            hitbox: CBox::nonzero(260),
            hurtbox: (Some(CBox::base_hurtbox()), CBox::nonzero(280)),
            ..FrameData::default()
        },
        animation_frame: "nspecial_5",
        duration: 2,
    });
    v.push(MoveData {
        data: FrameData {
            speed: 4,
            hurtbox: (Some(CBox::base_hurtbox()), CBox::nonzero(280)),
            ..FrameData::default()
        },
        animation_frame: "nspecial_5",
        duration: 2,
    });
    v.push(MoveData {
        data: FrameData {
            speed: 3,
            hurtbox: (Some(CBox::base_hurtbox()), CBox::nonzero(280)),
            ..FrameData::default()
        },
        animation_frame: "nspecial_5",
        duration: 2,
    });
    v.push(MoveData {
        data: FrameData {
            hurtbox: (Some(CBox::base_hurtbox()), CBox::nonzero(254)),
            ..FrameData::default()
        },
        animation_frame: "nspecial_5",
        duration: 7,
    });
    v.push(MoveData {
        data: FrameData {
            hurtbox: (Some(CBox::base_hurtbox()), CBox::nonzero(240)),
            ..FrameData::default()
        },
        animation_frame: "nspecial_6",
        duration: 3,
    });
    v.push(MoveData { data: FrameData::default(), animation_frame: "nspecial_6", duration: 12 });
    v.push(MoveData { data: FrameData::default(), animation_frame: "nspecial_7", duration: 2 });
    proof {
        assert(table_view(v@) =~~= nspecial_spec());
    }
    v
}

/// The heavy special attack table.
pub open spec fn mspecial_spec() -> Seq<MoveDataV> {
    seq![
        MoveDataV {
            data: FrameData { speed: 8, hurtbox: (None, None), ..frame_default() },
            anim: "mspecial_0"@,
            duration: 1,
        },
        MoveDataV {
            data: FrameData { speed: 8, hurtbox: (None, None), ..frame_default() },
            anim: "mspecial_1"@,
            duration: 1,
        },
        MoveDataV {
            data: FrameData {
                speed: 7,
                hitbox: Some(CBox { x: 190 }),
                hurtbox: (None, None),
                ..frame_default()
            },
            anim: "mspecial_2"@,
            duration: 1,
        },
        MoveDataV {
            data: FrameData {
                speed: 5,
                hitbox: Some(CBox { x: 190 }),
                hurtbox: (None, None),
                ..frame_default()
            },
            anim: "mspecial_2"@,
            duration: 3,
        },
        MoveDataV {
            data: FrameData {
                speed: 5,
                hitbox: Some(CBox { x: 190 }),
                hurtbox: (None, None),
                ..frame_default()
            },
            anim: "mspecial_3"@,
            duration: 2,
        },
        MoveDataV {
            data: FrameData { speed: 5, ..frame_default() },
            anim: "mspecial_3"@,
            duration: 3,
        },
        MoveDataV {
            data: FrameData { speed: 3, ..frame_default() },
            anim: "mspecial_3"@,
            duration: 5,
        },
        MoveDataV { data: frame_default(), anim: "mspecial_3"@, duration: 20 },
        MoveDataV { data: frame_default(), anim: "mspecial_4"@, duration: 10 },
        MoveDataV { data: frame_default(), anim: "mspecial_5"@, duration: 7 },
        MoveDataV { data: frame_default(), anim: "mspecial_6"@, duration: 2 },
    ]
}

/// Build the heavy special attack table.
pub fn mspecial_table() -> (r: Vec<MoveData>)
    ensures
        table_view(r@) == mspecial_spec(),
{
    let mut v: Vec<MoveData> = Vec::new();
    v.push(MoveData {
        data: FrameData { speed: 8, hurtbox: (None, None), ..FrameData::default() },
        animation_frame: "mspecial_0",
        duration: 1,
    });
    v.push(MoveData {
        data: FrameData { speed: 8, hurtbox: (None, None), ..FrameData::default() },
        animation_frame: "mspecial_1",
        duration: 1,
    });
    v.push(MoveData {
        data: FrameData {
            speed: 7,
            hitbox: CBox::nonzero(190),
            hurtbox: (None, None),
            ..FrameData::default()
        },
        animation_frame: "mspecial_2",
        duration: 1,
    });
    v.push(MoveData {
        data: FrameData {
            speed: 5,
            hitbox: CBox::nonzero(190),
            hurtbox: (None, None),
            ..FrameData::default()
        },
        animation_frame: "mspecial_2",
        duration: 3,
    });
    v.push(MoveData {
        data: FrameData {
            speed: 5,
            hitbox: CBox::nonzero(190),
            hurtbox: (None, None),
            ..FrameData::default()
        },
        animation_frame: "mspecial_3",
        duration: 2,
    });
    v.push(MoveData {
        data: FrameData { speed: 5, ..FrameData::default() },
        animation_frame: "mspecial_3",
        duration: 3,
    });
    v.push(MoveData {
        data: FrameData { speed: 3, ..FrameData::default() },
        animation_frame: "mspecial_3",
        duration: 5,
    });
    v.push(MoveData { data: FrameData::default(), animation_frame: "mspecial_3", duration: 20 });
    v.push(MoveData { data: FrameData::default(), animation_frame: "mspecial_4", duration: 10 });
    v.push(MoveData { data: FrameData::default(), animation_frame: "mspecial_5", duration: 7 });
    v.push(MoveData { data: FrameData::default(), animation_frame: "mspecial_6", duration: 2 });
    proof {
        assert(table_view(v@) =~~= mspecial_spec());
    }
    v
}

/// The forward-dash table.
pub open spec fn fdash_spec() -> Seq<MoveDataV> {
    seq![
        MoveDataV {
            data: FrameData { meter: 15, speed: 13, ..frame_default() },
            anim: "fdash_0"@,
            duration: 3,
        },
        MoveDataV {
            data: FrameData { meter: 20, speed: 18, ..frame_default() },
            anim: "fdash_0"@,
            duration: 5,
        },
        MoveDataV {
            data: FrameData { meter: 20, speed: 18, ..frame_default() },
            anim: "fdash_1"@,
            duration: 1,
        },
        MoveDataV {
            data: FrameData { meter: 15, speed: 12, ..frame_default() },
            anim: "fdash_1"@,
            duration: 2,
        },
        MoveDataV {
            data: FrameData { meter: 15, speed: 12, ..frame_default() },
            anim: "fdash_2"@,
            duration: 1,
        },
        MoveDataV {
            data: FrameData { meter: 7, speed: 5, ..frame_default() },
            anim: "fdash_2"@,
            duration: 1,
        },
        MoveDataV {
            data: FrameData { meter: 7, speed: 5, ..frame_default() },
            anim: "fdash_3"@,
            duration: 1,
        },
        MoveDataV {
            data: FrameData { meter: 4, speed: 3, ..frame_default() },
            anim: "fdash_3"@,
            duration: 1,
        },
        MoveDataV { data: frame_default(), anim: "fdash_4"@, duration: 1 },
    ]
}

/// Build the forward-dash table.
pub fn fdash_table() -> (r: Vec<MoveData>)
    ensures
        table_view(r@) == fdash_spec(),
{
    let mut v: Vec<MoveData> = Vec::new();
    v.push(MoveData {
        data: FrameData { meter: 15, speed: 13, ..FrameData::default() },
        animation_frame: "fdash_0",
        duration: 3,
    });
    v.push(MoveData {
        data: FrameData { meter: 20, speed: 18, ..FrameData::default() },
        animation_frame: "fdash_0",
        duration: 5,
    });
    v.push(MoveData {
        data: FrameData { meter: 20, speed: 18, ..FrameData::default() },
        animation_frame: "fdash_1",
        duration: 1,
    });
    v.push(MoveData {
        data: FrameData { meter: 15, speed: 12, ..FrameData::default() },
        animation_frame: "fdash_1",
        duration: 2,
    });
    v.push(MoveData {
        data: FrameData { meter: 15, speed: 12, ..FrameData::default() },
        animation_frame: "fdash_2",
        duration: 1,
    });
    v.push(MoveData {
        data: FrameData { meter: 7, speed: 5, ..FrameData::default() },
        animation_frame: "fdash_2",
        duration: 1,
    });
    v.push(MoveData {
        data: FrameData { meter: 7, speed: 5, ..FrameData::default() },
        animation_frame: "fdash_3",
        duration: 1,
    });
    v.push(MoveData {
        data: FrameData { meter: 4, speed: 3, ..FrameData::default() },
        animation_frame: "fdash_3",
        duration: 1,
    });
    v.push(MoveData { data: FrameData::default(), animation_frame: "fdash_4", duration: 1 });
    proof {
        assert(table_view(v@) =~~= fdash_spec());
    }
    v
}

/// The backward-dash table.
pub open spec fn bdash_spec() -> Seq<MoveDataV> {
    seq![
        MoveDataV {
            data: FrameData { speed: (-26) as i16, ..frame_default() },
            anim: "bdash_0"@,
            duration: 3,
        },
        MoveDataV {
            data: FrameData { speed: (-12) as i16, ..frame_default() },
            anim: "bdash_0"@,
            duration: 6,
        },
        MoveDataV {
            data: FrameData { speed: (-8) as i16, ..frame_default() },
            anim: "bdash_0"@,
            duration: 2,
        },
        MoveDataV {
            data: FrameData { speed: (-8) as i16, ..frame_default() },
            anim: "bdash_1"@,
            duration: 2,
        },
        MoveDataV {
            data: FrameData { speed: (-3) as i16, ..frame_default() },
            anim: "bdash_1"@,
            duration: 2,
        },
        MoveDataV { data: frame_default(), anim: "bdash_1"@, duration: 2 },
        MoveDataV { data: frame_default(), anim: "bdash_2"@, duration: 4 },
        MoveDataV { data: frame_default(), anim: "bdash_3"@, duration: 1 },
    ]
}

/// Build the backward-dash table.
pub fn bdash_table() -> (r: Vec<MoveData>)
    ensures
        table_view(r@) == bdash_spec(),
{
    let mut v: Vec<MoveData> = Vec::new();
    v.push(MoveData {
        data: FrameData { speed: -26, ..FrameData::default() },
        animation_frame: "bdash_0",
        duration: 3,
    });
    v.push(MoveData {
        data: FrameData { speed: -12, ..FrameData::default() },
        animation_frame: "bdash_0",
        duration: 6,
    });
    v.push(MoveData {
        data: FrameData { speed: -8, ..FrameData::default() },
        animation_frame: "bdash_0",
        duration: 2,
    });
    v.push(MoveData {
        data: FrameData { speed: -8, ..FrameData::default() },
        animation_frame: "bdash_1",
        duration: 2,
    });
    v.push(MoveData {
        data: FrameData { speed: -3, ..FrameData::default() },
        animation_frame: "bdash_1",
        duration: 2,
    });
    v.push(MoveData { data: FrameData::default(), animation_frame: "bdash_1", duration: 2 });
    v.push(MoveData { data: FrameData::default(), animation_frame: "bdash_2", duration: 4 });
    v.push(MoveData { data: FrameData::default(), animation_frame: "bdash_3", duration: 1 });
    proof {
        assert(table_view(v@) =~~= bdash_spec());
    }
    v
}

/// The single entry played once a combatant is defeated.
pub open spec fn dead_entry_spec() -> MoveDataV {
    MoveDataV { data: frame_default(), anim: "dead_0"@, duration: 1 }
}

/// The one-entry table a death state dereferences.
pub open spec fn dead_spec() -> Seq<MoveDataV> {
    seq![dead_entry_spec()]
}

/// The entry played while dead.
pub fn dead_data() -> (r: MoveData)
    ensures
        r@ == dead_entry_spec(),
{
    MoveData { data: FrameData::default(), animation_frame: "dead_0", duration: 1 }
}

/// Dereference a table at a 0-based frame index: subtract each entry's
/// duration from the 1-based running counter and hand back the first entry
/// at which it is used up, or `None` once the table is exhausted.
pub fn move_data(frame: u8, data_array: &Vec<MoveData>) -> (r: Option<MoveData>)
    ensures
        match r {
            Some(m) => table_lookup(table_view(data_array@), frame as int) == Some(m@),
            None => table_lookup(table_view(data_array@), frame as int) is None,
        },
{
    let mut counter: usize = frame as usize + 1;
    let mut i: usize = 0;
    while i < data_array.len()
        invariant
            0 <= i <= data_array.len(),
            1 <= counter <= frame as usize + 1,
            table_lookup(table_view(data_array@), frame as int) == lookup_from(
                table_view(data_array@),
                i as int,
                counter - 1,
            ),
        decreases data_array.len() - i,
    {
        let d = data_array[i].duration as usize;
        if counter <= d {
            return Some(data_array[i]);
        }
        counter -= d;
        i += 1;
    }
    None
}

/// Total duration of a table as the wire-size counter the callers use.
pub fn move_length(data: &Vec<MoveData>) -> (r: u8)
    requires
        table_total(table_view(data@)) <= u8::MAX,
    ensures
        r == table_total(table_view(data@)),
{
    let mut res: u8 = 0;
    let mut i: usize = 0;
    while i < data.len()
        invariant
            0 <= i <= data.len(),
            res + total_from(table_view(data@), i as int) == table_total(table_view(data@)),
            table_total(table_view(data@)) <= u8::MAX,
        decreases data.len() - i,
    {
        proof {
            lemma_total_from_nonneg(table_view(data@), i as int + 1);
        }
        res = res + data[i].duration;
        i += 1;
    }
    res
}

/// Dereference the idle table directly.
pub fn idle_data(frame: u8) -> (r: Option<MoveData>)
    ensures
        match r {
            Some(m) => table_lookup(idle_spec(), frame as int) == Some(m@),
            None => table_lookup(idle_spec(), frame as int) is None,
        },
{
    let t = idle_table();
    move_data(frame, &t)
}

/// Total durations of the constant tables.
pub proof fn lemma_table_totals()
    ensures
        table_total(idle_spec()) == 24,
        table_total(fwalk_spec()) == 24,
        table_total(bwalk_spec()) == 24,
        table_total(nnormal_spec()) == 23,
        table_total(mnormal_spec()) == 22,
        table_total(nspecial_spec()) == 42,
        table_total(mspecial_spec()) == 55,
        table_total(fdash_spec()) == 16,
        table_total(bdash_spec()) == 22,
        table_total(dead_spec()) == 1,
{
    reveal_with_fuel(total_from, 14);
}

} // verus!
