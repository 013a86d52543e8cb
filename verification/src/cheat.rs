//! The integer decisions of the per-tick update: which entities are
//! targets, whether the local player has spotted one, and where the glow
//! settings of an entity live.
use vstd::prelude::*;

use crate::sdk::address_sum;

verus! {

/// Virtual-key code of the key that stops the tool (F8).
pub const EXIT_KEY: i32 = 0x77;

/// Virtual-key code of the key that holds the aim assist (left mouse button).
pub const AIM_KEY: i32 = 0x01;

/// Entities are scanned at the indices `1..=MAX_ENTITY_INDEX`.
pub const MAX_ENTITY_INDEX: usize = 64;

/// The bones the aim assist tries, in this order.
pub open spec fn spec_aim_bones() -> Seq<usize> {
    seq![8, 6, 5, 4, 3, 0]
}

/// The bones the aim assist tries, in order.
pub fn aim_bones() -> (r: [usize; 6])
    ensures
        r@ == spec_aim_bones(),
{
    let r = [8, 6, 5, 4, 3, 0];
    assert(r@ =~= spec_aim_bones());
    r
}

/// The position of the first module named `wanted` in a module list.
pub fn find_module(names: &Vec<String>, wanted: &String) -> (r: Option<usize>)
    ensures
        match r {
            Some(i) => i < names@.len() && names@[i as int]@ == wanted@ && forall|j: int|
                0 <= j < i ==> #[trigger] names@[j]@ != wanted@,
            None => forall|j: int| 0 <= j < names@.len() ==> #[trigger] names@[j]@ != wanted@,
        },
{
    let mut i: usize = 0;
    while i < names.len()
        invariant
            i <= names@.len(),
            forall|j: int| 0 <= j < i ==> #[trigger] names@[j]@ != wanted@,
        decreases names@.len() - i,
    {
        if names[i].eq(wanted) {
            return Some(i);
        }
        i = i + 1;
    }
    None
}

/// An entity is a live enemy when it is on another team, on a playing team
/// (above 1), and alive; it is a target when it is also not dormant.
pub open spec fn spec_is_live_enemy(local_team: i32, entity_team: i32, entity_health: i32) -> bool {
    &&& entity_team != local_team
    &&& entity_team > 1
    &&& entity_health > 0
}

/// Whether an entity is a live enemy of the local player.
pub fn is_live_enemy(local_team: i32, entity_team: i32, entity_health: i32) -> (r: bool)
    ensures
        r == spec_is_live_enemy(local_team, entity_team, entity_health),
{
    entity_team != local_team && entity_team > 1 && entity_health > 0
}

/// Bit `local_id` of the spotted mask, as the signed test `mask & (1 << id) > 0`
/// sees it: the sign bit (id 31) never counts.
pub open spec fn spotted_bit(mask: i32, local_id: i32) -> bool {
    0 <= local_id < 31 && ((mask as u32) >> (local_id as u32)) & 1u32 == 1u32
}

/// The tool stops on F8 (0x77), aims while the left mouse button (0x01) is
/// held, scans the entity indices 1 to 64, and tries bones 8, 6, 5, 4, 3, 0.
pub proof fn tick_constants()
    ensures
        EXIT_KEY == 0x77,
        AIM_KEY == 0x01,
        MAX_ENTITY_INDEX == 64,
        spec_aim_bones().len() == 6,
        spec_aim_bones()[0] == 8 && spec_aim_bones()[1] == 6 && spec_aim_bones()[2] == 5,
        spec_aim_bones()[3] == 4 && spec_aim_bones()[4] == 3 && spec_aim_bones()[5] == 0,
{
}

/// Below the sign bit, the local player has spotted the entity exactly when
/// the mask has the bit `1 << local_id` set.
pub proof fn spotted_bit_law(mask: i32, local_id: i32)
    requires
        0 <= local_id < 31,
    ensures
        spotted_bit(mask, local_id) <==> ((mask as u32) & (1u32 << (local_id as u32))) != 0,
{
    let m = mask as u32;
    let k = local_id as u32;
    assert((m >> k) & 1u32 == 1u32 <==> (m & (1u32 << k)) != 0) by (bit_vector)
        requires
            k < 31,
    ;
}

/// Whether the entity's spotted mask shows it spotted by the local player:
/// an empty mask never does; otherwise `None` where the shift by
/// `local_id` would overflow (outside `0..32`), else the bit.
pub fn spotted_by_local(mask: i32, local_id: i32) -> (r: Option<bool>)
    ensures
        r == (if mask == 0 {
            Some(false)
        } else if 0 <= local_id < 32 {
            Some(spotted_bit(mask, local_id))
        } else {
            None
        }),
{
    if mask == 0 {
        return Some(false);
    }
    if local_id < 0 || local_id >= 32 {
        return None;
    }
    let shift = local_id as u32;
    let bit: i32 = 1i32 << shift;
    let hit = (mask & bit) > 0;
    assert(hit == (shift < 31 && ((mask as u32) >> shift) & 1u32 == 1u32)) by (bit_vector)
        requires
            shift < 32,
            bit == 1i32 << shift,
            hit == ((mask & bit) > 0),
    ;
    Some(hit)
}


/// Size in bytes of one entry of the glow object array.
pub const GLOW_STRIDE: usize = 0x38;

/// The glow settings that the tool writes for a target.
#[derive(Debug, Clone, Copy, PartialEq, Eq, Structural)]
pub enum GlowField {
    /// Red component (`f32`).
    Red,
    /// Green component (`f32`).
    Green,
    /// Blue component (`f32`).
    Blue,
    /// Opacity (`f32`).
    Alpha,
    /// Draw while occluded (`u8` flag).
    RenderOccluded,
    /// Draw while not occluded (`u8` flag).
    RenderUnoccluded,
}

impl GlowField {
    /// Offset of the field within a glow entry.
    pub open spec fn spec_offset(self) -> usize {
        match self {
            GlowField::Red => 0x8,
            GlowField::Green => 0xC,
            GlowField::Blue => 0x10,
            GlowField::Alpha => 0x14,
            GlowField::RenderOccluded => 0x28,
            GlowField::RenderUnoccluded => 0x29,
        }
    }

    /// Size in bytes of the field.
    pub open spec fn width(self) -> int {
        match self {
            GlowField::RenderOccluded | GlowField::RenderUnoccluded => 1,
            _ => 4,
        }
    }

    /// Offset of the field within a glow entry.
    pub fn offset(&self) -> (r: usize)
        ensures
            r == self.spec_offset(),
    {
        match self {
            GlowField::Red => 0x8,
            GlowField::Green => 0xC,
            GlowField::Blue => 0x10,
            GlowField::Alpha => 0x14,
            GlowField::RenderOccluded => 0x28,
            GlowField::RenderUnoccluded => 0x29,
        }
    }
}

/// Address of a glow field of entry `glow_index`:
/// `glow_object + (glow_index * 0x38 + offset)`, with every step in range.
pub open spec fn glow_slot(glow_object: u64, glow_index: usize, field: GlowField) -> Option<u64> {
    if glow_index * GLOW_STRIDE + field.spec_offset() <= usize::MAX {
        address_sum(glow_object as int, glow_index * GLOW_STRIDE + field.spec_offset())
    } else {
        None
    }
}

/// Address of a glow field of entry `glow_index`, or `None` where the
/// arithmetic overflows.
pub fn glow_field_address(glow_object: u64, glow_index: usize, field: GlowField) -> (r: Option<
    u64,
>)
    ensures
        r == glow_slot(glow_object, glow_index, field),
{
    let base = match glow_index.checked_mul(GLOW_STRIDE) {
        Some(b) => b,
        None => {
            return None;
        },
    };
    let off = match base.checked_add(field.offset()) {
        Some(o) => o,
        None => {
            return None;
        },
    };
    crate::sdk::offset_address(glow_object, off)
}

/// Where each glow setting lives: entry `glow_index` starts `0x38 *
/// glow_index` bytes into the glow array, and within it red, green, blue and
/// alpha sit at 0x8, 0xC, 0x10, 0x14 and the two render flags at 0x28, 0x29.
pub proof fn glow_field_layout(glow_object: u64, glow_index: usize)
    ensures
        glow_index * 0x38 + 0x29 <= usize::MAX && glow_object + glow_index * 0x38 + 0x29
            <= u64::MAX ==> {
            &&& glow_slot(glow_object, glow_index, GlowField::Red) == Some(
                (glow_object + glow_index * 0x38 + 0x8) as u64,
            )
            &&& glow_slot(glow_object, glow_index, GlowField::Green) == Some(
                (glow_object + glow_index * 0x38 + 0xC) as u64,
            )
            &&& glow_slot(glow_object, glow_index, GlowField::Blue) == Some(
                (glow_object + glow_index * 0x38 + 0x10) as u64,
            )
            &&& glow_slot(glow_object, glow_index, GlowField::Alpha) == Some(
                (glow_object + glow_index * 0x38 + 0x14) as u64,
            )
            &&& glow_slot(glow_object, glow_index, GlowField::RenderOccluded) == Some(
                (glow_object + glow_index * 0x38 + 0x28) as u64,
            )
            &&& glow_slot(glow_object, glow_index, GlowField::RenderUnoccluded) == Some(
                (glow_object + glow_index * 0x38 + 0x29) as u64,
            )
        },
{
}

/// The colour is four consecutive `f32`s: green follows red, blue follows
/// green and alpha follows blue, each 4 bytes on; the unoccluded flag is the
/// byte after the occluded one.
pub proof fn glow_colour_contiguous(glow_object: u64, glow_index: usize)
    requires
        glow_slot(glow_object, glow_index, GlowField::RenderUnoccluded) is Some,
    ensures
        glow_slot(glow_object, glow_index, GlowField::Red) is Some,
        glow_slot(glow_object, glow_index, GlowField::Green) == Some(
            (glow_slot(glow_object, glow_index, GlowField::Red).unwrap() + 4) as u64,
        ),
        glow_slot(glow_object, glow_index, GlowField::Blue) == Some(
            (glow_slot(glow_object, glow_index, GlowField::Green).unwrap() + 4) as u64,
        ),
        glow_slot(glow_object, glow_index, GlowField::Alpha) == Some(
            (glow_slot(glow_object, glow_index, GlowField::Blue).unwrap() + 4) as u64,
        ),
        glow_slot(glow_object, glow_index, GlowField::RenderUnoccluded) == Some(
            (glow_slot(glow_object, glow_index, GlowField::RenderOccluded).unwrap() + 1) as u64,
        ),
{
}

/// No two glow writes overlap: the bytes written for one field of one entry
/// and for a different field or a different entry are disjoint.
pub proof fn glow_writes_disjoint(
    glow_object: u64,
    i: usize,
    f: GlowField,
    j: usize,
    g: GlowField,
)
    requires
        i != j || f != g,
        glow_slot(glow_object, i, f) is Some,
        glow_slot(glow_object, j, g) is Some,
    ensures
        glow_slot(glow_object, i, f).unwrap() + f.width() <= glow_slot(glow_object, j, g).unwrap()
            || glow_slot(glow_object, j, g).unwrap() + g.width() <= glow_slot(
            glow_object,
            i,
            f,
        ).unwrap(),
{
    let fo = f.spec_offset() as int;
    let go = g.spec_offset() as int;
    assert(0 <= fo && fo + f.width() <= GLOW_STRIDE);
    assert(0 <= go && go + g.width() <= GLOW_STRIDE);
    if i != j {
        if i < j {
            assert(i * GLOW_STRIDE + GLOW_STRIDE <= j * GLOW_STRIDE) by (nonlinear_arith)
                requires
                    i < j,
            ;
        } else {
            assert(j * GLOW_STRIDE + GLOW_STRIDE <= i * GLOW_STRIDE) by (nonlinear_arith)
                requires
                    j < i,
            ;
        }
    }
}

} // verus!
