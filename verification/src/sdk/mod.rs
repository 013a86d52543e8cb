//! Where the game keeps what the tool reads and writes: offsets looked up in
//! the offset table, added to module, entity and object base addresses.
pub mod offsets;

use vstd::prelude::*;

use self::offsets::{get_netvar, get_signature, netvar_of, signature_of};

verus! {

/// The named offsets of the `signatures` section that the tool uses.
#[derive(Debug, Clone, Copy, PartialEq, Eq, Structural)]
pub enum Signature {
    ClientState,
    GlowObjectManager,
    ClientStateViewAngles,
    LocalPlayer,
    EntityList,
    Dormant,
}

impl Signature {
    /// The name of the offset in the table.
    pub open spec fn key(self) -> Seq<char> {
        match self {
            Signature::ClientState => "dwClientState"@,
            Signature::GlowObjectManager => "dwGlowObjectManager"@,
            Signature::ClientStateViewAngles => "dwClientState_ViewAngles"@,
            Signature::LocalPlayer => "dwLocalPlayer"@,
            Signature::EntityList => "dwEntityList"@,
            Signature::Dormant => "m_bDormant"@,
        }
    }

    /// The name of the offset in the table.
    pub fn name(&self) -> (r: &'static str)
        ensures
            r@ == self.key(),
    {
        match self {
            Signature::ClientState => "dwClientState",
            Signature::GlowObjectManager => "dwGlowObjectManager",
            Signature::ClientStateViewAngles => "dwClientState_ViewAngles",
            Signature::LocalPlayer => "dwLocalPlayer",
            Signature::EntityList => "dwEntityList",
            Signature::Dormant => "m_bDormant",
        }
    }
}

/// The named offsets of the `netvars` section that the tool uses.
#[derive(Debug, Clone, Copy, PartialEq, Eq, Structural)]
pub enum Netvar {
    Health,
    TeamNum,
    GlowIndex,
    BoneMatrix,
    VecOrigin,
    VecViewOffset,
    AimPunchAngle,
    Spotted,
    SpottedByMask,
    ActiveWeapon,
    ItemDefinitionIndex,
}

impl Netvar {
    /// The name of the offset in the table.
    pub open spec fn key(self) -> Seq<char> {
        match self {
            Netvar::Health => "m_iHealth"@,
            Netvar::TeamNum => "m_iTeamNum"@,
            Netvar::GlowIndex => "m_iGlowIndex"@,
            Netvar::BoneMatrix => "m_dwBoneMatrix"@,
            Netvar::VecOrigin => "m_vecOrigin"@,
            Netvar::VecViewOffset => "m_vecViewOffset"@,
            Netvar::AimPunchAngle => "m_aimPunchAngle"@,
            Netvar::Spotted => "m_bSpotted"@,
            Netvar::SpottedByMask => "m_bSpottedByMask"@,
            Netvar::ActiveWeapon => "m_hActiveWeapon"@,
            Netvar::ItemDefinitionIndex => "m_iItemDefinitionIndex"@,
        }
    }

    /// The name of the offset in the table.
    pub fn name(&self) -> (r: &'static str)
        ensures
            r@ == self.key(),
    {
        match self {
            Netvar::Health => "m_iHealth",
            Netvar::TeamNum => "m_iTeamNum",
            Netvar::GlowIndex => "m_iGlowIndex",
            Netvar::BoneMatrix => "m_dwBoneMatrix",
            Netvar::VecOrigin => "m_vecOrigin",
            Netvar::VecViewOffset => "m_vecViewOffset",
            Netvar::AimPunchAngle => "m_aimPunchAngle",
            Netvar::Spotted => "m_bSpotted",
            Netvar::SpottedByMask => "m_bSpottedByMask",
            Netvar::ActiveWeapon => "m_hActiveWeapon",
            Netvar::ItemDefinitionIndex => "m_iItemDefinitionIndex",
        }
    }
}

/// Why an address could not be formed.
#[derive(Debug, Clone, Copy, PartialEq, Eq, Structural)]
pub enum SdkError {
    /// The offset table has no unsigned offset under the name.
    MissingOffset,
    /// The address does not fit in 64 bits.
    Overflow,
}

/// `base + offset` as a 64-bit address, if it fits.
pub open spec fn address_sum(base: int, offset: int) -> Option<u64> {
    if 0 <= base + offset <= u64::MAX {
        Some((base + offset) as u64)
    } else {
        None
    }
}

/// The address `offset` bytes past `base` (memflow's `Address + usize`,
/// which adds the offset to the 64-bit address), or `None` when the sum does
/// not fit in 64 bits.
pub fn offset_address(base: u64, offset: usize) -> (r: Option<u64>)
    ensures
        r == address_sum(base as int, offset as int),
{
    base.checked_add(offset as u64)
}

/// The address of a field found at an offset from the table: missing when
/// the table has no such offset, an overflow when the sum does not fit.
pub open spec fn located(found: Option<usize>, base: u64) -> Result<u64, SdkError> {
    match found {
        None => Err(SdkError::MissingOffset),
        Some(off) => match address_sum(base as int, off as int) {
            Some(a) => Ok(a),
            None => Err(SdkError::Overflow),
        },
    }
}

fn locate(found: Result<usize, usize>, base: u64) -> (r: Result<u64, SdkError>)
    ensures
        r == located(
            match found {
                Ok(v) => Some(v),
                Err(_) => None,
            },
            base,
        ),
{
    match found {
        Err(_) => Err(SdkError::MissingOffset),
        Ok(off) => match offset_address(base, off) {
            Some(a) => Ok(a),
            None => Err(SdkError::Overflow),
        },
    }
}

/// `base` plus the offset the table lists for `sig` under `signatures`.
pub fn signature_address(offsets: &json::JsonValue, base: u64, sig: Signature) -> (r: Result<
    u64,
    SdkError,
>)
    ensures
        r == located(signature_of(*offsets, sig.key()), base),
{
    locate(get_signature(offsets, sig.name()), base)
}

/// `base` plus the offset the table lists for `var` under `netvars`.
pub fn netvar_address(offsets: &json::JsonValue, base: u64, var: Netvar) -> (r: Result<
    u64,
    SdkError,
>)
    ensures
        r == located(netvar_of(*offsets, var.key()), base),
{
    locate(get_netvar(offsets, var.name()), base)
}

/// Each signature is looked up under the exact name of the offset dump.
pub proof fn signature_dump_names()
    ensures
        Signature::ClientState.key() == "dwClientState"@,
        Signature::GlowObjectManager.key() == "dwGlowObjectManager"@,
        Signature::ClientStateViewAngles.key() == "dwClientState_ViewAngles"@,
        Signature::LocalPlayer.key() == "dwLocalPlayer"@,
        Signature::EntityList.key() == "dwEntityList"@,
        Signature::Dormant.key() == "m_bDormant"@,
{
}

/// Each netvar is looked up under the exact name of the offset dump.
pub proof fn netvar_dump_names()
    ensures
        Netvar::Health.key() == "m_iHealth"@,
        Netvar::TeamNum.key() == "m_iTeamNum"@,
        Netvar::GlowIndex.key() == "m_iGlowIndex"@,
        Netvar::BoneMatrix.key() == "m_dwBoneMatrix"@,
        Netvar::VecOrigin.key() == "m_vecOrigin"@,
        Netvar::VecViewOffset.key() == "m_vecViewOffset"@,
        Netvar::AimPunchAngle.key() == "m_aimPunchAngle"@,
        Netvar::Spotted.key() == "m_bSpotted"@,
        Netvar::SpottedByMask.key() == "m_bSpottedByMask"@,
        Netvar::ActiveWeapon.key() == "m_hActiveWeapon"@,
        Netvar::ItemDefinitionIndex.key() == "m_iItemDefinitionIndex"@,
{
}

/// A signature's address is the base plus the offset listed under its dump
/// name, whenever that offset is listed and the sum fits in 64 bits; it is
/// missing exactly when the dump name has no unsigned offset.
pub proof fn signature_address_law(
    offsets: json::JsonValue,
    base: u64,
    sig: Signature,
    name: Seq<char>,
    off: usize,
)
    requires
        (sig == Signature::ClientState ==> name == "dwClientState"@),
        (sig == Signature::GlowObjectManager ==> name == "dwGlowObjectManager"@),
        (sig == Signature::ClientStateViewAngles ==> name == "dwClientState_ViewAngles"@),
        (sig == Signature::LocalPlayer ==> name == "dwLocalPlayer"@),
        (sig == Signature::EntityList ==> name == "dwEntityList"@),
        (sig == Signature::Dormant ==> name == "m_bDormant"@),
    ensures
        signature_of(offsets, name) is None ==> located(signature_of(offsets, sig.key()), base)
            == Err::<u64, SdkError>(SdkError::MissingOffset),
            signature_of(offsets, name) == Some(off) && base + off <= u64::MAX ==> located(
                signature_of(offsets, sig.key()),
                base,
            ) == Ok::<u64, SdkError>((base + off) as u64),
            signature_of(offsets, name) == Some(off) && base + off > u64::MAX ==> located(
                signature_of(offsets, sig.key()),
                base,
            ) == Err::<u64, SdkError>(SdkError::Overflow),
{
}

/// A netvar's address is the base plus the offset listed under its dump
/// name, whenever that offset is listed and the sum fits in 64 bits; it is
/// missing exactly when the dump name has no unsigned offset.
pub proof fn netvar_address_law(
    offsets: json::JsonValue,
    base: u64,
    var: Netvar,
    name: Seq<char>,
    off: usize,
)
    requires
        (var == Netvar::Health ==> name == "m_iHealth"@),
        (var == Netvar::TeamNum ==> name == "m_iTeamNum"@),
        (var == Netvar::GlowIndex ==> name == "m_iGlowIndex"@),
        (var == Netvar::BoneMatrix ==> name == "m_dwBoneMatrix"@),
        (var == Netvar::VecOrigin ==> name == "m_vecOrigin"@),
        (var == Netvar::VecViewOffset ==> name == "m_vecViewOffset"@),
        (var == Netvar::AimPunchAngle ==> name == "m_aimPunchAngle"@),
        (var == Netvar::Spotted ==> name == "m_bSpotted"@),
        (var == Netvar::SpottedByMask ==> name == "m_bSpottedByMask"@),
        (var == Netvar::ActiveWeapon ==> name == "m_hActiveWeapon"@),
        (var == Netvar::ItemDefinitionIndex ==> name == "m_iItemDefinitionIndex"@),
    ensures
        netvar_of(offsets, name) is None ==> located(netvar_of(offsets, var.key()), base) == Err::<
            u64,
            SdkError,
        >(SdkError::MissingOffset),
            netvar_of(offsets, name) == Some(off) && base + off <= u64::MAX ==> located(
                netvar_of(offsets, var.key()),
                base,
            ) == Ok::<u64, SdkError>((base + off) as u64),
            netvar_of(offsets, name) == Some(off) && base + off > u64::MAX ==> located(
                netvar_of(offsets, var.key()),
                base,
            ) == Err::<u64, SdkError>(SdkError::Overflow),
{
}

/// Size in bytes of one entry of the entity list.
pub const ENTITY_STRIDE: usize = 0x10;

/// The entity list slot of entity `index`: the list's offset from the table
/// plus `index` entries, counted from `client_base`.
pub open spec fn entity_slot(offsets: json::JsonValue, client_base: u64, index: usize) -> Result<
    u64,
    SdkError,
> {
    match signature_of(offsets, Signature::EntityList.key()) {
        None => Err(SdkError::MissingOffset),
        Some(off) => if client_base + off <= u64::MAX && index * ENTITY_STRIDE <= usize::MAX
            && client_base + off + index * ENTITY_STRIDE <= u64::MAX {
            Ok((client_base + off + index * ENTITY_STRIDE) as u64)
        } else {
            Err(SdkError::Overflow)
        },
    }
}

/// Address of the pointer to entity `index` (`client_base + dwEntityList +
/// index * 0x10`).
pub fn entity_address(offsets: &json::JsonValue, client_base: u64, index: usize) -> (r: Result<
    u64,
    SdkError,
>)
    ensures
        r == entity_slot(*offsets, client_base, index),
{
    let list = signature_address(offsets, client_base, Signature::EntityList)?;
    let step = match index.checked_mul(ENTITY_STRIDE) {
        Some(s) => s,
        None => {
            return Err(SdkError::Overflow);
        },
    };
    match offset_address(list, step) {
        Some(a) => Ok(a),
        None => Err(SdkError::Overflow),
    }
}

/// Entity list slots are spaced one entry apart: where the slot of
/// `index + 1` exists, so does the slot of `index`, 0x10 bytes before it.
pub proof fn entity_slots_spaced(offsets: json::JsonValue, client_base: u64, index: usize)
    requires
        index < usize::MAX,
        entity_slot(offsets, client_base, (index + 1) as usize) is Ok,
    ensures
        entity_slot(offsets, client_base, index) is Ok,
        entity_slot(offsets, client_base, (index + 1) as usize)->Ok_0 == entity_slot(
            offsets,
            client_base,
            index,
        )->Ok_0 + ENTITY_STRIDE,
{
}

/// The entity list slot of any index is the list's dump offset plus 16
/// bytes per index: whenever `dwEntityList` is listed and the arithmetic
/// fits, the slot is `client_base + off + 16 * index`; the result is an
/// overflow only when the arithmetic does not fit, and missing only when
/// `dwEntityList` is not listed.
pub proof fn entity_address_law(
    offsets: json::JsonValue,
    client_base: u64,
    index: usize,
    off: usize,
)
    ensures
        signature_of(offsets, "dwEntityList"@) is None ==> entity_slot(
            offsets,
            client_base,
            index,
        ) == Err::<u64, SdkError>(SdkError::MissingOffset),
            signature_of(offsets, "dwEntityList"@) == Some(off) && 16 * index <= usize::MAX
                && client_base + off + 16 * index <= u64::MAX ==> entity_slot(
                offsets,
                client_base,
                index,
            ) == Ok::<u64, SdkError>((client_base + off + 16 * index) as u64),
            signature_of(offsets, "dwEntityList"@) == Some(off) && !(16 * index <= usize::MAX
                && client_base + off + 16 * index <= u64::MAX) ==> entity_slot(
                offsets,
                client_base,
                index,
            ) == Err::<u64, SdkError>(SdkError::Overflow),
{
}

/// Offset of the entity's own index within the local player's entity.
pub const ENTITY_INDEX_OFFSET: usize = 0x64;

/// Where the local player's entity keeps its own (1-based) index.
pub fn local_id_address(local: u64) -> (r: Option<u64>)
    ensures
        r == address_sum(local as int, ENTITY_INDEX_OFFSET as int),
{
    offset_address(local, ENTITY_INDEX_OFFSET)
}

/// The local player's 0-based index from the 1-based one read from memory;
/// `None` when the subtraction would overflow.
pub fn local_id(raw: i32) -> (r: Option<i32>)
    ensures
        r == (if raw > i32::MIN {
            Some((raw - 1) as i32)
        } else {
            None
        }),
{
    raw.checked_sub(1)
}

/// Size in bytes of one bone transform (a 3x4 matrix of `f32`).
pub const BONE_STRIDE: usize = 0x30;

/// Address of bone `bone_id`'s transform within a bone matrix array.
pub fn bone_address(bone_matrix: u64, bone_id: usize) -> (r: Option<u64>)
    ensures
        r == (if bone_id * BONE_STRIDE <= usize::MAX {
            address_sum(bone_matrix as int, bone_id * BONE_STRIDE)
        } else {
            None
        }),
{
    match bone_id.checked_mul(BONE_STRIDE) {
        Some(off) => offset_address(bone_matrix, off),
        None => None,
    }
}

/// The entity index that a weapon handle refers to: its low 12 bits, minus
/// one; `None` when those bits are zero.
pub fn weapon_entity_index(handle: usize) -> (r: Option<usize>)
    ensures
        r == (if handle % 4096 == 0 {
            None
        } else {
            Some((handle % 4096 - 1) as usize)
        }),
{
    let index = handle & 0xFFF;
    assert(handle & 0xFFF == handle % 4096) by (bit_vector);
    index.checked_sub(1)
}

/// A bone's transform is 0x30 bytes (a 3x4 `f32` matrix) past the previous
/// one: bone `b` sits at `bone_matrix + 0x30 * b` whenever that fits.
pub proof fn bone_address_law(bone_matrix: u64, bone_id: usize)
    ensures
        0x30 * bone_id <= usize::MAX && bone_matrix + 0x30 * bone_id <= u64::MAX ==> (if bone_id
            * BONE_STRIDE <= usize::MAX {
            address_sum(bone_matrix as int, bone_id * BONE_STRIDE)
        } else {
            None
        }) == Some((bone_matrix + 0x30 * bone_id) as u64),
{
}

/// The local player's own index is kept 0x64 bytes into its entity.
pub proof fn local_id_offset_law(local: u64)
    ensures
        local + 0x64 <= u64::MAX ==> address_sum(local as int, ENTITY_INDEX_OFFSET as int) == Some(
            (local + 0x64) as u64,
        ),
        local + 0x64 > u64::MAX ==> address_sum(local as int, ENTITY_INDEX_OFFSET as int) is None,
{
}

/// The weapons the aim assist works with are the item indices 1 to 40,
/// except 20 and 37.
pub proof fn valid_weapon_set(item_def_index: u16)
    ensures
        valid_weapon(item_def_index) <==> (1 <= item_def_index <= 40 && item_def_index != 20
            && item_def_index != 37),
{
}

/// Item definition indices of the weapons the aim assist works with.
pub open spec fn valid_weapon(item_def_index: u16) -> bool {
    ||| 0 < item_def_index < 20
    ||| 20 < item_def_index < 37
    ||| 37 < item_def_index < 41
}

/// Whether the held weapon is one the aim assist works with.
pub fn is_valid_weapon(item_def_index: u16) -> (r: bool)
    ensures
        r == valid_weapon(item_def_index),
{
    if item_def_index > 0 && item_def_index < 20 {
        return true;
    }
    if item_def_index > 20 && item_def_index < 37 {
        return true;
    }
    if item_def_index > 37 && item_def_index < 41 {
        return true;
    }
    if item_def_index == 60 && item_def_index == 61 {
        return true;
    }
    if item_def_index == 63 && item_def_index == 64 {
        return true;
    }
    false
}

} // verus!
