//! The state of the tool, and what it decides in every frame.
//!
//! One context is created when the tool attaches, and is handed to every
//! step of every frame. A frame goes: [`LitcherContext::render`], which
//! drops what has gone stale; the controls, whose outcome
//! [`LitcherContext::main_window`] takes over; and
//! [`LitcherContext::update_lights`], which moves the lights that follow the
//! camera. The steps return the calls that are due on the foreign side; they
//! make none themselves.

use crate::definitions::{
    bool_byte,
    camera_of,
    light_label,
    reclaimed,
    CR4Player,
    LightContainer,
    LightEntity,
    LightType,
    MainMemoryPools,
    Position,
    RecomputeCall,
    Retired,
    RotationMatrix,
    FLOAT_ONE,
};
use crate::detour::jump_patch;
use crate::exposure::{
    tonemapping_target,
    ToneMappingContainer,
    ToneMappingSettings,
    TONEMAPPING_PATCH_LENGTH,
};
use crate::memory::{ImageView, MemoryImage};
use crate::pattern::{scan_result, BytePattern, PatternByte};
use crate::pointer::{chain_target, Pointer};
use crate::resolver::{read_relative, resolved_address, ResolveError};
use vstd::prelude::*;

verus! {

/// The length of the instruction that loads the address of the initial
/// table: three bytes of instruction, four of offset.
pub const MOV_LENGTH: usize = 7;

/// How far into the signature of the initial table that instruction starts.
pub const TABLE_INSTRUCTION_OFFSET: usize = 8;

/// Where the pointer to the spotlight pool stands in the initial table.
pub const SPOTLIGHT_POOL_OFFSET: usize = 0x1990;

/// Where the pointer to the point light pool stands in the initial table.
pub const POINTLIGHT_POOL_OFFSET: usize = 0x1998;

/// Where the chain to the player starts in the initial table.
pub const PLAYER_OFFSET: usize = 0xC8;

/// The offsets of the chain to the player: game, camera, player.
pub open spec fn player_chain() -> Seq<usize> {
    seq![0x1A8usize, 0x40usize]
}

/// The signature of the code that loads the address of the initial table.
pub open spec fn initial_table_signature() -> Seq<PatternByte> {
    seq![
        PatternByte::Exact(0x48),
        PatternByte::Exact(0x8B),
        PatternByte::Exact(0xC8),
        PatternByte::Exact(0xE8),
        PatternByte::Any,
        PatternByte::Any,
        PatternByte::Any,
        PatternByte::Any,
        PatternByte::Exact(0x48),
        PatternByte::Exact(0x8B),
        PatternByte::Exact(0x0D),
        PatternByte::Any,
        PatternByte::Any,
        PatternByte::Any,
        PatternByte::Any,
        PatternByte::Exact(0xFF),
        PatternByte::Exact(0x41),
        PatternByte::Exact(0x14),
        PatternByte::Exact(0x8B),
        PatternByte::Exact(0x41),
        PatternByte::Exact(0x14),
    ]
}

/// The signature of the code that loads the address of the initial table.
pub fn initial_table_pattern() -> (pattern: BytePattern)
    ensures
        pattern@ == initial_table_signature(),
{
    let pattern = BytePattern::new(
        vec![
            PatternByte::Exact(0x48),
            PatternByte::Exact(0x8B),
            PatternByte::Exact(0xC8),
            PatternByte::Exact(0xE8),
            PatternByte::Any,
            PatternByte::Any,
            PatternByte::Any,
            PatternByte::Any,
            PatternByte::Exact(0x48),
            PatternByte::Exact(0x8B),
            PatternByte::Exact(0x0D),
            PatternByte::Any,
            PatternByte::Any,
            PatternByte::Any,
            PatternByte::Any,
            PatternByte::Exact(0xFF),
            PatternByte::Exact(0x41),
            PatternByte::Exact(0x14),
            PatternByte::Exact(0x8B),
            PatternByte::Exact(0x41),
            PatternByte::Exact(0x14),
        ],
    );
    proof {
        assert(pattern@ =~= initial_table_signature());
    }
    pattern
}

/// The address of the initial table: the pools and the player are reached
/// from it. It is what the instruction eight bytes into the first match of
/// the signature names.
pub open spec fn initial_table_value(view: ImageView) -> Result<usize, ResolveError> {
    match scan_result(initial_table_signature(), view.base as int, view.bytes) {
        Err(_) => Err(ResolveError::NotFound),
        Ok(found) => resolved_address(view, found + TABLE_INSTRUCTION_OFFSET, MOV_LENGTH as int),
    }
}

/// Why the tool cannot start on `view`, if it cannot.
pub open spec fn startup_error(view: ImageView) -> Option<ResolveError> {
    match initial_table_value(view) {
        Err(error) => Some(error),
        Ok(table) => if table + POINTLIGHT_POOL_OFFSET > usize::MAX {
            Some(ResolveError::OutOfRange)
        } else {
            match tonemapping_target(view) {
                Err(error) => Some(error),
                Ok(_) => None,
            }
        },
    }
}

/// What the controls of one row of the list of lights hold after they were
/// drawn.
#[derive(Clone, Copy, Debug)]
pub struct LightRow {
    /// The button that removes the light was pressed.
    pub remove: bool,
    /// The button that opens the light's window was pressed.
    pub edit: bool,
    /// The switch was flipped, to this.
    pub toggled: Option<bool>,
    /// Whether the light follows the camera.
    pub attach_camera: bool,
}

/// What the controls of the main window hold after they were drawn.
#[derive(Debug)]
pub struct WindowInput {
    /// The exposure that the slider holds, a float as its bit pattern.
    pub exposure: u32,
    /// Whether the exposure is overridden.
    pub overwrite: bool,
    /// One row for each tracked light, in the order of tracking.
    pub rows: Vec<LightRow>,
    /// The button that deletes all lights was pressed.
    pub delete_all: bool,
}

/// What is due on the foreign side after the main window.
#[derive(Debug)]
pub struct WindowOutput {
    /// What the injected tone mapping code is to read.
    pub tonemapping: ToneMappingSettings,
    /// The recompute calls for the lights that were switched.
    pub calls: Vec<RecomputeCall>,
    /// The lights that left tracking, switched off, each with its call.
    pub retired: Vec<Retired>,
}

/// A light with its switch set to `on`.
pub open spec fn switched(light: LightType, on: bool) -> LightType {
    light.with_light(LightEntity { is_enabled: on, ..light.light() })
}

/// A tracked light after its row of controls.
pub open spec fn row_applied(container: LightContainer, row: LightRow) -> LightContainer {
    LightContainer {
        light: match row.toggled {
            Some(on) => switched(container.light, on),
            None => container.light,
        },
        attach_camera: row.attach_camera,
        open: container.open || row.edit,
        ..container
    }
}

/// The lights after their rows of controls: light `i` after row `i`, and the
/// lights that have no row as they were.
pub open spec fn rows_applied(lights: Seq<LightContainer>, rows: Seq<LightRow>) -> Seq<
    LightContainer,
> {
    Seq::new(
        lights.len(),
        |i: int|
            if i < rows.len() {
                row_applied(lights[i], rows[i])
            } else {
                lights[i]
            },
    )
}

/// The recompute calls for the first `n` lights whose switch was flipped, in
/// the order of tracking.
pub open spec fn toggle_calls(
    lights: Seq<LightContainer>,
    rows: Seq<LightRow>,
    world: usize,
    n: nat,
) -> Seq<RecomputeCall>
    decreases n,
{
    if n == 0 {
        Seq::empty()
    } else {
        let before = toggle_calls(lights, rows, world, (n - 1) as nat);
        if rows[n - 1].toggled.is_some() {
            before.push(lights[n - 1].light.light().recompute(world))
        } else {
            before
        }
    }
}

/// The light to remove: the last of the first `n` rows whose button was
/// pressed.
pub open spec fn removal_index(rows: Seq<LightRow>, n: nat) -> Option<int>
    decreases n,
{
    if n == 0 {
        None
    } else if rows[n - 1].remove {
        Some(n - 1)
    } else {
        removal_index(rows, (n - 1) as nat)
    }
}

/// A tracked light as it leaves tracking.
pub open spec fn retired(container: LightContainer, world: usize) -> Retired {
    Retired {
        light: switched(container.light, false),
        call: container.light.light().recompute(world),
    }
}

/// Whether the light is still the foreign side's to keep.
pub open spec fn alive(container: LightContainer) -> bool {
    !reclaimed(container.light.light().entity.flags)
}

/// A tracked light after the camera moved: where it follows the camera it
/// stands where the camera stands.
pub open spec fn followed(
    container: LightContainer,
    pos: Position,
    rot: RotationMatrix,
) -> LightContainer {
    if container.attach_camera {
        LightContainer { light: container.light.moved(pos, rot), ..container }
    } else {
        container
    }
}

/// What a frame keeps of the lights: every light that the foreign side has
/// not reclaimed, and no light that it has.
pub proof fn lemma_render_keeps_the_living(lights: Seq<LightContainer>)
    ensures
        ({
            let kept = lights.filter(|container: LightContainer| alive(container));
            &&& kept.len() <= lights.len()
            &&& forall|i: int| 0 <= i < kept.len() ==> alive(#[trigger] kept[i])
            &&& forall|i: int|
                0 <= i < kept.len() ==> lights.contains(#[trigger] kept[i])
            &&& forall|i: int|
                0 <= i < lights.len() && alive(#[trigger] lights[i]) ==> kept.contains(lights[i])
        }),
{
    let keep = |container: LightContainer| alive(container);
    let kept = lights.filter(keep);
    lights.lemma_filter_len(keep);
    assert forall|i: int| 0 <= i < kept.len() implies alive(#[trigger] kept[i]) by {
        lights.lemma_filter_pred(keep, i);
    }
    assert forall|i: int| 0 <= i < kept.len() implies lights.contains(#[trigger] kept[i]) by {
        assert(kept.contains(kept[i]));
        lights.lemma_filter_contains_rev(keep, kept[i]);
    }
    assert forall|i: int|
        0 <= i < lights.len() && alive(#[trigger] lights[i]) implies kept.contains(lights[i]) by {
        lights.lemma_filter_contains(keep, i);
    }
}

/// The state of the tool.
pub struct LitcherContext {
    pub memory_pools: MainMemoryPools,
    /// The tracked lights, oldest first.
    pub lights: Vec<LightContainer>,
    /// Whether the controls are shown.
    pub show: bool,
    pub player: CR4Player,
    /// The number that the next light gets.
    pub id_track: usize,
    pub tonemapping: ToneMappingContainer,
}

impl LitcherContext {
    /// Whether what was derived from the player is stale.
    pub open spec fn stale(self) -> bool {
        self.player.0.should_update || self.player.0.last_value.is_none()
    }

    /// Attaches to the module whose bytes `image` holds: finds the initial
    /// table, sets up the chains to the pools and to the player, and detours
    /// the tone mapping code to `trampoline`. Where any of it cannot be
    /// found the image is left untouched.
    pub fn new(image: &mut MemoryImage, trampoline: usize) -> (context: Result<
        LitcherContext,
        ResolveError,
    >)
        ensures
            match context {
                Ok(this) => {
                    &&& startup_error(old(image)@).is_none()
                    &&& initial_table_value(old(image)@) matches Ok(table)
                    &&& this.memory_pools.spotlight.base_addr == table + SPOTLIGHT_POOL_OFFSET
                    &&& this.memory_pools.spotlight.offsets@.len() == 0
                    &&& this.memory_pools.spotlight.last_value.is_none()
                    &&& !this.memory_pools.spotlight.should_update
                    &&& this.memory_pools.pointlight.base_addr == table + POINTLIGHT_POOL_OFFSET
                    &&& this.memory_pools.pointlight.offsets@.len() == 0
                    &&& this.memory_pools.pointlight.last_value.is_none()
                    &&& !this.memory_pools.pointlight.should_update
                    &&& this.player.0.base_addr == table + PLAYER_OFFSET
                    &&& this.player.0.offsets@ == player_chain()
                    &&& this.player.0.last_value.is_none()
                    &&& !this.player.0.should_update
                    &&& this.lights@.len() == 0
                    &&& this.show
                    &&& this.id_track == 0
                    &&& tonemapping_target(old(image)@) == Ok::<usize, ResolveError>(
                        this.tonemapping.detour.target_address,
                    )
                    &&& this.tonemapping.detour.trampoline_address == trampoline
                    &&& this.tonemapping.detour.engaged
                    &&& this.tonemapping.detour.original_bytes@ == old(image)@.slice(
                        this.tonemapping.detour.target_address as int,
                        TONEMAPPING_PATCH_LENGTH as int,
                    )
                    &&& !this.tonemapping.overwrite
                    &&& final(image)@ == old(image)@.store(
                        this.tonemapping.detour.target_address as int,
                        jump_patch(trampoline, TONEMAPPING_PATCH_LENGTH as nat),
                    )
                },
                Err(error) => startup_error(old(image)@) == Some(error) && final(image)@ == old(
                    image,
                )@,
            },
    {
        let initial_table_ptr: usize = match Self::find_initial_table_value(image) {
            Ok(table) => table,
            Err(error) => {
                return Err(error);
            },
        };
        if initial_table_ptr > usize::MAX - POINTLIGHT_POOL_OFFSET {
            return Err(ResolveError::OutOfRange);
        }
        let memory_pools = MainMemoryPools {
            spotlight: Pointer::new(initial_table_ptr + SPOTLIGHT_POOL_OFFSET, Vec::new()),
            pointlight: Pointer::new(initial_table_ptr + POINTLIGHT_POOL_OFFSET, Vec::new()),
        };
        let chain: Vec<usize> = vec![0x1A8, 0x40];
        proof {
            assert(chain@ =~= player_chain());
        }
        let player = Pointer::new(initial_table_ptr + PLAYER_OFFSET, chain);
        let lights: Vec<LightContainer> = Vec::new();
        let tonemapping = match ToneMappingContainer::new(image, trampoline) {
            Ok(tonemapping) => tonemapping,
            Err(error) => {
                return Err(error);
            },
        };
        Ok(
            LitcherContext {
                memory_pools,
                lights,
                show: true,
                player: CR4Player::new(player),
                id_track: 0,
                tonemapping,
            },
        )
    }

    /// The address that the seven-byte move at `addr` names: the address
    /// just past the instruction, plus the signed offset in its last four
    /// bytes.
    pub fn read_from_mov(image: &MemoryImage, addr: usize) -> (target: Result<usize, ResolveError>)
        ensures
            target == resolved_address(image@, addr as int, MOV_LENGTH as int),
    {
        read_relative(image, addr, MOV_LENGTH)
    }

    /// Finds the initial table of the module whose bytes `image` holds.
    pub fn find_initial_table_value(image: &MemoryImage) -> (table: Result<usize, ResolveError>)
        ensures
            table == initial_table_value(image@),
    {
        let mp = initial_table_pattern();
        let found: usize = match mp.scan(image) {
            Ok(found) => found,
            Err(_) => {
                return Err(ResolveError::NotFound);
            },
        };
        match found.checked_add(TABLE_INSTRUCTION_OFFSET) {
            Some(instr) => Self::read_from_mov(image, instr),
            None => Err(ResolveError::Unreadable),
        }
    }

    /// Where the camera stands and how it is turned, or `None` while any
    /// link on the way to it is missing.
    pub fn get_pos_rot(&mut self, image: &MemoryImage) -> (place: Option<
        (Position, RotationMatrix),
    >)
        ensures
            place == match camera_of(
                image@,
                chain_target(image@, old(self).player.0.base_addr, old(self).player.0.offsets@),
            ) {
                Some(camera) => Some((camera.pos, camera.rot_matrix)),
                None => None,
            },
            final(self).lights == old(self).lights,
            final(self).show == old(self).show,
            final(self).id_track == old(self).id_track,
            final(self).memory_pools == old(self).memory_pools,
            final(self).tonemapping == old(self).tonemapping,
            final(self).player.0.base_addr == old(self).player.0.base_addr,
            final(self).player.0.offsets@ == old(self).player.0.offsets@,
            final(self).player.0.record() == match chain_target(
                image@,
                old(self).player.0.base_addr,
                old(self).player.0.offsets@,
            ) {
                Some(addr) => old(self).player.0.record().observe(addr),
                None => old(self).player.0.record(),
            },
    {
        match self.player.get_camera(image) {
            Some(camera) => Some((camera.pos, camera.rot_matrix)),
            None => None,
        }
    }

    /// Starts a frame. While the world is unknown, or the player has
    /// changed, nothing that was derived from the player can be trusted: the
    /// tracked lights are forgotten and the player's record is cleared.
    /// Otherwise the lights that the foreign side has reclaimed are dropped,
    /// and the others stay in their order. `toggle` says that the key that
    /// shows and hides the controls was pressed. Returns whether the
    /// controls are shown.
    pub fn render(&mut self, world: Option<usize>, toggle: bool) -> (visible: bool)
        ensures
            final(self).lights@ == if world.is_none() || old(self).stale() {
                Seq::<LightContainer>::empty()
            } else {
                old(self).lights@.filter(|container: LightContainer| alive(container))
            },
            final(self).player.0.should_update == if world.is_none() || old(self).stale() {
                false
            } else {
                old(self).player.0.should_update
            },
            final(self).player.0.last_value == if world.is_none() || old(self).stale() {
                None::<usize>
            } else {
                old(self).player.0.last_value
            },
            final(self).player.0.base_addr == old(self).player.0.base_addr,
            final(self).player.0.offsets@ == old(self).player.0.offsets@,
            final(self).show == (old(self).show != toggle),
            visible == final(self).show,
            final(self).id_track == old(self).id_track,
            final(self).memory_pools == old(self).memory_pools,
            final(self).tonemapping == old(self).tonemapping,
    {
        if world.is_none() {
            self.lights.clear();
            self.player.updated();
        }
        if self.player.should_update() {
            self.lights.clear();
            self.player.updated();
        }
        if toggle {
            self.show = !self.show;
        }
        let mut watched: Vec<LightContainer> = Vec::new();
        core::mem::swap(&mut watched, &mut self.lights);
        let ghost all = watched@;
        let mut kept: Vec<LightContainer> = Vec::new();
        proof {
            assert(all.take(0) =~= Seq::<LightContainer>::empty());
            reveal(Seq::filter);
        }
        for container in iter: watched
            invariant
                iter.seq() == all,
                kept@ == all.take(iter.index() as int).filter(
                    |container: LightContainer| alive(container),
                ),
        {
            proof {
                let done = all.take(iter.index() as int);
                assert(all.take(iter.index() + 1) =~= done.push(container));
                done.lemma_filter_push(container, |container: LightContainer| alive(container));
            }
            if !container.light.get_light().should_get_deleted() {
                kept.push(container);
            }
        }
        proof {
            assert(all.take(all.len() as int) =~= all);
        }
        self.lights = kept;
        self.show
    }

    /// Starts tracking `light`, which a pool has just created, under the
    /// next free number.
    pub fn add_light(&mut self, light: LightType)
        requires
            old(self).id_track < usize::MAX,
        ensures
            final(self).lights@.len() == old(self).lights@.len() + 1,
            final(self).lights@.take(old(self).lights@.len() as int) == old(self).lights@,
            final(self).lights@.last().light == light,
            !final(self).lights@.last().attach_camera,
            final(self).lights@.last().color@ == seq![
                FLOAT_ONE,
                FLOAT_ONE,
                FLOAT_ONE,
                FLOAT_ONE,
            ],
            final(self).lights@.last().open,
            final(self).lights@.last().id@ == light_label(old(self).id_track as nat),
            final(self).id_track == old(self).id_track + 1,
            final(self).show == old(self).show,
            final(self).player == old(self).player,
            final(self).memory_pools == old(self).memory_pools,
            final(self).tonemapping == old(self).tonemapping,
    {
        let light = LightContainer::new(light, self.id_track);
        self.id_track += 1;
        self.lights.push(light);
        proof {
            assert(self.lights@.take(old(self).lights@.len() as int) =~= old(self).lights@);
        }
    }

    /// Ends a frame. Where the camera and the world are both known, every
    /// light that follows the camera is moved to where the camera stands,
    /// and a recompute call is due for every tracked light, in the order of
    /// tracking. Where one of them is unknown nothing moves and no call is
    /// due.
    pub fn update_lights(
        &mut self,
        camera: Option<(Position, RotationMatrix)>,
        world: Option<usize>,
    ) -> (calls: Vec<RecomputeCall>)
        ensures
            camera.is_none() || world.is_none() ==> calls@.len() == 0 && final(self).lights@ == old(
                self,
            ).lights@,
            camera.is_some() && world.is_some() ==> {
                let (pos, rot) = camera.unwrap();
                &&& final(self).lights@ == old(self).lights@.map_values(
                    |container: LightContainer| followed(container, pos, rot),
                )
                &&& calls@ == old(self).lights@.map_values(
                    |container: LightContainer| container.light.light().recompute(world.unwrap()),
                )
            },
            final(self).show == old(self).show,
            final(self).id_track == old(self).id_track,
            final(self).player == old(self).player,
            final(self).memory_pools == old(self).memory_pools,
            final(self).tonemapping == old(self).tonemapping,
    {
        let mut calls: Vec<RecomputeCall> = Vec::new();
        let (pos, rot) = match camera {
            Some(place) => place,
            None => {
                return calls;
            },
        };
        let world: usize = match world {
            Some(world) => world,
            None => {
                return calls;
            },
        };
        let mut watched: Vec<LightContainer> = Vec::new();
        core::mem::swap(&mut watched, &mut self.lights);
        let ghost all = watched@;
        let mut moved: Vec<LightContainer> = Vec::new();
        for container in iter: watched
            invariant
                iter.seq() == all,
                moved@.len() == iter.index(),
                calls@.len() == iter.index(),
                forall|i: int|
                    0 <= i < iter.index() ==> #[trigger] moved@[i] == followed(all[i], pos, rot),
                forall|i: int|
                    0 <= i < iter.index() ==> #[trigger] calls@[i] == all[i].light.light().recompute(
                        world,
                    ),
        {
            let mut light_wrapper = container;
            if light_wrapper.attach_camera {
                light_wrapper.set_pos_rot(pos, rot);
            }
            calls.push(light_wrapper.update_render(world));
            moved.push(light_wrapper);
        }
        proof {
            assert(moved@ =~= all.map_values(
                |container: LightContainer| followed(container, pos, rot),
            ));
            assert(calls@ =~= all.map_values(
                |container: LightContainer| container.light.light().recompute(world),
            ));
        }
        self.lights = moved;
        calls
    }

    /// Takes over what the controls of the main window hold, and says what
    /// is due on the foreign side. The exposure controls are always taken
    /// over. The rest needs the world: without it nothing else happens.
    /// With it, every light takes over its row; a recompute call is due for
    /// every light whose switch was flipped; the light of the last row whose
    /// remove button was pressed leaves tracking; and then, if the button
    /// that deletes all lights was pressed and any light is left, all of
    /// them leave tracking and the player's record is cleared.
    pub fn main_window(&mut self, input: &WindowInput, world: Option<usize>) -> (output:
        WindowOutput)
        ensures
            output.tonemapping == (ToneMappingSettings {
                enable: bool_byte(input.overwrite),
                value: input.exposure,
            }),
            final(self).tonemapping.value == input.exposure,
            final(self).tonemapping.overwrite == input.overwrite,
            final(self).tonemapping.detour == old(self).tonemapping.detour,
            final(self).show == old(self).show,
            final(self).id_track == old(self).id_track,
            final(self).memory_pools == old(self).memory_pools,
            final(self).player.0.base_addr == old(self).player.0.base_addr,
            final(self).player.0.offsets@ == old(self).player.0.offsets@,
            world.is_none() ==> {
                &&& final(self).lights@ == old(self).lights@
                &&& final(self).player == old(self).player
                &&& output.calls@.len() == 0
                &&& output.retired@.len() == 0
            },
            world.is_some() ==> {
                let rows = input.rows@;
                let lights = old(self).lights@;
                let n = if rows.len() < lights.len() {
                    rows.len()
                } else {
                    lights.len()
                };
                let edited = rows_applied(lights, rows);
                let removal = removal_index(rows, n);
                let left = match removal {
                    Some(ix) => edited.remove(ix),
                    None => edited,
                };
                let first = match removal {
                    Some(ix) => seq![retired(edited[ix], world.unwrap())],
                    None => Seq::<Retired>::empty(),
                };
                let wipe = input.delete_all && left.len() > 0;
                &&& output.calls@ == toggle_calls(lights, rows, world.unwrap(), n)
                &&& final(self).lights@ == if wipe {
                    Seq::<LightContainer>::empty()
                } else {
                    left
                }
                &&& output.retired@ == if wipe {
                    first + left.map_values(
                        |container: LightContainer| retired(container, world.unwrap()),
                    )
                } else {
                    first
                }
                &&& final(self).player.0.should_update == if wipe {
                    false
                } else {
                    old(self).player.0.should_update
                }
                &&& final(self).player.0.last_value == if wipe {
                    None::<usize>
                } else {
                    old(self).player.0.last_value
                }
            },
    {
        let tonemapping = self.tonemapping.handle_ui(input.exposure, input.overwrite);
        let mut calls: Vec<RecomputeCall> = Vec::new();
        let mut gone: Vec<Retired> = Vec::new();
        let world: usize = match world {
            Some(world) => world,
            None => {
                return WindowOutput { tonemapping, calls, retired: gone };
            },
        };
        let n: usize = if input.rows.len() < self.lights.len() {
            input.rows.len()
        } else {
            self.lights.len()
        };
        let mut light_to_remove: Option<usize> = None;
        let mut i: usize = 0;
        while i < n
            invariant
                i <= n <= input.rows@.len(),
                light_to_remove == match removal_index(input.rows@, i as nat) {
                    Some(ix) => Some(ix as usize),
                    None => None::<usize>,
                },
                removal_index(input.rows@, i as nat) matches Some(ix) ==> 0 <= ix < i,
            decreases n - i,
        {
            if input.rows[i].remove {
                light_to_remove = Some(i);
            }
            i = i + 1;
        }
        let mut watched: Vec<LightContainer> = Vec::new();
        core::mem::swap(&mut watched, &mut self.lights);
        let total: usize = watched.len();
        let ghost all = watched@;
        let ghost rows = input.rows@;
        let ghost edited = rows_applied(all, rows);
        let ghost removal = removal_index(rows, n as nat);
        let mut kept: Vec<LightContainer> = Vec::new();
        let mut k: usize = 0;
        for container in iter: watched
            invariant
                iter.seq() == all,
                k == iter.index(),
                all.len() == total,
                rows == input.rows@,
                edited == rows_applied(all, rows),
                removal == removal_index(rows, n as nat),
                removal matches Some(ix) ==> 0 <= ix < n,
                light_to_remove == match removal {
                    Some(ix) => Some(ix as usize),
                    None => None::<usize>,
                },
                n <= rows.len(),
                n <= all.len(),
                n == rows.len() || n == all.len(),
                calls@ == toggle_calls(
                    all,
                    rows,
                    world,
                    if k < n {
                        k as nat
                    } else {
                        n as nat
                    },
                ),
                gone@ == match removal {
                    Some(ix) => if ix < k {
                        seq![retired(edited[ix], world)]
                    } else {
                        Seq::<Retired>::empty()
                    },
                    None => Seq::<Retired>::empty(),
                },
                kept@.len() == match removal {
                    Some(ix) => if ix < k {
                        k - 1
                    } else {
                        k as int
                    },
                    None => k as int,
                },
                forall|j: int|
                    0 <= j < kept@.len() ==> #[trigger] kept@[j] == match removal {
                        Some(ix) => if j < ix {
                            edited[j]
                        } else {
                            edited[j + 1]
                        },
                        None => edited[j],
                    },
        {
            let mut light = container;
            assert(k < total);
            if k < n {
                let row = input.rows[k];
                if row.edit {
                    light.open = true;
                }
                match row.toggled {
                    Some(on) => {
                        let inner_light = light.light.get_light_mut();
                        inner_light.is_enabled = on;
                        calls.push(light.update_render(world));
                    },
                    None => {},
                }
                light.attach_camera = row.attach_camera;
            }
            assert(light == edited[k as int]);
            if light_to_remove == Some(k) {
                gone.push(light.remove_light(world));
                proof {
                    assert(gone@ =~= seq![retired(edited[k as int], world)]);
                }
            } else {
                kept.push(light);
            }
            k = k + 1;
        }
        let ghost left = match removal {
            Some(ix) => edited.remove(ix),
            None => edited,
        };
        proof {
            assert(kept@ =~= left);
        }
        if input.delete_all && kept.len() != 0 {
            let ghost first = gone@;
            for container in iter: kept
                invariant
                    iter.seq() == left,
                    gone@.len() == first.len() + iter.index(),
                    forall|j: int| 0 <= j < first.len() ==> #[trigger] gone@[j] == first[j],
                    forall|j: int|
                        first.len() <= j < gone@.len() ==> #[trigger] gone@[j] == retired(
                            left[j - first.len()],
                            world,
                        ),
            {
                gone.push(container.remove_light(world));
            }
            proof {
                assert(gone@ =~= first + left.map_values(
                    |container: LightContainer| retired(container, world),
                ));
            }
            self.player.updated();
        } else {
            self.lights = kept;
        }
        WindowOutput { tonemapping, calls, retired: gone }
    }
}

} // verus!
