//! The simulation controller: orchestrates how many kernel steps run per
//! displayed frame, applies the pause state, advances the generation
//! counter, performs the read/write-swap bookkeeping shared by both kernel
//! variants, sizes each dispatch to cover the grid, and keeps the
//! authoritative state and the GUI-owned state copy in sync.
//!
//! The controller produces a [`StepPlan`] for every step it schedules; the
//! surrounding application submits the corresponding GPU dispatch. A step is
//! atomic from the controller's point of view: either it is planned (and the
//! generation increments), or it is not attempted.

use vstd::prelude::*;

use crate::compute_textures::ComputeTextures;
use crate::compute_textures::spec_read_index;
use crate::compute_textures::spec_write_index;
use crate::image_util::ImageData;
use crate::image_util::ImageUtil;
use crate::image_util::monochrome_pixel;
use crate::math::UVec2;
use crate::rule::Rule;
use crate::rule::valid_rule;
use crate::time::Time;
use crate::time::rate_per_sec;

verus! {

use vstd::string::StringSliceAdditionalSpecFns;

/// Cells covered by one kernel work-group, per axis.
pub const TILE_SIZE: u32 = 16;

/// Largest grid dimension the controller accepts, per axis.
pub const MAX_GRID_DIM: u32 = 8192;

#[derive(Clone, Copy, Debug, PartialEq, Eq, Structural)]
pub enum SimulationType {
    Totalistic,
    Neural,
}

/// Errors of a transactional recreate: the rule string failed to parse, or
/// the weighted-filter kernel could not be built.
#[derive(Clone, Copy, Debug, PartialEq, Eq, Structural)]
pub enum RemakeError {
    RuleError,
    NeuralError,
}

/// Failure to build the weighted-filter kernel program.
#[derive(Clone, Copy, Debug, PartialEq, Eq, Structural)]
pub enum NeuralCreationError {
    ShaderError,
}

/// The parameter payload a kernel dispatch binds besides the two surfaces:
/// the rule tables for the rule-based kernel, or nothing host-side for the
/// continuous (weighted-filter) kernel, whose weights the application owns.
#[derive(Clone, Copy, Debug)]
pub enum SimParams {
    Totalistic(Rule),
    Continuous,
}

/// The state shared with the GUI: the user-writable pause flag, and the
/// display-only rates and generation counter the controller computes.
#[derive(Clone, Copy, Debug, PartialEq, Eq, Structural)]
pub struct SimulationState {
    pub paused: bool,
    pub fps: u32,
    pub ups: u32,
    pub generations: usize,
}

impl Default for SimulationState {
    fn default() -> (s: Self)
        ensures
            s.paused == false,
            s.fps == 0,
            s.ups == 0,
            s.generations == 0,
    {
        SimulationState { paused: false, fps: 0, ups: 0, generations: 0 }
    }
}

/// One planned kernel dispatch: bind the surface at `read_index` as the
/// sampled input (binding 0), the surface at `write_index` as the storage
/// output (binding 1), supply `params` fresh (binding 2, when present), and
/// dispatch `workgroups_x` by `workgroups_y` work-groups.
#[derive(Clone, Copy, Debug)]
pub struct StepPlan {
    pub read_index: usize,
    pub write_index: usize,
    pub workgroups_x: u32,
    pub workgroups_y: u32,
    pub params: SimParams,
}

/// Work-groups needed to cover `dim` cells with tiles of `tile` cells:
/// `ceil(dim / tile)`.
pub open spec fn spec_tile_count(dim: int, tile: int) -> int {
    (dim + tile - 1) / tile
}

/// Work-group counts per axis, covering the whole grid even when a
/// dimension is not a multiple of the tile size; edge tiles partially out
/// of range are bounds-checked by the kernel itself.
pub fn compute_work_group_count(
    width: u32,
    height: u32,
    workgroup_width: u32,
    workgroup_height: u32,
) -> (r: (u32, u32))
    requires
        workgroup_width >= 1,
        workgroup_height >= 1,
        width + workgroup_width <= u32::MAX,
        height + workgroup_height <= u32::MAX,
    ensures
        r.0 == spec_tile_count(width as int, workgroup_width as int),
        r.1 == spec_tile_count(height as int, workgroup_height as int),
{
    let x = (width + workgroup_width - 1) / workgroup_width;
    let y = (height + workgroup_height - 1) / workgroup_height;
    (x, y)
}

/// Tile coverage: `ceil(dim / tile) * tile` reaches at least `dim` and
/// overshoots by less than one tile.
pub proof fn lemma_tile_coverage(dim: int, tile: int)
    requires
        1 <= dim,
        1 <= tile,
    ensures
        spec_tile_count(dim, tile) * tile >= dim,
        spec_tile_count(dim, tile) * tile < dim + tile,
{
    let a = dim + tile - 1;
    let q = a / tile;
    vstd::arithmetic::div_mod::lemma_fundamental_div_mod(a, tile);
    vstd::arithmetic::div_mod::lemma_mod_bound(a, tile);
    vstd::arithmetic::mul::lemma_mul_is_commutative(q, tile);
}

proof fn lemma_grid_area_bound(x: int, y: int)
    by (nonlinear_arith)
    requires
        0 <= x <= 8192,
        0 <= y <= 8192,
    ensures
        (4 * x) * y <= 0x10000000,
        0 <= x * y,
{
}

/// The dispatch that advances generation `gen` of a grid of the given size
/// and variant.
pub open spec fn spec_step_plan(t: SimulationType, rule: Rule, size: UVec2, gen: int) -> StepPlan {
    StepPlan {
        read_index: spec_read_index(gen) as usize,
        write_index: spec_write_index(gen) as usize,
        workgroups_x: spec_tile_count(size.x as int, TILE_SIZE as int) as u32,
        workgroups_y: spec_tile_count(size.y as int, TILE_SIZE as int) as u32,
        params: if t == SimulationType::Totalistic {
            SimParams::Totalistic(rule)
        } else {
            SimParams::Continuous
        },
    }
}

/// The simulation controller. Owns the authoritative state, the grid
/// bookkeeping, and the per-variant kernel parameters of the rule-based
/// kernel; the weighted-filter kernel's floating-point weights live with the
/// application and are bound by it on each dispatch.
pub struct Simulation {
    simulation_type: SimulationType,
    rule: Rule,
    compute_textures: ComputeTextures,
    sim_state: SimulationState,
    seed: ImageData,
    pub size: UVec2,
}

impl Simulation {
    pub closed spec fn spec_simulation_type(self) -> SimulationType {
        self.simulation_type
    }

    pub closed spec fn spec_rule(self) -> Rule {
        self.rule
    }

    pub closed spec fn spec_generation(self) -> usize {
        self.compute_textures.spec_current_frame()
    }

    pub closed spec fn spec_sim_state(self) -> SimulationState {
        self.sim_state
    }

    pub closed spec fn spec_seed(self) -> ImageData {
        self.seed
    }

    pub closed spec fn spec_size(self) -> UVec2 {
        self.size
    }

    /// Well-formedness: the grid bookkeeping matches the controller's size,
    /// the dimensions are in range, and the seed image fits the grid.
    pub closed spec fn wf(self) -> bool {
        &&& self.compute_textures.spec_size() == self.size
        &&& 1 <= self.size.x <= MAX_GRID_DIM
        &&& 1 <= self.size.y <= MAX_GRID_DIM
        &&& self.seed.wf()
        &&& self.seed.size.x == self.size.x
        &&& self.seed.size.y == self.size.y
    }

    /// The same controller with another shared state; every field the
    /// recreate/step protocol owns is untouched.
    pub closed spec fn only_state_changed(self, other: Simulation) -> bool {
        &&& self.simulation_type == other.simulation_type
        &&& self.rule == other.rule
        &&& self.compute_textures == other.compute_textures
        &&& self.seed == other.seed
        &&& self.size == other.size
    }

    /// A fresh rule-based simulation of the given size, seeded with a random
    /// monochrome image at generation 0.
    pub fn new(size: UVec2, rule: Rule) -> (s: Simulation)
        requires
            1 <= size.x <= MAX_GRID_DIM,
            1 <= size.y <= MAX_GRID_DIM,
        ensures
            s.wf(),
            s.spec_simulation_type() == SimulationType::Totalistic,
            s.spec_rule() == rule,
            s.spec_generation() == 0,
            s.spec_size() == size,
            s.spec_sim_state() == (SimulationState {
                paused: false,
                fps: 0,
                ups: 0,
                generations: 0,
            }),
            forall|p: int|
                0 <= p < size.x * size.y ==> #[trigger] monochrome_pixel(s.spec_seed().data@, p),
            forall|p: int|
                0 <= p < size.x * size.y ==> #[trigger] s.spec_seed().data@[4 * p + 3] == 255,
    {
        proof {
            lemma_grid_area_bound(size.x as int, size.y as int);
        }
        let seed = ImageUtil::random_image_monochrome(size.x, size.y);
        let compute_textures = ComputeTextures::new(&seed);
        Simulation {
            simulation_type: SimulationType::Totalistic,
            rule,
            compute_textures,
            sim_state: SimulationState::default(),
            seed,
            size,
        }
    }

    /// The seed image currently written into the grid's initial surface;
    /// regenerated by `remake`.
    pub fn get_seed(&self) -> (img: &ImageData)
        ensures
            *img == self.spec_seed(),
    {
        &self.seed
    }

    /// Index of the surface holding the most recently computed generation;
    /// the renderer draws from this surface.
    pub fn current_surface(&self) -> (idx: usize)
        ensures
            idx == spec_read_index(self.spec_generation() as int),
    {
        self.compute_textures.get_read_texture()
    }

    /// The authoritative shared state. The GUI-owned copy is a distinct
    /// structure; `sync_state_from_gui` moves fields between the two.
    pub fn get_simulation_state_mut(&mut self) -> (r: &mut SimulationState)
        ensures
            *r == old(self).spec_sim_state(),
            final(self).spec_sim_state() == *final(r),
            old(self).only_state_changed(*final(self)),
            old(self).wf() ==> final(self).wf(),
    {
        &mut self.sim_state
    }

    /// Tear the grid down and rebuild it for a new size and variant, with a
    /// fresh random seed and the generation reset to 0. Transactional: when
    /// the rule string of a rule-based recreate does not parse, the whole
    /// controller is left exactly as it was and `RuleError` is returned. The
    /// pause flag and displayed rates survive a successful recreate.
    pub fn remake(&mut self, size: UVec2, s_type: SimulationType, rule_str: &str) -> (r: Result<
        (),
        RemakeError,
    >)
        requires
            1 <= size.x <= MAX_GRID_DIM,
            1 <= size.y <= MAX_GRID_DIM,
        ensures
            r is Ok <==> (s_type == SimulationType::Neural || valid_rule(rstr_bytes(rule_str))),
            match r {
                Ok(u) => {
                    &&& final(self).wf()
                    &&& final(self).spec_size() == size
                    &&& final(self).spec_simulation_type() == s_type
                    &&& final(self).spec_generation() == 0
                    &&& final(self).spec_sim_state().paused == old(self).spec_sim_state().paused
                    &&& final(self).spec_sim_state().fps == old(self).spec_sim_state().fps
                    &&& final(self).spec_sim_state().ups == old(self).spec_sim_state().ups
                    &&& final(self).spec_sim_state().generations == 0
                    &&& (s_type == SimulationType::Totalistic ==> valid_born_table(
                        final(self).spec_rule(),
                        rstr_bytes(rule_str),
                    ) && valid_survive_table(final(self).spec_rule(), rstr_bytes(rule_str)))
                    &&& (s_type == SimulationType::Neural
                        ==> final(self).spec_rule() == old(self).spec_rule())
                    &&& (s_type == SimulationType::Totalistic ==> forall|p: int|
                        0 <= p < size.x * size.y ==> #[trigger] monochrome_pixel(
                            final(self).spec_seed().data@,
                            p,
                        ))
                    &&& forall|p: int|
                        0 <= p < size.x * size.y ==> #[trigger] final(self).spec_seed().data@[4 * p
                            + 3] == 255
                },
                Err(e) => {
                    &&& e == RemakeError::RuleError
                    &&& *final(self) == *old(self)
                },
            },
    {
        let new_rule: Option<Rule> = match s_type {
            SimulationType::Totalistic => {
                match Rule::from_rule_str(rule_str) {
                    Ok(rule) => Some(rule),
                    Err(_) => {
                        return Err(RemakeError::RuleError);
                    },
                }
            },
            SimulationType::Neural => None,
        };
        proof {
            lemma_grid_area_bound(size.x as int, size.y as int);
        }
        let seed = match s_type {
            SimulationType::Totalistic => ImageUtil::random_image_monochrome(size.x, size.y),
            SimulationType::Neural => ImageUtil::random_image_color(size.x, size.y),
        };
        match new_rule {
            Some(rule) => {
                self.rule = rule;
            },
            None => {},
        }
        self.compute_textures = ComputeTextures::new(&seed);
        self.seed = seed;
        self.size = size;
        self.simulation_type = s_type;
        self.sim_state.generations = 0;
        Ok(())
    }

    /// Plan the dispatch of the current generation's step and advance the
    /// generation counter; the shared state's generation display follows.
    pub fn do_step(&mut self) -> (plan: StepPlan)
        requires
            old(self).wf(),
            old(self).spec_generation() < usize::MAX,
        ensures
            final(self).wf(),
            final(self).spec_generation() == old(self).spec_generation() + 1,
            final(self).spec_simulation_type() == old(self).spec_simulation_type(),
            final(self).spec_rule() == old(self).spec_rule(),
            final(self).spec_seed() == old(self).spec_seed(),
            final(self).spec_size() == old(self).spec_size(),
            final(self).spec_sim_state() == (SimulationState {
                generations: final(self).spec_generation(),
                ..old(self).spec_sim_state()
            }),
            plan == spec_step_plan(
                old(self).spec_simulation_type(),
                old(self).spec_rule(),
                old(self).spec_size(),
                old(self).spec_generation() as int,
            ),
    {
        let rw = self.compute_textures.get_read_write();
        let wg = compute_work_group_count(self.size.x, self.size.y, TILE_SIZE, TILE_SIZE);
        let params = match self.simulation_type {
            SimulationType::Totalistic => SimParams::Totalistic(self.rule),
            SimulationType::Neural => SimParams::Continuous,
        };
        let frame = self.compute_textures.get_current_frame();
        self.compute_textures.set_current_frame(frame + 1);
        self.sim_state.generations = frame + 1;
        StepPlan {
            read_index: rw.0,
            write_index: rw.1,
            workgroups_x: wg.0,
            workgroups_y: wg.1,
            params,
        }
    }

    /// One step, unless the simulation is paused: paused means no dispatch
    /// and no generation change.
    pub fn step(&mut self) -> (r: Option<StepPlan>)
        requires
            old(self).wf(),
            old(self).spec_generation() < usize::MAX,
        ensures
            final(self).wf(),
            r is Some <==> !old(self).spec_sim_state().paused,
            match r {
                Some(plan) => {
                    &&& plan == spec_step_plan(
                        old(self).spec_simulation_type(),
                        old(self).spec_rule(),
                        old(self).spec_size(),
                        old(self).spec_generation() as int,
                    )
                    &&& final(self).spec_generation() == old(self).spec_generation() + 1
                    &&& final(self).spec_sim_state() == (SimulationState {
                        generations: final(self).spec_generation(),
                        ..old(self).spec_sim_state()
                    })
                    &&& old(self).only_state_changed_except_step(*final(self))
                },
                None => *final(self) == *old(self),
            },
    {
        if !self.sim_state.paused {
            Some(self.do_step())
        } else {
            None
        }
    }

    /// As `only_state_changed`, but the grid bookkeeping may have advanced.
    pub closed spec fn only_state_changed_except_step(self, other: Simulation) -> bool {
        &&& self.simulation_type == other.simulation_type
        &&& self.rule == other.rule
        &&& self.seed == other.seed
        &&& self.size == other.size
    }

    /// The per-frame protocol, after the frame has been presented: record
    /// the frame with the pacer, fold a fresh rate sample into the
    /// authoritative state if one is due, then plan as many steps as the
    /// pacer's budget allows while the simulation is not paused. The number
    /// of planned steps never exceeds the pacer's per-frame ceiling, and a
    /// paused simulation plans none.
    pub fn advance_frame(&mut self, time: &mut Time) -> (plans: Vec<StepPlan>)
        requires
            old(self).wf(),
            old(self).spec_generation() + old(time).spec_target_updates_per_frame() <= usize::MAX,
        ensures
            final(self).wf(),
            old(self).only_state_changed_except_step(*final(self)),
            Time::same_config(*final(time), *old(time)),
            plans@.len() <= final(time).spec_target_updates_per_frame(),
            old(self).spec_sim_state().paused ==> plans@.len() == 0,
            final(self).spec_generation() == old(self).spec_generation() + plans@.len(),
            final(self).spec_sim_state().paused == old(self).spec_sim_state().paused,
            forall|i: int|
                0 <= i < plans@.len() ==> #[trigger] plans@[i] == spec_step_plan(
                    old(self).spec_simulation_type(),
                    old(self).spec_rule(),
                    old(self).spec_size(),
                    old(self).spec_generation() + i,
                ),
            plans@.len() > 0
                ==> final(self).spec_sim_state().generations == final(self).spec_generation(),
            plans@.len() == 0
                ==> final(self).spec_sim_state().generations
                == old(self).spec_sim_state().generations,
            (final(self).spec_sim_state().fps == old(self).spec_sim_state().fps
                && final(self).spec_sim_state().ups == old(self).spec_sim_state().ups)
                || (final(self).spec_sim_state().fps == rate_per_sec(
                old(time).spec_frames_since_fps_check().saturating_add(1),
                old(time).spec_fps_update_duration(),
            ) && final(self).spec_sim_state().ups == rate_per_sec(
                old(time).spec_updates_since_fps_check(),
                old(time).spec_fps_update_duration(),
            )),
    {
        time.render_tick();
        match time.get_fps() {
            Some(f) => {
                self.sim_state.fps = f.render_fps;
                self.sim_state.ups = f.update_fps;
            },
            None => {},
        }
        let ghost start = *self;
        let mut plans: Vec<StepPlan> = Vec::new();
        while time.can_update() && !self.sim_state.paused
            invariant
                self.wf(),
                start.only_state_changed_except_step(*self),
                Time::same_config(*time, *old(time)),
                (self.spec_sim_state().fps == old(self).spec_sim_state().fps
                    && self.spec_sim_state().ups == old(self).spec_sim_state().ups) || (
                self.spec_sim_state().fps == rate_per_sec(
                    old(time).spec_frames_since_fps_check().saturating_add(1),
                    old(time).spec_fps_update_duration(),
                ) && self.spec_sim_state().ups == rate_per_sec(
                    old(time).spec_updates_since_fps_check(),
                    old(time).spec_fps_update_duration(),
                )),
                start.spec_generation() + time.spec_target_updates_per_frame() <= usize::MAX,
                time.spec_updates_this_frame() == plans@.len(),
                plans@.len() <= time.spec_target_updates_per_frame(),
                self.spec_generation() == start.spec_generation() + plans@.len(),
                self.spec_sim_state().paused == start.spec_sim_state().paused,
                start.spec_sim_state().paused ==> plans@.len() == 0,
                forall|i: int|
                    0 <= i < plans@.len() ==> #[trigger] plans@[i] == spec_step_plan(
                        start.spec_simulation_type(),
                        start.spec_rule(),
                        start.size,
                        start.spec_generation() + i,
                    ),
                plans@.len() > 0 ==> self.spec_sim_state().generations == self.spec_generation(),
                plans@.len() == 0 ==> self.spec_sim_state() == start.spec_sim_state(),
            decreases time.spec_target_updates_per_frame() - time.spec_updates_this_frame(),
        {
            let plan = self.do_step();
            plans.push(plan);
            time.update_tick();
        }
        plans
    }

    /// One frame-sync cycle between the controller and the GUI-owned state
    /// copy: the controller adopts the GUI's pause flag, and the GUI copy
    /// receives the controller's rates and generation counter. No other
    /// field moves in either direction; in particular the controller never
    /// writes the pause flag.
    pub fn sync_state_from_gui(&mut self, gui: &mut SimulationState)
        ensures
            final(self).spec_sim_state().paused == old(gui).paused,
            final(self).spec_sim_state().fps == old(self).spec_sim_state().fps,
            final(self).spec_sim_state().ups == old(self).spec_sim_state().ups,
            final(self).spec_sim_state().generations == old(self).spec_sim_state().generations,
            final(gui).paused == old(gui).paused,
            final(gui).fps == old(self).spec_sim_state().fps,
            final(gui).ups == old(self).spec_sim_state().ups,
            final(gui).generations == old(self).spec_sim_state().generations,
            old(self).only_state_changed(*final(self)),
            old(self).wf() ==> final(self).wf(),
    {
        self.sim_state.paused = gui.paused;
        gui.fps = self.sim_state.fps;
        gui.ups = self.sim_state.ups;
        gui.generations = self.sim_state.generations;
    }
}

/// The bytes of a rule string argument.
pub open spec fn rstr_bytes(s: &str) -> Seq<u8> {
    s.spec_bytes()
}

/// `rule`'s born table matches the born digits of the rule string `s`.
pub open spec fn valid_born_table(rule: Rule, s: Seq<u8>) -> bool {
    forall|d: int|
        1 <= d <= 8 ==> #[trigger] rule.born@[d - 1] == (if crate::rule::born_contains(s, d) {
            1u32
        } else {
            0u32
        })
}

/// `rule`'s stay-alive table matches the survive digits of the rule string
/// `s`.
pub open spec fn valid_survive_table(rule: Rule, s: Seq<u8>) -> bool {
    forall|d: int|
        1 <= d <= 8 ==> #[trigger] rule.stay_alive@[d - 1] == (if crate::rule::survive_contains(
            s,
            d,
        ) {
            1u32
        } else {
            0u32
        })
}

} // verus!
