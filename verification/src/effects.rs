//! The roster of post-processing effects and the one that is active.

use crate::geometry::Extent;
use vstd::prelude::*;

verus! {

/// Width of one glyph tile of the sprite sheet, in pixels.
pub const TILE_WIDTH: u32 = 8;

/// Height of one glyph tile of the sprite sheet, in pixels.
pub const TILE_HEIGHT: u32 = 16;

/// The kinds of effect, each with what it needs at bind time.
#[derive(Clone, Copy, Debug, PartialEq, Eq, Structural)]
pub enum ShaderType {
    /// A pixel program that reads the extended surface and nothing else.
    Simple,
    /// The tile effect: a pixel program that also reads a sprite sheet and
    /// a per-tile brightness lookup, and takes its own uniform block.
    Tiles { sheet_width: u32, sheet_height: u32, tiles_per_row: u32, total_tiles: usize },
}

impl ShaderType {
    /// The tile effect over a sprite sheet of size `sheet`, as a
    /// mathematical statement: the sheet is cut into whole tiles of
    /// [`TILE_WIDTH`] by [`TILE_HEIGHT`] pixels, counted row by row.
    pub open spec fn tiles_of(sheet: Extent) -> ShaderType {
        ShaderType::Tiles {
            sheet_width: sheet.width,
            sheet_height: sheet.height,
            tiles_per_row: sheet.width / TILE_WIDTH,
            total_tiles: ((sheet.width / TILE_WIDTH) * (sheet.height / TILE_HEIGHT)) as usize,
        }
    }

    /// Whether the uniform block of the effect can state its numbers: the
    /// tile counts are passed as signed 32-bit integers.
    pub open spec fn bindable(self) -> bool {
        match self {
            ShaderType::Simple => true,
            ShaderType::Tiles { tiles_per_row, total_tiles, .. } => tiles_per_row <= i32::MAX
                && total_tiles <= i32::MAX,
        }
    }

    /// Number of resources the effect reads: the extended surface, and for
    /// the tile effect the sprite sheet and the brightness lookup as well.
    pub open spec fn input_count(self) -> int {
        match self {
            ShaderType::Simple => 1,
            ShaderType::Tiles { .. } => 3,
        }
    }

    /// The tile effect over a sprite sheet of size `sheet`; `None` when the
    /// sheet holds more tiles than the effect can count.
    pub fn tiles(sheet: Extent) -> (t: Option<ShaderType>)
        ensures
            t is Some <==> (sheet.width / TILE_WIDTH) * (sheet.height / TILE_HEIGHT) <= i32::MAX,
            t matches Some(s) ==> s == ShaderType::tiles_of(sheet) && s.bindable(),
    {
        let per_row: u32 = sheet.width / TILE_WIDTH;
        let per_col: u32 = sheet.height / TILE_HEIGHT;
        assert(per_row * per_col <= 0x1fff_ffff * 0x0fff_ffff) by (nonlinear_arith)
            requires
                0 <= per_row <= 0x1fff_ffff,
                0 <= per_col <= 0x0fff_ffff,
        ;
        let total: u64 = per_row as u64 * per_col as u64;
        if total <= i32::MAX as u64 {
            Some(
                ShaderType::Tiles {
                    sheet_width: sheet.width,
                    sheet_height: sheet.height,
                    tiles_per_row: per_row,
                    total_tiles: total as usize,
                },
            )
        } else {
            None
        }
    }

    /// Whether the uniform block of the effect can state its numbers.
    pub fn is_bindable(&self) -> (b: bool)
        ensures
            b == self.bindable(),
    {
        match self {
            ShaderType::Simple => true,
            ShaderType::Tiles { tiles_per_row, total_tiles, .. } => *tiles_per_row <= 0x7fff_ffff
                && *total_tiles <= 0x7fff_ffff,
        }
    }
}

/// One entry of the roster.
#[derive(Clone, Debug, PartialEq, Eq)]
pub struct PixelShaderConfig {
    pub name: String,
    pub shader_type: ShaderType,
}

/// The roster as a mathematical value: the entries in their fixed order,
/// and the index of the active one.
pub struct Roster {
    pub entries: Seq<PixelShaderConfig>,
    pub current: int,
}

impl Roster {
    /// The roster after a request to make entry `index` the active one: a
    /// request for an index past the end changes nothing.
    pub open spec fn selected(self, index: int) -> Roster {
        if 0 <= index < self.entries.len() {
            Roster { entries: self.entries, current: index }
        } else {
            self
        }
    }

    /// Exactly one entry is active, and every entry can be bound.
    pub open spec fn valid(self) -> bool {
        &&& 0 <= self.current < self.entries.len()
        &&& forall|i: int|
            0 <= i < self.entries.len() ==> (#[trigger] self.entries[i]).shader_type.bindable()
    }

    pub open spec fn active(self) -> PixelShaderConfig {
        self.entries[self.current]
    }
}

/// The effects in their fixed order, one of them active.
pub struct ShaderLibrary {
    shaders: Vec<PixelShaderConfig>,
    current: usize,
}

impl View for ShaderLibrary {
    type V = Roster;

    closed spec fn view(&self) -> Roster {
        Roster { entries: self.shaders@, current: self.current as int }
    }
}

impl ShaderLibrary {
    /// What holds of every roster: one entry is active, and every entry
    /// can be bound.
    #[verifier::type_invariant]
    pub open spec fn inv(self) -> bool {
        self@.valid()
    }

    /// A roster of `shaders` with entry `initial` active. `None` when
    /// `initial` names no entry or an entry cannot be bound.
    pub fn new(shaders: Vec<PixelShaderConfig>, initial: usize) -> (lib: Option<ShaderLibrary>)
        ensures
            lib is Some <==> (Roster { entries: shaders@, current: initial as int }).valid(),
            lib matches Some(l) ==> l@ == (Roster { entries: shaders@, current: initial as int }),
    {
        if initial >= shaders.len() {
            return None;
        }
        let mut i: usize = 0;
        while i < shaders.len()
            invariant
                0 <= i <= shaders.len(),
                forall|k: int| 0 <= k < i ==> (#[trigger] shaders@[k]).shader_type.bindable(),
            decreases shaders.len() - i,
        {
            if !shaders[i].shader_type.is_bindable() {
                return None;
            }
            i = i + 1;
        }
        Some(ShaderLibrary { shaders, current: initial })
    }

    /// Number of effects.
    pub fn len(&self) -> (n: usize)
        ensures
            n == self@.entries.len(),
            n > 0,
    {
        proof {
            use_type_invariant(self);
        }
        self.shaders.len()
    }

    /// Index of the active effect.
    pub fn current(&self) -> (i: usize)
        ensures
            i == self@.current,
            i < self@.entries.len(),
    {
        proof {
            use_type_invariant(self);
        }
        self.current
    }

    /// The active effect.
    pub fn active(&self) -> (entry: &PixelShaderConfig)
        ensures
            *entry == self@.active(),
            entry.shader_type.bindable(),
    {
        proof {
            use_type_invariant(self);
        }
        &self.shaders[self.current]
    }

    /// The effect at `index`, if there is one.
    pub fn get(&self, index: usize) -> (entry: Option<&PixelShaderConfig>)
        ensures
            entry is Some <==> index < self@.entries.len(),
            entry matches Some(e) ==> *e == self@.entries[index as int]
                && e.shader_type.bindable(),
    {
        proof {
            use_type_invariant(self);
        }
        if index < self.shaders.len() {
            Some(&self.shaders[index])
        } else {
            None
        }
    }

    /// Makes the effect at `index` the active one, at once. An index past
    /// the end is ignored: the active effect stays. Returns whether `index`
    /// named an effect.
    pub fn select(&mut self, index: usize) -> (switched: bool)
        ensures
            final(self)@ == old(self)@.selected(index as int),
            final(self)@.entries == old(self)@.entries,
            switched == (index < old(self)@.entries.len()),
            switched ==> final(self)@.current == index,
            !switched ==> final(self)@ == old(self)@,
        no_unwind
    {
        proof {
            use_type_invariant(&*self);
        }
        if index < self.shaders.len() {
            self.current = index;
            true
        } else {
            false
        }
    }
}

/// Selecting is bounds-safe and idempotent: an index past the end of the
/// roster leaves the active effect as it was, an index within it becomes
/// the active one, the entries never change, a valid roster stays valid,
/// and selecting the same index again changes nothing more.
pub proof fn lemma_select_idempotent_and_bounds_safe(roster: Roster, index: int)
    ensures
        index >= roster.entries.len() ==> roster.selected(index) == roster,
        0 <= index < roster.entries.len() ==> roster.selected(index).current == index,
        roster.selected(index).entries == roster.entries,
        roster.valid() ==> roster.selected(index).valid(),
        roster.selected(index).selected(index) == roster.selected(index),
{
}

/// The uniform block of the tile effect.
#[derive(Clone, Copy, Debug, PartialEq, Eq, Structural)]
pub struct TilesConstants {
    /// Size of the extended surface the effect reads.
    pub source_resolution: Extent,
    /// Size of one tile.
    pub tile_size: Extent,
    pub tiles_per_row: i32,
    pub total_tiles: i32,
    /// Size of the sprite sheet.
    pub spritesheet_resolution: Extent,
}

/// What to bind for the active effect.
#[derive(Clone, Copy, Debug, PartialEq, Eq, Structural)]
pub enum BindPlan {
    /// The extended surface as the only input.
    Simple,
    /// The extended surface, the sprite sheet and the brightness lookup as
    /// inputs, and the uniform block refreshed with these values.
    Tiles(TilesConstants),
}

impl BindPlan {
    /// What to bind for an effect of kind `shader` that reads an extended
    /// surface of size `extended`.
    pub open spec fn of(shader: ShaderType, extended: Extent) -> BindPlan {
        match shader {
            ShaderType::Simple => BindPlan::Simple,
            ShaderType::Tiles { sheet_width, sheet_height, tiles_per_row, total_tiles } => {
                BindPlan::Tiles(
                    TilesConstants {
                        source_resolution: extended,
                        tile_size: Extent { width: TILE_WIDTH, height: TILE_HEIGHT },
                        tiles_per_row: tiles_per_row as i32,
                        total_tiles: total_tiles as i32,
                        spritesheet_resolution: Extent { width: sheet_width, height: sheet_height },
                    },
                )
            },
        }
    }

    /// Number of resources bound as inputs.
    pub open spec fn input_count(self) -> int {
        match self {
            BindPlan::Simple => 1,
            BindPlan::Tiles(_) => 3,
        }
    }

    /// What to bind for an effect of kind `shader` that reads an extended
    /// surface of size `extended`; `None` when the effect's numbers do not
    /// fit its uniform block.
    pub fn for_shader(shader: &ShaderType, extended: Extent) -> (plan: Option<BindPlan>)
        ensures
            plan is Some <==> shader.bindable(),
            plan matches Some(b) ==> b == BindPlan::of(*shader, extended) && b.input_count()
                == shader.input_count(),
            plan matches Some(BindPlan::Tiles(c)) ==> shader matches ShaderType::Tiles {
                tiles_per_row,
                total_tiles,
                ..
            } && c.tiles_per_row == tiles_per_row && c.total_tiles == total_tiles,
    {
        match shader {
            ShaderType::Simple => Some(BindPlan::Simple),
            ShaderType::Tiles { sheet_width, sheet_height, tiles_per_row, total_tiles } => {
                if *tiles_per_row <= 0x7fff_ffff && *total_tiles <= 0x7fff_ffff {
                    Some(
                        BindPlan::Tiles(
                            TilesConstants {
                                source_resolution: extended,
                                tile_size: Extent { width: TILE_WIDTH, height: TILE_HEIGHT },
                                tiles_per_row: *tiles_per_row as i32,
                                total_tiles: *total_tiles as i32,
                                spritesheet_resolution: Extent {
                                    width: *sheet_width,
                                    height: *sheet_height,
                                },
                            },
                        ),
                    )
                } else {
                    None
                }
            },
        }
    }
}

/// The pipeline stage a program runs in.
#[derive(Clone, Copy, Debug, PartialEq, Eq, Structural)]
pub enum ShaderStage {
    Vertex,
    Pixel,
    Compute,
}

/// One program to compile at startup.
#[derive(Clone, Copy, Debug)]
pub struct CompileJob {
    pub name: &'static str,
    pub stage: ShaderStage,
    /// The target profile handed to the compiler.
    pub profile: &'static str,
}

/// Number of programs compiled at startup.
pub const COMPILE_JOBS: usize = 7;

/// Number of effects in the standard roster.
pub const STANDARD_EFFECTS: usize = 5;

/// Index of the effect that is active at startup.
pub const INITIAL_EFFECT: usize = 1;

/// Name of the compile job at `index` of the startup plan.
pub open spec fn job_name(index: int) -> Seq<char> {
    if index == 0 {
        "vertex"@
    } else if index == 1 {
        "passthru"@
    } else if index == 2 {
        "wobbly"@
    } else if index == 3 {
        "lightning"@
    } else if index == 4 {
        "sorty"@
    } else if index == 5 {
        "tiles"@
    } else {
        "extend"@
    }
}

/// Stage of the compile job at `index` of the startup plan.
pub open spec fn job_stage(index: int) -> ShaderStage {
    if index == 0 {
        ShaderStage::Vertex
    } else if index <= 5 {
        ShaderStage::Pixel
    } else {
        ShaderStage::Compute
    }
}

/// Target profile of the compile job at `index` of the startup plan: the
/// tile effect and the compute program need shader model 5.
pub open spec fn job_profile(index: int) -> Seq<char> {
    if index == 0 {
        "vs_4_0"@
    } else if index <= 4 {
        "ps_4_0"@
    } else if index == 5 {
        "ps_5_0"@
    } else {
        "cs_5_0"@
    }
}

/// The programs to compile at startup, in order: the vertex program, the
/// five effects in roster order, and the compute program of the extend
/// pass. Every one of them has the entry point `main`.
pub fn compile_plan() -> (plan: Vec<CompileJob>)
    ensures
        plan@.len() == COMPILE_JOBS,
        forall|i: int|
            0 <= i < plan@.len() ==> (#[trigger] plan@[i]).name@ == job_name(i) && plan@[i].stage
                == job_stage(i) && plan@[i].profile@ == job_profile(i),
{
    let mut plan: Vec<CompileJob> = Vec::new();
    plan.push(CompileJob { name: "vertex", stage: ShaderStage::Vertex, profile: "vs_4_0" });
    plan.push(CompileJob { name: "passthru", stage: ShaderStage::Pixel, profile: "ps_4_0" });
    plan.push(CompileJob { name: "wobbly", stage: ShaderStage::Pixel, profile: "ps_4_0" });
    plan.push(CompileJob { name: "lightning", stage: ShaderStage::Pixel, profile: "ps_4_0" });
    plan.push(CompileJob { name: "sorty", stage: ShaderStage::Pixel, profile: "ps_4_0" });
    plan.push(CompileJob { name: "tiles", stage: ShaderStage::Pixel, profile: "ps_5_0" });
    plan.push(CompileJob { name: "extend", stage: ShaderStage::Compute, profile: "cs_5_0" });
    plan
}

/// Why the roster could not be put together at startup.
#[derive(Clone, Copy, Debug, PartialEq, Eq, Structural)]
pub enum StartupError {
    /// The outcomes do not cover the compile plan.
    OutcomesMissing,
    /// The program at this index of the compile plan did not compile.
    CompileFailed { job: usize },
    /// The sprite sheet holds more tiles than the tile effect can count.
    SheetTooLarge,
}

/// Whether `job` is the first compile job that failed.
pub open spec fn is_first_failure(compiled: Seq<bool>, job: int) -> bool {
    &&& 0 <= job < compiled.len()
    &&& !compiled[job]
    &&& forall|k: int| 0 <= k < job ==> compiled[k]
}

/// Whether every compile job succeeded.
pub open spec fn all_compiled(compiled: Seq<bool>) -> bool {
    forall|k: int| 0 <= k < compiled.len() ==> compiled[k]
}

/// Whether the tile effect can count the tiles of a sheet of size `sheet`.
pub open spec fn sheet_fits(sheet: Extent) -> bool {
    (sheet.width / TILE_WIDTH) * (sheet.height / TILE_HEIGHT) <= i32::MAX
}

/// Whether `roster` is the standard roster over a sprite sheet of size
/// `sheet`: the five effects by name and kind, in order, the second active.
pub open spec fn is_standard_roster(roster: Roster, sheet: Extent) -> bool {
    &&& roster.entries.len() == STANDARD_EFFECTS
    &&& roster.current == INITIAL_EFFECT
    &&& forall|i: int|
        0 <= i < STANDARD_EFFECTS ==> (#[trigger] roster.entries[i]).name@ == job_name(i + 1)
            && roster.entries[i].shader_type == (if i == 4 {
            ShaderType::tiles_of(sheet)
        } else {
            ShaderType::Simple
        })
}

impl ShaderLibrary {
    /// What to bind for the active effect when it reads an extended surface
    /// of size `extended`.
    pub fn bind_plan(&self, extended: Extent) -> (plan: BindPlan)
        ensures
            plan == BindPlan::of(self@.active().shader_type, extended),
            plan.input_count() == self@.active().shader_type.input_count(),
            plan matches BindPlan::Tiles(c) ==> self@.active().shader_type matches ShaderType::Tiles {
                tiles_per_row,
                total_tiles,
                ..
            } && c.tiles_per_row == tiles_per_row && c.total_tiles == total_tiles,
    {
        proof {
            use_type_invariant(self);
        }
        match self.shaders[self.current].shader_type {
            ShaderType::Simple => BindPlan::Simple,
            ShaderType::Tiles { sheet_width, sheet_height, tiles_per_row, total_tiles } => {
                BindPlan::Tiles(
                    TilesConstants {
                        source_resolution: extended,
                        tile_size: Extent { width: TILE_WIDTH, height: TILE_HEIGHT },
                        tiles_per_row: tiles_per_row as i32,
                        total_tiles: total_tiles as i32,
                        spritesheet_resolution: Extent { width: sheet_width, height: sheet_height },
                    },
                )
            },
        }
    }

    /// Puts the standard roster together once every program of the compile
    /// plan has been tried; `compiled` says for each job, in plan order,
    /// whether it compiled. One failure fails the whole: there is no partial
    /// roster.
    pub fn assemble(compiled: &Vec<bool>, sheet: Extent) -> (r: Result<
        ShaderLibrary,
        StartupError,
    >)
        ensures
            match r {
                Ok(lib) => compiled@.len() == COMPILE_JOBS && all_compiled(compiled@)
                    && sheet_fits(sheet) && is_standard_roster(lib@, sheet),
                Err(StartupError::OutcomesMissing) => compiled@.len() != COMPILE_JOBS,
                Err(StartupError::CompileFailed { job }) => compiled@.len() == COMPILE_JOBS
                    && is_first_failure(compiled@, job as int),
                Err(StartupError::SheetTooLarge) => compiled@.len() == COMPILE_JOBS
                    && all_compiled(compiled@) && !sheet_fits(sheet),
            },
    {
        if compiled.len() != COMPILE_JOBS {
            return Err(StartupError::OutcomesMissing);
        }
        let mut job: usize = 0;
        while job < compiled.len()
            invariant
                0 <= job <= compiled@.len(),
                compiled@.len() == COMPILE_JOBS,
                forall|k: int| 0 <= k < job ==> compiled@[k],
            decreases compiled@.len() - job,
        {
            if !compiled[job] {
                return Err(StartupError::CompileFailed { job });
            }
            job = job + 1;
        }
        let tiles = match ShaderType::tiles(sheet) {
            Some(t) => t,
            None => {
                return Err(StartupError::SheetTooLarge);
            },
        };
        let mut shaders: Vec<PixelShaderConfig> = Vec::new();
        shaders.push(
            PixelShaderConfig { name: "passthru".to_owned(), shader_type: ShaderType::Simple },
        );
        shaders.push(
            PixelShaderConfig { name: "wobbly".to_owned(), shader_type: ShaderType::Simple },
        );
        shaders.push(
            PixelShaderConfig { name: "lightning".to_owned(), shader_type: ShaderType::Simple },
        );
        shaders.push(
            PixelShaderConfig { name: "sorty".to_owned(), shader_type: ShaderType::Simple },
        );
        shaders.push(PixelShaderConfig { name: "tiles".to_owned(), shader_type: tiles });
        Ok(ShaderLibrary { shaders, current: INITIAL_EFFECT })
    }
}

} // verus!
