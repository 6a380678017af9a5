use scrimshady::effects::{
    compile_plan, BindPlan, PixelShaderConfig, ShaderLibrary, ShaderStage, ShaderType,
    StartupError, TilesConstants, COMPILE_JOBS, INITIAL_EFFECT, STANDARD_EFFECTS, TILE_HEIGHT,
    TILE_WIDTH,
};
use scrimshady::geometry::Extent;

fn simple(name: &str) -> PixelShaderConfig {
    PixelShaderConfig { name: name.to_string(), shader_type: ShaderType::Simple }
}

fn standard() -> ShaderLibrary {
    ShaderLibrary::assemble(&vec![true; 7], Extent::new(128, 256)).unwrap()
}

#[test]
fn tile_size_is_eight_by_sixteen() {
    assert_eq!(TILE_WIDTH, 8);
    assert_eq!(TILE_HEIGHT, 16);
}

#[test]
fn tile_effect_counts_whole_tiles() {
    assert_eq!(
        ShaderType::tiles(Extent::new(128, 256)),
        Some(ShaderType::Tiles {
            sheet_width: 128,
            sheet_height: 256,
            tiles_per_row: 16,
            total_tiles: 256,
        })
    );
    assert_eq!(
        ShaderType::tiles(Extent::new(135, 271)),
        Some(ShaderType::Tiles {
            sheet_width: 135,
            sheet_height: 271,
            tiles_per_row: 16,
            total_tiles: 256,
        })
    );
    assert_eq!(
        ShaderType::tiles(Extent::new(7, 15)),
        Some(ShaderType::Tiles { sheet_width: 7, sheet_height: 15, tiles_per_row: 0, total_tiles: 0 })
    );
}

#[test]
fn tile_effect_refuses_a_sheet_with_too_many_tiles() {
    assert_eq!(ShaderType::tiles(Extent::new(u32::MAX, u32::MAX)), None);
    // 2^31 tiles are one too many, 2^31 - 2^15 are not.
    assert_eq!(ShaderType::tiles(Extent::new(8 << 16, 16 << 15)), None);
    assert!(ShaderType::tiles(Extent::new(8 << 16, (16 << 15) - 16)).is_some());
}

#[test]
fn bindable_kinds() {
    assert!(ShaderType::Simple.is_bindable());
    let fits = ShaderType::Tiles {
        sheet_width: 1,
        sheet_height: 1,
        tiles_per_row: i32::MAX as u32,
        total_tiles: i32::MAX as usize,
    };
    assert!(fits.is_bindable());
    let row_too_long = ShaderType::Tiles {
        sheet_width: 1,
        sheet_height: 1,
        tiles_per_row: i32::MAX as u32 + 1,
        total_tiles: 0,
    };
    assert!(!row_too_long.is_bindable());
    let too_many = ShaderType::Tiles {
        sheet_width: 1,
        sheet_height: 1,
        tiles_per_row: 0,
        total_tiles: i32::MAX as usize + 1,
    };
    assert!(!too_many.is_bindable());
}

#[test]
fn library_needs_an_active_entry() {
    assert!(ShaderLibrary::new(Vec::new(), 0).is_none());
    assert!(ShaderLibrary::new(vec![simple("a"), simple("b")], 2).is_none());
    let lib = ShaderLibrary::new(vec![simple("a"), simple("b")], 1).unwrap();
    assert_eq!(lib.len(), 2);
    assert_eq!(lib.current(), 1);
    assert_eq!(lib.active(), &simple("b"));
}

#[test]
fn library_refuses_an_entry_that_cannot_be_bound() {
    let bad = PixelShaderConfig {
        name: "bad".to_string(),
        shader_type: ShaderType::Tiles {
            sheet_width: 1,
            sheet_height: 1,
            tiles_per_row: u32::MAX,
            total_tiles: 1,
        },
    };
    assert!(ShaderLibrary::new(vec![simple("a"), bad], 0).is_none());
}

#[test]
fn select_within_the_roster_switches_at_once() {
    let mut lib = standard();
    for k in 0..5 {
        assert!(lib.select(k));
        assert_eq!(lib.current(), k);
        assert_eq!(lib.len(), 5);
    }
}

#[test]
fn select_out_of_range_is_ignored() {
    let mut lib = standard();
    assert!(lib.select(3));
    for k in [5usize, 6, 9, 100, usize::MAX] {
        assert!(!lib.select(k));
        assert_eq!(lib.current(), 3);
        assert_eq!(lib.active().name, "sorty");
    }
}

#[test]
fn select_is_idempotent() {
    let mut lib = standard();
    assert!(lib.select(2));
    let once = (lib.current(), lib.active().clone());
    assert!(lib.select(2));
    assert_eq!((lib.current(), lib.active().clone()), once);
}

#[test]
fn get_is_bounds_checked() {
    let lib = standard();
    assert_eq!(lib.get(0), Some(&simple("passthru")));
    assert_eq!(lib.get(4).map(|e| e.name.as_str()), Some("tiles"));
    assert_eq!(lib.get(5), None);
    assert_eq!(lib.get(usize::MAX), None);
}

#[test]
fn standard_roster_in_fixed_order() {
    let lib = standard();
    assert_eq!(STANDARD_EFFECTS, 5);
    assert_eq!(INITIAL_EFFECT, 1);
    assert_eq!(lib.len(), 5);
    assert_eq!(lib.current(), 1);
    assert_eq!(lib.active().name, "wobbly");
    let names: Vec<&str> = (0..5).map(|i| lib.get(i).unwrap().name.as_str()).collect();
    assert_eq!(names, vec!["passthru", "wobbly", "lightning", "sorty", "tiles"]);
    for i in 0..4 {
        assert_eq!(lib.get(i).unwrap().shader_type, ShaderType::Simple);
    }
    assert_eq!(
        lib.get(4).unwrap().shader_type,
        ShaderType::Tiles {
            sheet_width: 128,
            sheet_height: 256,
            tiles_per_row: 16,
            total_tiles: 256,
        }
    );
}

#[test]
fn one_failed_compile_fails_the_roster() {
    for job in 0..7 {
        let mut compiled = vec![true; 7];
        compiled[job] = false;
        match ShaderLibrary::assemble(&compiled, Extent::new(128, 256)) {
            Err(e) => assert_eq!(e, StartupError::CompileFailed { job }),
            Ok(_) => panic!("a roster without job {}", job),
        }
    }
}

#[test]
fn first_failed_compile_is_reported() {
    let compiled = vec![true, true, false, true, false, false, true];
    match ShaderLibrary::assemble(&compiled, Extent::new(128, 256)) {
        Err(e) => assert_eq!(e, StartupError::CompileFailed { job: 2 }),
        Ok(_) => panic!("a partial roster"),
    }
}

#[test]
fn outcomes_have_to_cover_the_plan() {
    assert_eq!(COMPILE_JOBS, 7);
    for n in [0usize, 1, 6, 8] {
        match ShaderLibrary::assemble(&vec![true; n], Extent::new(128, 256)) {
            Err(e) => assert_eq!(e, StartupError::OutcomesMissing),
            Ok(_) => panic!("a roster from {} outcomes", n),
        }
    }
}

#[test]
fn sheet_too_large_fails_the_roster() {
    match ShaderLibrary::assemble(&vec![true; 7], Extent::new(u32::MAX, u32::MAX)) {
        Err(e) => assert_eq!(e, StartupError::SheetTooLarge),
        Ok(_) => panic!("a roster over a sheet that cannot be counted"),
    }
}

#[test]
fn compile_plan_lists_seven_programs() {
    let plan = compile_plan();
    assert_eq!(plan.len(), 7);
    let names: Vec<&str> = plan.iter().map(|j| j.name).collect();
    assert_eq!(names, vec!["vertex", "passthru", "wobbly", "lightning", "sorty", "tiles", "extend"]);
    let profiles: Vec<&str> = plan.iter().map(|j| j.profile).collect();
    assert_eq!(
        profiles,
        vec!["vs_4_0", "ps_4_0", "ps_4_0", "ps_4_0", "ps_4_0", "ps_5_0", "cs_5_0"]
    );
    assert_eq!(plan[0].stage, ShaderStage::Vertex);
    for job in &plan[1..6] {
        assert_eq!(job.stage, ShaderStage::Pixel);
    }
    assert_eq!(plan[6].stage, ShaderStage::Compute);
}

#[test]
fn compile_plan_names_the_roster() {
    let plan = compile_plan();
    let lib = standard();
    for i in 0..lib.len() {
        assert_eq!(lib.get(i).unwrap().name, plan[i + 1].name);
    }
}

#[test]
fn simple_effect_binds_one_input() {
    assert_eq!(
        BindPlan::for_shader(&ShaderType::Simple, Extent::new(850, 600)),
        Some(BindPlan::Simple)
    );
}

#[test]
fn tile_effect_binds_its_constants() {
    let tiles = ShaderType::tiles(Extent::new(128, 256)).unwrap();
    assert_eq!(
        BindPlan::for_shader(&tiles, Extent::new(850, 600)),
        Some(BindPlan::Tiles(TilesConstants {
            source_resolution: Extent::new(850, 600),
            tile_size: Extent::new(8, 16),
            tiles_per_row: 16,
            total_tiles: 256,
            spritesheet_resolution: Extent::new(128, 256),
        }))
    );
}

#[test]
fn unbindable_effect_has_no_plan() {
    let bad = ShaderType::Tiles {
        sheet_width: 1,
        sheet_height: 1,
        tiles_per_row: u32::MAX,
        total_tiles: 1,
    };
    assert_eq!(BindPlan::for_shader(&bad, Extent::new(1, 1)), None);
}

#[test]
fn library_binds_the_active_effect() {
    let mut lib = standard();
    assert_eq!(lib.bind_plan(Extent::new(800, 600)), BindPlan::Simple);
    assert!(lib.select(4));
    assert_eq!(
        lib.bind_plan(Extent::new(850, 600)),
        BindPlan::Tiles(TilesConstants {
            source_resolution: Extent::new(850, 600),
            tile_size: Extent::new(8, 16),
            tiles_per_row: 16,
            total_tiles: 256,
            spritesheet_resolution: Extent::new(128, 256),
        })
    );
    assert!(lib.select(0));
    assert_eq!(lib.bind_plan(Extent::new(850, 600)), BindPlan::Simple);
}
