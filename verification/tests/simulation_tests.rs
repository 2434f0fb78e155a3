use gpu_automata::compute_textures::{read_write_indices, ComputeTextures};
use gpu_automata::error_window::ErrorWindow;
use gpu_automata::image_util::{ImageData, ImageUtil};
use gpu_automata::math::{IVec2, UVec2};
use gpu_automata::renderer::RenderParams;
use gpu_automata::rule::Rule;
use gpu_automata::simulation::{
    compute_work_group_count, RemakeError, SimParams, Simulation, SimulationState, SimulationType,
};
use gpu_automata::time::Time;
use gpu_automata::wgsl_preproc::WgslPreProcessor;

#[test]
fn read_write_swaps_by_parity() {
    assert_eq!(read_write_indices(0), (0, 1));
    assert_eq!(read_write_indices(1), (1, 0));
    assert_eq!(read_write_indices(2), (0, 1));
    assert_eq!(read_write_indices(3), (1, 0));
    for g in 0..16usize {
        assert_ne!(read_write_indices(g), read_write_indices(g + 1));
        let (r, w) = read_write_indices(g);
        assert_ne!(r, w);
    }
}

#[test]
fn tile_counts_cover_the_grid() {
    assert_eq!(compute_work_group_count(512, 512, 16, 16), (32, 32));
    assert_eq!(compute_work_group_count(17, 16, 16, 16), (2, 1));
    assert_eq!(compute_work_group_count(1, 8192, 16, 16), (1, 512));
    for dim in [1u32, 15, 16, 17, 100, 8191, 8192] {
        let (x, _) = compute_work_group_count(dim, 1, 16, 16);
        assert!(x * 16 >= dim);
        assert!(x * 16 < dim + 16);
    }
}

#[test]
fn padded_rows_align_to_256_bytes() {
    assert_eq!(ImageUtil::padded_bytes_per_row(64), 256);
    assert_eq!(ImageUtil::padded_bytes_per_row(100), 512);
    assert_eq!(ImageUtil::padded_bytes_per_row(1), 256);
    assert_eq!(ImageUtil::padded_bytes_per_row(128), 512);
    assert_eq!(ImageUtil::padded_bytes_per_row(192), 768);
}

#[test]
fn strip_row_padding_keeps_pixel_bytes() {
    // Two rows of one pixel each: each padded row is 256 bytes, of which the
    // first four are the pixel.
    let mut padded = vec![0u8; 512];
    padded[0] = 1;
    padded[1] = 2;
    padded[2] = 3;
    padded[3] = 4;
    padded[256] = 5;
    padded[257] = 6;
    padded[258] = 7;
    padded[259] = 8;
    padded[10] = 99; // padding bytes are dropped
    let img = ImageUtil::strip_row_padding(&padded, 1, 2);
    assert_eq!(img.size.x, 1);
    assert_eq!(img.size.y, 2);
    assert_eq!(img.data, vec![1, 2, 3, 4, 5, 6, 7, 8]);
}

#[test]
fn random_monochrome_pixels_are_black_or_white() {
    let img = ImageUtil::random_image_monochrome(4, 3);
    assert_eq!(img.size, IVec2::new(4, 3));
    assert_eq!(img.data.len(), 48);
    for px in img.data.chunks(4) {
        assert_eq!(px[0], px[1]);
        assert_eq!(px[1], px[2]);
        assert!(px[0] == 0 || px[0] == 255);
        assert_eq!(px[3], 255);
    }
}

#[test]
fn random_color_pixels_are_opaque() {
    let img = ImageUtil::random_image_color(5, 2);
    assert_eq!(img.data.len(), 40);
    for px in img.data.chunks(4) {
        assert_eq!(px[3], 255);
    }
}

#[test]
fn compute_textures_track_generation_parity() {
    let img = ImageData { size: IVec2::new(2, 2), data: vec![0u8; 16] };
    let mut t = ComputeTextures::new(&img);
    assert_eq!(t.get_current_frame(), 0);
    assert_eq!(t.get_read_write(), (0, 1));
    assert_eq!(t.get_read_texture(), 0);
    t.set_current_frame(1);
    assert_eq!(t.get_read_write(), (1, 0));
    assert_eq!(t.get_read_texture(), 1);
}

#[test]
fn replacement_image_targets_the_write_slot() {
    let img = ImageData { size: IVec2::new(2, 2), data: vec![0u8; 16] };
    let mut t = ComputeTextures::new(&img);
    // At generation 0 the write slot is surface 1; the read slot is never
    // the target.
    assert_eq!(t.set_image(&img), 1);
    t.set_current_frame(1);
    assert_eq!(t.set_image(&img), 0);
    assert_ne!(t.set_image(&img), t.get_read_texture());
}

#[test]
fn steps_swap_surfaces_and_count_generations() {
    let rule = Rule::from_rule_str("B3/S23").unwrap();
    let mut sim = Simulation::new(UVec2::new(32, 16), rule);
    assert_eq!(sim.current_surface(), 0);

    let plan = sim.do_step();
    assert_eq!(plan.read_index, 0);
    assert_eq!(plan.write_index, 1);
    assert_eq!(plan.workgroups_x, 2);
    assert_eq!(plan.workgroups_y, 1);
    match plan.params {
        SimParams::Totalistic(r) => {
            assert_eq!(r.born[2], 1);
            assert_eq!(r.born[0], 0);
            assert_eq!(r.stay_alive[1], 1);
            assert_eq!(r.stay_alive[2], 1);
        }
        SimParams::Continuous => panic!("rule-based step must carry the rule table"),
    }
    assert_eq!(sim.get_simulation_state_mut().generations, 1);
    assert_eq!(sim.current_surface(), 1);

    let plan2 = sim.do_step();
    assert_eq!(plan2.read_index, 1);
    assert_eq!(plan2.write_index, 0);
    assert_eq!(sim.get_simulation_state_mut().generations, 2);
}

#[test]
fn paused_simulation_plans_no_step() {
    let rule = Rule::from_rule_str("B3/S23").unwrap();
    let mut sim = Simulation::new(UVec2::new(16, 16), rule);
    sim.get_simulation_state_mut().paused = true;
    assert!(sim.step().is_none());
    assert_eq!(sim.get_simulation_state_mut().generations, 0);
    sim.get_simulation_state_mut().paused = false;
    assert!(sim.step().is_some());
    assert_eq!(sim.get_simulation_state_mut().generations, 1);
}

#[test]
fn advance_frame_respects_ceiling_and_pause() {
    let rule = Rule::from_rule_str("B3/S23").unwrap();
    let mut sim = Simulation::new(UVec2::new(16, 16), rule);
    let mut time = Time::new(5, 1_000_000_000, u64::MAX, 0);
    let plans = sim.advance_frame(&mut time);
    assert!(plans.len() <= 5);
    assert_eq!(sim.get_simulation_state_mut().generations as usize, plans.len());
    for (i, plan) in plans.iter().enumerate() {
        let expect = read_write_indices(i);
        assert_eq!(plan.read_index, expect.0);
        assert_eq!(plan.write_index, expect.1);
        assert_eq!(plan.workgroups_x, 1);
        assert_eq!(plan.workgroups_y, 1);
    }

    sim.get_simulation_state_mut().paused = true;
    let before = sim.get_simulation_state_mut().generations;
    let plans2 = sim.advance_frame(&mut time);
    assert!(plans2.is_empty());
    assert_eq!(sim.get_simulation_state_mut().generations, before);
}

#[test]
fn remake_is_transactional_on_bad_rule() {
    let rule = Rule::from_rule_str("B3/S23").unwrap();
    let mut sim = Simulation::new(UVec2::new(32, 32), rule);
    sim.do_step();
    sim.do_step();
    sim.do_step();
    let seed_before = sim.get_seed().data.clone();
    let size_before = sim.size;

    let err = sim
        .remake(UVec2::new(64, 64), SimulationType::Totalistic, "B0/S23")
        .unwrap_err();
    assert_eq!(err, RemakeError::RuleError);
    // Generation counter, grid size, seed contents and rule table are all
    // exactly as they were.
    assert_eq!(sim.get_simulation_state_mut().generations, 3);
    assert_eq!(sim.size, size_before);
    assert_eq!(sim.get_seed().data, seed_before);
    match sim.do_step().params {
        SimParams::Totalistic(r) => {
            assert_eq!(r.born[2], 1);
            assert_eq!(r.stay_alive[1], 1);
        }
        SimParams::Continuous => panic!("variant must be unchanged"),
    }
}

#[test]
fn remake_rebuilds_grid_and_resets_generation() {
    let rule = Rule::from_rule_str("B3/S23").unwrap();
    let mut sim = Simulation::new(UVec2::new(32, 32), rule);
    sim.do_step();
    sim.get_simulation_state_mut().paused = true;

    sim.remake(UVec2::new(64, 16), SimulationType::Totalistic, "B36/S23")
        .unwrap();
    assert_eq!(sim.get_simulation_state_mut().generations, 0);
    assert_eq!(sim.size, UVec2::new(64, 16));
    assert_eq!(sim.get_seed().data.len(), 4 * 64 * 16);
    // The pause flag survives a recreate.
    assert!(sim.get_simulation_state_mut().paused);
    match sim.do_step().params {
        SimParams::Totalistic(r) => {
            assert_eq!(r.born[2], 1);
            assert_eq!(r.born[5], 1);
        }
        SimParams::Continuous => panic!("rule-based recreate keeps the variant"),
    }
}

#[test]
fn remake_to_neural_uses_color_seed() {
    let rule = Rule::from_rule_str("B3/S23").unwrap();
    let mut sim = Simulation::new(UVec2::new(8, 8), rule);
    sim.remake(UVec2::new(8, 8), SimulationType::Neural, "").unwrap();
    assert_eq!(sim.get_simulation_state_mut().generations, 0);
    let plan = sim.do_step();
    match plan.params {
        SimParams::Continuous => {}
        SimParams::Totalistic(_) => panic!("filter variant binds no host-side rule table"),
    }
    for px in sim.get_seed().data.chunks(4) {
        assert_eq!(px[3], 255);
    }
}

#[test]
fn sync_moves_pause_in_and_stats_out() {
    let rule = Rule::from_rule_str("B3/S23").unwrap();
    let mut sim = Simulation::new(UVec2::new(16, 16), rule);
    sim.do_step();
    sim.do_step();
    {
        let state = sim.get_simulation_state_mut();
        state.fps = 60;
        state.ups = 120;
    }
    let mut gui = SimulationState::default();
    gui.paused = true;
    gui.fps = 7;
    gui.ups = 9;
    gui.generations = 99;

    sim.sync_state_from_gui(&mut gui);

    // The controller adopted the GUI's pause flag as it was before the cycle.
    assert!(sim.get_simulation_state_mut().paused);
    // The GUI copy shows the controller's values, and its pause flag is its
    // own.
    assert!(gui.paused);
    assert_eq!(gui.fps, 60);
    assert_eq!(gui.ups, 120);
    assert_eq!(gui.generations, 2);
}

#[test]
fn sync_does_not_write_pause_back() {
    let rule = Rule::from_rule_str("B3/S23").unwrap();
    let mut sim = Simulation::new(UVec2::new(16, 16), rule);
    sim.get_simulation_state_mut().paused = true;
    let mut gui = SimulationState::default();
    gui.paused = false;
    sim.sync_state_from_gui(&mut gui);
    // The GUI's (unpaused) choice wins; the controller never writes `paused`.
    assert!(!sim.get_simulation_state_mut().paused);
    assert!(!gui.paused);
}

#[test]
fn vector_accessors() {
    let v = IVec2::new(-3, 7);
    assert_eq!(v.as_slice(), [-3, 7]);
    let u = UVec2::new(4, 5);
    assert_eq!(u.x, 4);
    assert_eq!(u.y, 5);
    let p = RenderParams::new(IVec2::new(1920, 1080), IVec2::new(512, 512));
    assert_eq!(p.window_size, [1920, 1080]);
    assert_eq!(p.sim_size, [512, 512]);
}

#[test]
fn error_window_lifecycle() {
    let mut w = ErrorWindow::new("Simulation Creation Error", "Cause: Rule creation error.");
    assert!(!w.should_close());
    assert_eq!(w.heading().as_str(), "Simulation Creation Error");
    assert_eq!(w.error().as_str(), "Cause: Rule creation error.");
    w.close();
    assert!(w.should_close());
}

#[test]
fn preprocessor_keeps_its_root() {
    let p = WgslPreProcessor::new("./shaders");
    assert_eq!(p.root().as_str(), "./shaders");
}
