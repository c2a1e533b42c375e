use fractal_raster::config::{
    set_fractal, set_quality, set_view, Config, FractalParameter, FractalType, RenderQuality,
    ViewState,
};
use fractal_raster::policy::{
    get_dimensions, get_max_iterations, plan_render, root_index, RenderPlan, MAX_HEIGHT,
    MAX_WIDTH, PREVIEW_SCALE,
};

const ALL: [FractalType; 8] = [
    FractalType::Mandelbrot,
    FractalType::Julia,
    FractalType::BurningShip,
    FractalType::Newton,
    FractalType::RainbowNewtonSet,
    FractalType::Tricorn,
    FractalType::Phoenix,
    FractalType::Celtic,
];

#[test]
fn initial_configuration() {
    let c = Config::initial();
    assert_eq!(c.fractal, FractalType::Mandelbrot);
    assert_eq!(c.quality, RenderQuality::Preview);
    assert_eq!(f32::from_bits(c.view.center_x), 0.0);
    assert_eq!(f32::from_bits(c.view.center_y), 0.0);
    assert_eq!(f32::from_bits(c.view.zoom), 1.0);
    assert_eq!(f32::from_bits(c.parameter.re), -0.5);
    assert_eq!(f32::from_bits(c.parameter.im), 0.5);
}

#[test]
fn set_fractal_selects_each_family_by_id() {
    let mut c = Config::initial();
    for (id, kind) in ALL.iter().enumerate() {
        set_fractal(&mut c, id as u8);
        assert_eq!(c.fractal, *kind);
    }
}

#[test]
fn set_fractal_out_of_range_falls_back_to_mandelbrot() {
    for id in [8u8, 9, 100, 255] {
        let mut c = Config::initial();
        set_fractal(&mut c, 3);
        assert_eq!(c.fractal, FractalType::Newton);
        set_fractal(&mut c, id);
        assert_eq!(c.fractal, FractalType::Mandelbrot);
    }
}

#[test]
fn set_fractal_leaves_the_rest_alone() {
    let mut c = Config::initial();
    set_view(&mut c, 1, 2, 3);
    set_quality(&mut c, true);
    let before = c;
    set_fractal(&mut c, 6);
    assert_eq!(c.fractal, FractalType::Phoenix);
    assert_eq!(c.view, before.view);
    assert_eq!(c.quality, before.quality);
    assert_eq!(c.parameter, before.parameter);
}

#[test]
fn set_view_replaces_the_view_wholesale() {
    let mut c = Config::initial();
    set_fractal(&mut c, 1);
    set_view(&mut c, (-0.75f32).to_bits(), 0.1f32.to_bits(), 8.0f32.to_bits());
    assert_eq!(
        c.view,
        ViewState {
            center_x: (-0.75f32).to_bits(),
            center_y: 0.1f32.to_bits(),
            zoom: 8.0f32.to_bits()
        }
    );
    assert_eq!(c.fractal, FractalType::Julia);
    assert_eq!(c.quality, RenderQuality::Preview);
    assert_eq!(c.parameter, FractalParameter { re: 0xBF00_0000, im: 0x3F00_0000 });
}

#[test]
fn set_quality_maps_the_flag() {
    let mut c = Config::initial();
    set_quality(&mut c, true);
    assert_eq!(c.quality, RenderQuality::Full);
    set_quality(&mut c, false);
    assert_eq!(c.quality, RenderQuality::Preview);
    assert_eq!(c.fractal, FractalType::Mandelbrot);
    assert_eq!(c.view, Config::initial().view);
}

#[test]
fn convergence_families() {
    for kind in ALL {
        let convergence = matches!(kind, FractalType::Newton | FractalType::RainbowNewtonSet);
        assert_eq!(kind.is_convergence(), convergence);
    }
}

#[test]
fn dimensions_per_quality() {
    assert_eq!(get_dimensions(RenderQuality::Preview), (800, 500, 4));
    assert_eq!(get_dimensions(RenderQuality::Full), (3200, 2000, 1));
    assert_eq!(MAX_WIDTH, 3200);
    assert_eq!(MAX_HEIGHT, 2000);
    assert_eq!(PREVIEW_SCALE, 4);
}

#[test]
fn dimensions_cover_the_frame() {
    for q in [RenderQuality::Preview, RenderQuality::Full] {
        let (w, h, s) = get_dimensions(q);
        assert_eq!(w * s, MAX_WIDTH);
        assert_eq!(h * s, MAX_HEIGHT);
    }
}

#[test]
fn escape_families_iterate_255_times_at_any_boost() {
    for kind in ALL {
        if kind.is_convergence() {
            continue;
        }
        for boost in [0u8, 1, 31, 32, 128, 255] {
            assert_eq!(get_max_iterations(kind, boost), 255);
        }
    }
}

#[test]
fn newton_families_iterate_32_times_at_any_boost() {
    for boost in [0u8, 1, 32, 255] {
        assert_eq!(get_max_iterations(FractalType::Newton, boost), 32);
        assert_eq!(get_max_iterations(FractalType::RainbowNewtonSet, boost), 32);
    }
}

#[test]
fn max_iterations_never_decrease_with_the_boost() {
    for kind in ALL {
        let mut last = get_max_iterations(kind, 0);
        for boost in 1..=255u8 {
            let now = get_max_iterations(kind, boost);
            assert!(last <= now);
            last = now;
        }
    }
}

#[test]
fn plan_reads_the_configuration() {
    let mut c = Config::initial();
    assert_eq!(
        plan_render(&c, 0),
        RenderPlan {
            fractal: FractalType::Mandelbrot,
            width: 800,
            height: 500,
            stride: 4,
            max_iter: 255
        }
    );
    set_fractal(&mut c, 4);
    set_quality(&mut c, true);
    assert_eq!(
        plan_render(&c, 96),
        RenderPlan {
            fractal: FractalType::RainbowNewtonSet,
            width: 3200,
            height: 2000,
            stride: 1,
            max_iter: 32
        }
    );
}

#[test]
fn root_index_takes_the_first_root_that_matches() {
    assert_eq!(root_index(true, false, false), 85);
    assert_eq!(root_index(false, true, false), 170);
    assert_eq!(root_index(false, false, true), 255);
    assert_eq!(root_index(false, false, false), 0);
    assert_eq!(root_index(true, true, true), 85);
    assert_eq!(root_index(false, true, true), 170);
}
