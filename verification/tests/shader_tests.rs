use solar_shaders::color::Color;
use solar_shaders::color::lerp;
use solar_shaders::fixp::pow45;
use solar_shaders::fixp::sin_milli;
use solar_shaders::geom::Vec3;
use solar_shaders::shaders::FragmentQueries;
use solar_shaders::shaders::FragmentSamples;
use solar_shaders::shaders::GasSamples;
use solar_shaders::shaders::MoonSamples;
use solar_shaders::shaders::RockySamples;
use solar_shaders::shaders::ShaderType;
use solar_shaders::shaders::SunSamples;
use solar_shaders::shaders::fragment_noise_queries;
use solar_shaders::shaders::fragment_shader;
use solar_shaders::shaders::gas_giant_color;
use solar_shaders::shaders::moon_color;
use solar_shaders::shaders::rocky_planet_color;
use solar_shaders::shaders::sun_color;
use solar_shaders::geom::Mat4;
use solar_shaders::vertex::Fragment;
use solar_shaders::vertex::Uniforms;

use solar_shaders::noise::NoiseKind;
use solar_shaders::noise::base_noise_config;
use solar_shaders::noise::cloud_noise_config;

use fastnoise_lite::FastNoiseLite;
use fastnoise_lite::FractalType;
use fastnoise_lite::NoiseType;

fn origin() -> Vec3 {
    Vec3 { x: 0, y: 0, z: 0 }
}

#[test]
fn sun_at_center_with_silent_noise_is_core_color() {
    // at the center the radial gradient sits at its first stop; a plasma
    // sample of -1.0 gives a zero plasma factor and a spot sample below the
    // threshold adds nothing, so the core color comes back exactly
    let c = sun_color(origin(), &SunSamples { plasma: -1000, spot: 0 });
    assert_eq!(c.to_hex(), 0xFFFF00);
}

#[test]
fn sun_plasma_blends_at_thirty_percent() {
    // full plasma (sample 1.0) blends the plasma tone at factor 0.3
    let c = sun_color(origin(), &SunSamples { plasma: 1000, spot: 0 });
    let expected = lerp(&Color::from_hex(0xFFFF00), &Color::from_hex(0xFFAA00), 300);
    assert_eq!(c, expected);
}

#[test]
fn sun_spot_threshold_gates_the_dark_spot() {
    let below = sun_color(origin(), &SunSamples { plasma: -1000, spot: 500 });
    assert_eq!(below.to_hex(), 0xFFFF00);
    let above = sun_color(origin(), &SunSamples { plasma: -1000, spot: 1000 });
    // spot factor (1.0 - 0.5) * 2 * 0.4 = 0.4, then the corona glow at
    // (1 - 0)^3 * 0.3 over it
    let spotted = lerp(&Color::from_hex(0xFFFF00), &Color::from_hex(0x994400), 400);
    let expected = lerp(&spotted, &Color::from_hex(0xFFFFAA), 300);
    assert_eq!(above, expected);
}

#[test]
fn sun_outer_half_interpolates_mid_toward_edge() {
    // |position| = 0.75 sits halfway through the outer gradient stop
    let p = Vec3 { x: 750, y: 0, z: 0 };
    let c = sun_color(p, &SunSamples { plasma: -1000, spot: 0 });
    let expected = lerp(&Color::from_hex(0xFF6600), &Color::from_hex(0xFF0000), 500);
    assert_eq!(c, expected);
}

#[test]
fn queries_saturate_on_extreme_time_and_position() {
    let p = Vec3 { x: i64::MAX, y: i64::MIN, z: 0 };
    let f = Fragment { vertex_position: p, intensity: 1000 };
    for time in [i64::MIN, -1, 0, i64::MAX] {
        let u = Uniforms::new(
            Mat4::identity(),
            Mat4::identity(),
            Mat4::identity(),
            Mat4::identity(),
            time,
        );
        for st in [
            ShaderType::Sun,
            ShaderType::RockyPlanet,
            ShaderType::GasGiant,
            ShaderType::Moon,
            ShaderType::RingedPlanet,
        ] {
            // saturating fixed-point coordinates: no wrap, no panic
            let q = fragment_noise_queries(&f, &u, &st);
            match (st, q) {
                (ShaderType::Sun, FragmentQueries::Sun(_)) => {}
                (ShaderType::RockyPlanet, FragmentQueries::Rocky(_)) => {}
                (ShaderType::GasGiant, FragmentQueries::Gas(_)) => {}
                (ShaderType::Moon, FragmentQueries::Moon(_)) => {}
                (ShaderType::RingedPlanet, FragmentQueries::Gas(_)) => {}
                _ => panic!("queries routed to the wrong archetype"),
            }
        }
    }
}

#[test]
fn rocky_high_continent_is_mountain_blended_land_not_ocean() {
    // continent sample forced to 0.8 at a point with |y| <= 0.7: land
    // interpolated toward mountain at (0.8 - 0.5) * 2 = 0.6
    let samples = RockySamples { continent: 800, detail: 0, cloud: 0 };
    let c = rocky_planet_color(origin(), &samples, 1000);
    let expected = lerp(&Color::from_hex(0x3d8c40), &Color::from_hex(0x8b7355), 600);
    assert_eq!(c, expected);
    // the ocean branch for the same point would interpolate toward deep ocean
    let ocean = rocky_planet_color(origin(), &RockySamples { continent: -800, detail: 0, cloud: 0 }, 1000);
    assert_ne!(c, ocean);
}

#[test]
fn rocky_polar_caps_blend_snow() {
    let pole = Vec3 { x: 0, y: 1000, z: 0 };
    let samples = RockySamples { continent: -1000, detail: 0, cloud: 0 };
    let c = rocky_planet_color(pole, &samples, 1000);
    // |y| = 1.0 gives the full snow factor over the deep-ocean base
    let base = lerp(&Color::from_hex(0x1a4d7a), &Color::from_hex(0x0a2342), 1000);
    let expected = lerp(&base, &Color::from_hex(0xf0f0f0), 1000);
    assert_eq!(c, expected);
    assert_eq!(c.to_hex(), 0xf0f0f0);
}

#[test]
fn rocky_lighting_is_multiplicative() {
    let samples = RockySamples { continent: 800, detail: 0, cloud: 0 };
    let lit = rocky_planet_color(origin(), &samples, 1000);
    let half = rocky_planet_color(origin(), &samples, 500);
    let dark = rocky_planet_color(origin(), &samples, 0);
    assert_eq!(half, lit.scale(500));
    assert_eq!(dark.to_hex(), 0);
}

#[test]
fn gas_giant_with_silent_noise_outside_storm_is_one_band_color() {
    // all samples zero: the banding phase is 0, sin(0) = 0 maps to a band
    // value of exactly 0.5, the start of the third gradient segment, and all
    // blend factors vanish; (-0.5, -0.5) is outside the storm radius
    let p = Vec3 { x: -500, y: -500, z: 0 };
    let samples = GasSamples { band: 0, turbulence: 0, spot: 0, detail: 0 };
    let c = gas_giant_color(p, &samples, 1000);
    assert_eq!(c.to_hex(), 0x8b6239);
}

#[test]
fn gas_giant_storm_applies_only_within_radius() {
    let samples = GasSamples { band: 0, turbulence: 0, spot: 1000, detail: 0 };
    let inside = gas_giant_color(Vec3 { x: 300, y: 200, z: 0 }, &samples, 1000);
    let outside = gas_giant_color(Vec3 { x: -500, y: -500, z: 0 }, &samples, 1000);
    assert_eq!(outside.to_hex(), 0x8b6239);
    // at the storm center the proximity is 1.0 and the sample maps to 1.0,
    // so the storm tone blends at the full 0.7
    let expected = lerp(&Color::from_hex(0x8b6239), &Color::from_hex(0xc74440), 700);
    assert_eq!(inside, expected);
}

#[test]
fn moon_with_silent_noise_is_base_gray() {
    let c = moon_color(&MoonSamples { terrain: 0, crater: 0, detail: 0 }, 1000);
    assert_eq!(c.to_hex(), 0x9b9b9b);
}

#[test]
fn moon_crater_darkens_past_threshold() {
    let below = moon_color(&MoonSamples { terrain: 0, crater: 700, detail: 0 }, 1000);
    assert_eq!(below.to_hex(), 0x9b9b9b);
    let above = moon_color(&MoonSamples { terrain: 0, crater: 1000, detail: 0 }, 1000);
    let expected = lerp(&Color::from_hex(0x9b9b9b), &Color::from_hex(0x4a4a4a), 800);
    assert_eq!(above, expected);
}

#[test]
fn moon_lighting_uses_the_four_fifths_exponent() {
    // intensity 0.5 maps to 0.5^0.8 ~ 0.574, floor-exact in milli units
    assert_eq!(pow45(500), 574);
    assert_eq!(pow45(0), 0);
    assert_eq!(pow45(1000), 1000);
    let half = moon_color(&MoonSamples { terrain: 0, crater: 0, detail: 0 }, 500);
    let base = Color::from_hex(0x9b9b9b);
    assert_eq!(half, base.scale(574));
}

#[test]
fn fixed_point_sine_hits_the_quarter_points() {
    assert_eq!(sin_milli(0), 0);
    assert_eq!(sin_milli(1571), 1000);
    assert_eq!(sin_milli(-1571), -1000);
    assert_eq!(sin_milli(3142), 0);
    for a in [-1300i64, -900, -250, 0, 123, 777, 1300] {
        let s = sin_milli(a);
        assert!(-1000 <= s && s <= 1000);
    }
}

#[test]
fn every_shader_stays_in_range_on_extreme_inputs() {
    let far = Vec3 { x: i64::MAX, y: i64::MIN, z: i64::MAX };
    for samples in [
        FragmentSamples::Sun(SunSamples { plasma: i64::MAX, spot: i64::MAX }),
        FragmentSamples::Rocky(RockySamples { continent: i64::MIN, detail: i64::MAX, cloud: i64::MAX }),
        FragmentSamples::Gas(GasSamples { band: i64::MAX, turbulence: i64::MIN, spot: i64::MAX, detail: i64::MIN }),
        FragmentSamples::Moon(MoonSamples { terrain: i64::MIN, crater: i64::MAX, detail: i64::MIN }),
    ] {
        for p in [origin(), far] {
            for intensity in [i64::MIN, 0, 1000, i64::MAX] {
                let f = Fragment { vertex_position: p, intensity };
                let st = match samples {
                    FragmentSamples::Sun(_) => ShaderType::Sun,
                    FragmentSamples::Rocky(_) => ShaderType::RockyPlanet,
                    FragmentSamples::Gas(_) => ShaderType::GasGiant,
                    FragmentSamples::Moon(_) => ShaderType::Moon,
                };
                let c = fragment_shader(&f, &st, &samples);
                assert!(c.to_hex() <= 0xFFFFFF);
            }
        }
    }
}

#[test]
fn dispatcher_routes_ringed_planet_to_gas_giant() {
    let p = Vec3 { x: -500, y: -500, z: 0 };
    let f = Fragment { vertex_position: p, intensity: 1000 };
    let samples = FragmentSamples::Gas(GasSamples { band: 0, turbulence: 0, spot: 0, detail: 0 });
    let gas = fragment_shader(&f, &ShaderType::GasGiant, &samples);
    let ringed = fragment_shader(&f, &ShaderType::RingedPlanet, &samples);
    assert_eq!(gas, ringed);
    assert_eq!(gas.to_hex(), 0x8b6239);
}

#[test]
fn query_coordinates_follow_the_layer_formulas() {
    let p = Vec3 { x: 100, y: 200, z: 300 };
    let f = Fragment { vertex_position: p, intensity: 1000 };
    let u = Uniforms::new(
        Mat4::identity(),
        Mat4::identity(),
        Mat4::identity(),
        Mat4::identity(),
        1000,
    );
    match fragment_noise_queries(&f, &u, &ShaderType::Sun) {
        FragmentQueries::Sun(q) => {
            assert_eq!((q.plasma.x, q.plasma.y, q.plasma.z), (1100, 1600, 2550));
            assert_eq!((q.spot.x, q.spot.y, q.spot.z), (300, 700, 900));
        }
        _ => panic!("sun queries expected"),
    }
    match fragment_noise_queries(&f, &u, &ShaderType::RockyPlanet) {
        FragmentQueries::Rocky(q) => {
            assert_eq!((q.continent.x, q.continent.y, q.continent.z), (400, 800, 1200));
            assert_eq!((q.detail.x, q.detail.y, q.detail.z), (101_000, 2000, 3000));
            assert_eq!((q.cloud.x, q.cloud.y, q.cloud.z), (800, 1200, 1800));
        }
        _ => panic!("rocky queries expected"),
    }
    match fragment_noise_queries(&f, &u, &ShaderType::GasGiant) {
        FragmentQueries::Gas(q) => {
            assert_eq!((q.band.x, q.band.y), (3000, 100));
            assert_eq!((q.turbulence.x, q.turbulence.y, q.turbulence.z), (1100, 800, 2400));
            assert_eq!((q.spot.x, q.spot.y, q.spot.z), (550, 1000, 1500));
            assert_eq!((q.detail.x, q.detail.y, q.detail.z), (1800, 4000, 6000));
        }
        _ => panic!("gas queries expected"),
    }
    match fragment_noise_queries(&f, &u, &ShaderType::Moon) {
        FragmentQueries::Moon(q) => {
            assert_eq!((q.terrain.x, q.terrain.y, q.terrain.z), (800, 1600, 2400));
            assert_eq!((q.crater.x, q.crater.y, q.crater.z), (501_000, 2000, 3000));
            assert_eq!((q.detail.x, q.detail.y, q.detail.z), (2500, 5000, 7500));
        }
        _ => panic!("moon queries expected"),
    }
}

fn milli_to_f32(v: i64) -> f32 {
    v as f32 / 1000.0
}

fn sample3(noise: &FastNoiseLite, x: i64, y: i64, z: i64) -> i64 {
    (noise.get_noise_3d(milli_to_f32(x), milli_to_f32(y), milli_to_f32(z)) * 1000.0) as i64
}

fn base_noise() -> FastNoiseLite {
    let mut noise = FastNoiseLite::new();
    noise.set_noise_type(Some(NoiseType::OpenSimplex2));
    noise
}

fn cloud_noise() -> FastNoiseLite {
    let config = cloud_noise_config();
    let mut noise = FastNoiseLite::new();
    noise.set_noise_type(Some(NoiseType::OpenSimplex2));
    noise.set_fractal_type(Some(FractalType::FBm));
    noise.set_fractal_octaves(Some(config.octaves as i32));
    noise.set_fractal_lacunarity(Some(config.lacunarity as f32 / 1000.0));
    noise.set_fractal_gain(Some(config.gain as f32 / 1000.0));
    noise
}

#[test]
fn noise_configurations_are_fixed() {
    let base = base_noise_config();
    assert_eq!(base.kind, NoiseKind::Coherent);
    assert_eq!(base.octaves, 1);
    let clouds = cloud_noise_config();
    assert_eq!(clouds.kind, NoiseKind::FractalSum);
    assert_eq!(clouds.octaves, 4);
    assert_eq!(clouds.lacunarity, 2000);
    assert_eq!(clouds.gain, 500);
}

fn shade_rocky_once(p: Vec3, time: i64, intensity: i64) -> Color {
    // a fresh pipeline each call: identically seeded noise fields must give
    // bit-identical colors
    let base = base_noise();
    let clouds = cloud_noise();
    let u = Uniforms::new(
        Mat4::identity(),
        Mat4::identity(),
        Mat4::identity(),
        Mat4::identity(),
        time,
    );
    let f = Fragment { vertex_position: p, intensity };
    let samples = match fragment_noise_queries(&f, &u, &ShaderType::RockyPlanet) {
        FragmentQueries::Rocky(q) => FragmentSamples::Rocky(RockySamples {
            continent: sample3(&base, q.continent.x, q.continent.y, q.continent.z),
            detail: sample3(&base, q.detail.x, q.detail.y, q.detail.z),
            cloud: sample3(&clouds, q.cloud.x, q.cloud.y, q.cloud.z),
        }),
        _ => panic!("rocky queries expected"),
    };
    fragment_shader(&f, &ShaderType::RockyPlanet, &samples)
}

#[test]
fn identically_seeded_pipelines_are_deterministic() {
    for (p, time, intensity) in [
        (Vec3 { x: 310, y: -420, z: 860 }, 0, 1000),
        (Vec3 { x: -900, y: 120, z: 77 }, 12_345, 800),
        (Vec3 { x: 1, y: 2, z: 3 }, 999_999, 250),
    ] {
        let first = shade_rocky_once(p, time, intensity);
        let second = shade_rocky_once(p, time, intensity);
        assert_eq!(first, second);
    }
}
