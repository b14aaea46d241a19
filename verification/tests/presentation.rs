use lunar::dust::{roll_dust_streak, streak_for_roll, DustStreak};
use lunar::flight::GameStatus;
use lunar::hud::{autopilot_label, status_banner, status_panel_visible};
use lunar::mesh::fan_triangle_indices;
use lunar::stars::{star_bits, StarBits, StarRng, STAR_COUNT};

#[test]
fn banner_only_after_the_flight() {
    assert_eq!(status_banner(GameStatus::Flying), None);
    assert_eq!(
        status_banner(GameStatus::Landed),
        Some("LANDED - Press R to retry, N for new terrain")
    );
    assert_eq!(
        status_banner(GameStatus::Crashed),
        Some("CRASHED - Press R to retry, N for new terrain")
    );
    assert!(!status_panel_visible(GameStatus::Flying));
    assert!(status_panel_visible(GameStatus::Landed));
    assert!(status_panel_visible(GameStatus::Crashed));
}

#[test]
fn autopilot_label_is_three_wide() {
    assert_eq!(autopilot_label(true), "ON ");
    assert_eq!(autopilot_label(false), "OFF");
}

#[test]
fn fan_of_lander_fill_outline() {
    let indices = fan_triangle_indices(9);
    assert_eq!(indices.len(), 21);
    assert_eq!(&indices[0..3], &[0, 1, 2]);
    assert_eq!(&indices[18..21], &[0, 7, 8]);
    assert!(indices.iter().all(|&i| i < 9));
}

#[test]
fn fan_of_two_vertices_is_empty() {
    assert!(fan_triangle_indices(2).is_empty());
    assert_eq!(fan_triangle_indices(3), vec![0, 1, 2]);
}

#[test]
fn star_stream_matches_xorshift() {
    let mut rng = StarRng::new(42);
    assert_eq!(rng.next_bits(), 2_661_418_759);
    assert_eq!(rng.next_bits(), 4_201_407_177);
    assert_eq!(rng.next_bits(), 876_685_388);
    let mut zero = StarRng::new(0);
    assert_eq!(zero.next_bits(), 200_494_509);
}

#[test]
fn sky_has_star_count_stars_from_consecutive_draws() {
    let stars = star_bits(42);
    assert_eq!(stars.len(), STAR_COUNT);
    assert_eq!(stars.len(), 350);
    assert_eq!(
        stars[0],
        StarBits { nx: 2_661_418_759, ny: 4_201_407_177, brightness: 876_685_388 }
    );
    assert_eq!(
        stars[1],
        StarBits { nx: 1_766_996_252, ny: 720_460_398, brightness: 2_097_931_098 }
    );
    assert_eq!(star_bits(42), stars);
    assert_ne!(star_bits(43)[0], stars[0]);
}

#[test]
fn dust_rolls_choose_streak_shapes() {
    assert_eq!(streak_for_roll(0), DustStreak::Spray);
    assert_eq!(streak_for_roll(3), DustStreak::Spray);
    assert_eq!(streak_for_roll(4), DustStreak::Lofted);
    assert_eq!(streak_for_roll(6), DustStreak::Lofted);
    assert_eq!(streak_for_roll(7), DustStreak::Billow);
    assert_eq!(streak_for_roll(9), DustStreak::Billow);
}

#[test]
fn random_dust_rolls_reach_every_shape() {
    let mut rng = rand::thread_rng();
    let mut seen = [false; 3];
    for _ in 0..2_000 {
        match roll_dust_streak(&mut rng) {
            DustStreak::Spray => seen[0] = true,
            DustStreak::Lofted => seen[1] = true,
            DustStreak::Billow => seen[2] = true,
        }
    }
    assert_eq!(seen, [true, true, true]);
}
