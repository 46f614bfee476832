use quack::sound::sound;
use quack::{Player, SOUND_COUNT};

#[test]
fn catalog_entries() {
    assert_eq!(SOUND_COUNT, 8);
    assert_eq!(sound(0), "audio/duck1.mp3");
    assert_eq!(sound(3), "audio/duck4.mp3");
    assert_eq!(sound(7), "audio/duck8.mp3");
}

#[test]
fn new_player_is_silent() {
    let p = Player::new();
    assert_eq!(p.source, None);
    assert_eq!(p.current(), None);
}

#[test]
fn play_with_replaces_source() {
    let mut p = Player::new();
    p.play_with(2);
    assert_eq!(p.current(), Some("audio/duck3.mp3"));
    p.play_with(6);
    assert_eq!(p.source, Some(6));
    assert_eq!(p.current(), Some("audio/duck7.mp3"));
}

#[test]
fn last_play_wins() {
    let mut p = Player::new();
    for _ in 0..50 {
        let i = p.play();
        assert_eq!(p.source, Some(i));
        assert_eq!(p.current(), Some(sound(i)));
    }
}

#[test]
fn random_pick_is_uniform_and_in_range() {
    let mut p = Player::new();
    let mut counts = [0u32; 8];
    let n = 10_000;
    for _ in 0..n {
        let i = p.play();
        assert!(i < 8);
        counts[i] += 1;
    }
    let expected = n as f64 / 8.0;
    let chi_square: f64 = counts
        .iter()
        .map(|&c| {
            let d = c as f64 - expected;
            d * d / expected
        })
        .sum();
    for &c in counts.iter() {
        assert!(c > 0);
        assert!((c as f64 - expected).abs() < 0.2 * expected);
    }
    // 7 degrees of freedom: 24.32 is the 0.999 quantile.
    assert!(chi_square < 24.32, "chi-square {chi_square}");
}
