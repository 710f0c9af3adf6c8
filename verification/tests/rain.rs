use terminus::glyph::{glyphs, BLANK, GLYPH_COUNT};
use terminus::matrix::{CellWrite, MatrixRain, Step, Streak, FRAME_DELAY_MS};

fn streak(x: u16, y: i32, speed: u16, length: u16) -> Streak {
    Streak { x, y, speed, length }
}

#[test]
fn population_is_a_third_of_the_width() {
    for width in 0u16..=120 {
        let rain = MatrixRain::new(width, 24);
        assert_eq!(rain.drops().len(), (width / 3) as usize);
        assert_eq!(rain.width(), width);
        assert_eq!(rain.height(), 24);
    }
    assert_eq!(MatrixRain::new(0, 0).drops().len(), 0);
    assert_eq!(MatrixRain::new(2, 10).drops().len(), 0);
    assert_eq!(MatrixRain::new(3, 10).drops().len(), 1);
    assert_eq!(MatrixRain::new(u16::MAX, 10).drops().len(), 21845);
}

#[test]
fn new_field_has_fresh_streaks_and_no_areas() {
    let rain = MatrixRain::new(80, 24);
    assert!(rain.is_running());
    assert!(rain.protected_areas().is_empty());
    for s in rain.drops().iter() {
        assert!(s.x < 80);
        assert!(-20 < s.y && s.y <= -5);
        assert!(1 <= s.speed && s.speed < 4);
        assert!(5 <= s.length && s.length < 20);
    }
}

#[test]
fn columns_are_drawn_from_the_whole_width() {
    let rain = MatrixRain::new(300, 24);
    let first = rain.drops()[0].x;
    assert!(rain.drops().iter().any(|s| s.x != first));
    assert!(rain.drops().iter().all(|s| s.x < 300));
}

#[test]
fn advance_above_the_grid_only_moves() {
    let mut s = streak(4, -7, 2, 9);
    let step = s.advance(10, &[]);
    assert_eq!(step, Step { erase: None, draw: None, reset: false });
    assert_eq!(s, streak(4, -5, 2, 9));
}

#[test]
fn advance_enters_the_grid() {
    let mut s = streak(4, -1, 3, 9);
    let step = s.advance(10, &[]);
    assert_eq!(step, Step { erase: None, draw: Some((4, 2)), reset: false });
    assert_eq!(s, streak(4, 2, 3, 9));
}

#[test]
fn advance_erases_old_and_draws_new() {
    let mut s = streak(4, 2, 3, 9);
    let step = s.advance(10, &[]);
    assert_eq!(step, Step { erase: Some((4, 2)), draw: Some((4, 5)), reset: false });
    assert_eq!(s, streak(4, 5, 3, 9));
}

#[test]
fn advance_resets_below_the_grid() {
    let mut s = streak(4, 8, 2, 9);
    let step = s.advance(10, &[]);
    assert_eq!(step, Step { erase: Some((4, 8)), draw: None, reset: true });
    assert_eq!(s, streak(4, -9, 2, 9));
}

#[test]
fn advance_draws_on_the_last_row() {
    let mut s = streak(4, 8, 1, 9);
    let step = s.advance(10, &[]);
    assert_eq!(step, Step { erase: Some((4, 8)), draw: Some((4, 9)), reset: false });
    assert_eq!(s.y, 9);
}

#[test]
fn advance_skips_a_protected_target() {
    let mut s = streak(4, 2, 3, 9);
    let step = s.advance(10, &[(0, 5, 80, 5)]);
    assert_eq!(step, Step { erase: Some((4, 2)), draw: None, reset: false });
    assert_eq!(s.y, 5);
}

#[test]
fn advance_from_a_protected_cell_only_moves() {
    let mut s = streak(4, 5, 3, 9);
    let step = s.advance(10, &[(0, 5, 80, 5)]);
    assert_eq!(step, Step { erase: None, draw: None, reset: false });
    assert_eq!(s, streak(4, 8, 3, 9));
}

#[test]
fn advance_from_a_protected_cell_does_not_reset() {
    let mut s = streak(0, 4, 1, 6);
    let step = s.advance(5, &[(0, 4, 0, 4)]);
    assert_eq!(step, Step { erase: None, draw: None, reset: false });
    assert_eq!(s.y, 5);
    let step = s.advance(5, &[(0, 4, 0, 4)]);
    assert_eq!(step, Step { erase: Some((0, 5)), draw: None, reset: true });
    assert_eq!(s.y, -6);
}

#[test]
fn advance_on_an_empty_grid_resets_at_once() {
    let mut s = streak(0, -1, 3, 5);
    let step = s.advance(0, &[]);
    assert_eq!(step, Step { erase: None, draw: None, reset: true });
    assert_eq!(s.y, -5);
}

#[test]
fn advance_past_the_last_row_number() {
    let everything = [(0u16, 0u16, u16::MAX, u16::MAX)];
    let mut s = streak(7, 65535, 3, 5);
    let step = s.advance(100, &everything);
    assert_eq!(step, Step { erase: None, draw: None, reset: false });
    assert_eq!(s.y, 65538);
    let step = s.advance(100, &everything);
    assert_eq!(step, Step { erase: Some((7, 65538)), draw: None, reset: true });
    assert_eq!(s.y, -5);
}

#[test]
fn position_protection_is_inclusive() {
    let areas = [(2u16, 3u16, 5u16, 7u16)];
    assert!(MatrixRain::is_position_protected(2, 3, &areas));
    assert!(MatrixRain::is_position_protected(5, 7, &areas));
    assert!(MatrixRain::is_position_protected(2, 7, &areas));
    assert!(MatrixRain::is_position_protected(4, 5, &areas));
    assert!(!MatrixRain::is_position_protected(1, 3, &areas));
    assert!(!MatrixRain::is_position_protected(6, 7, &areas));
    assert!(!MatrixRain::is_position_protected(2, 2, &areas));
    assert!(!MatrixRain::is_position_protected(5, 8, &areas));
}

#[test]
fn position_protection_over_several_areas() {
    let areas = [(0u16, 0u16, 8u16, 0u16), (3, 3, 3, 3)];
    assert!(MatrixRain::is_position_protected(8, 0, &areas));
    assert!(MatrixRain::is_position_protected(3, 3, &areas));
    assert!(!MatrixRain::is_position_protected(3, 2, &areas));
    assert!(!MatrixRain::is_position_protected(0, 0, &[]));
}

#[test]
fn inverted_area_protects_nothing() {
    let areas = [(5u16, 5u16, 2u16, 2u16)];
    for x in 0u16..8 {
        for y in 0u16..8 {
            assert!(!MatrixRain::is_position_protected(x, y, &areas));
        }
    }
}

#[test]
fn protect_area_appends_in_order() {
    let mut rain = MatrixRain::new(30, 10);
    let before: Vec<Streak> = rain.drops().clone();
    rain.protect_area(0, 0, 8, 0);
    rain.protect_area(1, 2, 3, 4);
    assert_eq!(rain.protected_areas(), &vec![(0, 0, 8, 0), (1, 2, 3, 4)]);
    assert_eq!(rain.drops(), &before);
    assert!(rain.is_running());
}

#[test]
fn top_row_stays_untouched_for_two_hundred_frames() {
    let mut rain = MatrixRain::new(9, 5);
    rain.protect_area(0, 0, 8, 0);
    assert_eq!(rain.drops().len(), 3);
    let table = glyphs();
    let mut resets = 0;
    for _ in 0..200 {
        let before: Vec<Streak> = rain.drops().clone();
        let writes = rain.tick();
        for w in writes.iter() {
            assert_ne!(w.y, 0);
            assert!(w.y > 0);
            assert!(w.x < 9);
            if w.bright {
                assert!(w.y < 5);
                assert!(table.contains(&w.glyph));
            } else {
                assert_eq!(w.glyph, BLANK);
            }
        }
        assert_eq!(rain.drops().len(), 3);
        for (old, new) in before.iter().zip(rain.drops().iter()) {
            assert!(new.x < 9);
            assert_eq!(new.speed, old.speed);
            assert_eq!(new.length, old.length);
            if new.y < old.y {
                resets += 1;
                assert_eq!(new.y, -(old.length as i32));
                assert!(old.y + old.speed as i32 >= 5);
            } else {
                assert_eq!(new.y, old.y + old.speed as i32);
                assert_eq!(new.x, old.x);
            }
        }
    }
    assert!(resets >= 1);
}

#[test]
fn frame_writes_match_each_streak() {
    let areas = [(0u16, 3u16, 100u16, 3u16)];
    let mut drops = vec![
        streak(1, -4, 2, 6),
        streak(2, 1, 1, 6),
        streak(3, 2, 1, 6),
        streak(4, 3, 1, 6),
        streak(5, 8, 3, 6),
    ];
    let writes = MatrixRain::draw_frame(&mut drops, 10, 10, &areas);
    let cells: Vec<(u16, i32, bool)> = writes.iter().map(|w| (w.x, w.y, w.bright)).collect();
    assert_eq!(
        cells,
        vec![(2, 1, false), (2, 2, true), (3, 2, false), (5, 8, false)]
    );
    assert_eq!(drops[0], streak(1, -2, 2, 6));
    assert_eq!(drops[1], streak(2, 2, 1, 6));
    assert_eq!(drops[2], streak(3, 3, 1, 6));
    assert_eq!(drops[3], streak(4, 4, 1, 6));
    assert_eq!(drops[4].y, -6);
    assert!(drops[4].x < 10);
    assert_eq!(drops[4].speed, 3);
    assert_eq!(drops[4].length, 6);
    let table = glyphs();
    for w in writes.iter() {
        if w.bright {
            assert!(table.contains(&w.glyph));
        } else {
            assert_eq!(w.glyph, ' ');
        }
    }
}

#[test]
fn frame_of_no_streaks_writes_nothing() {
    let mut drops: Vec<Streak> = Vec::new();
    let writes = MatrixRain::draw_frame(&mut drops, 0, 0, &[]);
    assert!(writes.is_empty());
    assert!(drops.is_empty());
    let mut rain = MatrixRain::new(0, 0);
    assert!(rain.tick().is_empty());
}

#[test]
fn fully_protected_grid_is_never_written() {
    let mut rain = MatrixRain::new(60, 20);
    rain.protect_area(0, 0, u16::MAX, u16::MAX);
    for _ in 0..300 {
        assert!(rain.tick().is_empty());
        assert!(rain.drops().iter().all(|s| s.x < 60));
    }
}

#[test]
fn start_launches_once() {
    let mut rain = MatrixRain::new(30, 10);
    assert!(rain.start());
    assert!(!rain.start());
    assert!(rain.is_running());
    rain.stop();
    assert!(!rain.is_running());
    assert!(!rain.start());
}

#[test]
fn stop_before_start_is_harmless() {
    let mut rain = MatrixRain::new(30, 10);
    let before: Vec<Streak> = rain.drops().clone();
    rain.stop();
    assert!(!rain.is_running());
    assert!(!rain.start());
    assert_eq!(rain.drops(), &before);
    assert!(rain.tick().is_empty());
    assert_eq!(rain.drops(), &before);
}

#[test]
fn stopped_field_writes_nothing() {
    let mut rain = MatrixRain::new(45, 6);
    assert!(rain.start());
    let mut wrote = false;
    for _ in 0..100 {
        wrote = wrote || !rain.tick().is_empty();
    }
    assert!(wrote);
    rain.stop();
    let frozen: Vec<Streak> = rain.drops().clone();
    for _ in 0..50 {
        assert!(rain.tick().is_empty());
        assert_eq!(rain.drops(), &frozen);
    }
    rain.protect_area(1, 1, 2, 2);
    assert!(rain.tick().is_empty());
    assert!(!rain.is_running());
}

#[test]
fn screen_row_of_a_write() {
    let w = CellWrite { x: 1, y: 0, glyph: ' ', bright: false };
    assert_eq!(w.screen_row(), Some(0));
    let w = CellWrite { x: 1, y: 65535, glyph: ' ', bright: false };
    assert_eq!(w.screen_row(), Some(65535));
    let w = CellWrite { x: 1, y: 65536, glyph: ' ', bright: false };
    assert_eq!(w.screen_row(), None);
    let w = CellWrite { x: 1, y: -1, glyph: ' ', bright: false };
    assert_eq!(w.screen_row(), None);
}

#[test]
fn glyph_catalogue_is_fixed() {
    let table = glyphs();
    assert_eq!(table.len(), 32);
    assert_eq!(GLYPH_COUNT, 32);
    let text: String = table.iter().collect();
    assert_eq!(text, "ﾊﾐﾋｰｳｼﾅﾓﾆｻﾜﾂｵﾘｱﾎﾃﾏｹﾒｴｶｷﾑﾕﾗｾﾈｽﾀﾇﾍ");
    for (i, a) in table.iter().enumerate() {
        assert_ne!(*a, BLANK);
        for b in table.iter().skip(i + 1) {
            assert_ne!(a, b);
        }
    }
}

#[test]
fn frames_are_fifty_milliseconds_apart() {
    assert_eq!(FRAME_DELAY_MS, 50);
}
