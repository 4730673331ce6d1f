use pop_the_lock::audio_manager::{hit_sound, HitSound};
use pop_the_lock::game::{
    clear_color_miss, clear_colors_list, initial_clear_color, pick_clear_color, GameProgress,
    GameState, Rgb,
};
use pop_the_lock::level_manager::{
    input_route, on_dot_hit, on_dot_missed, on_input_go_to, transition_to_idle,
};

#[test]
fn new_progress_defaults_to_level_one() {
    let p = GameProgress::new(None, None);
    assert_eq!(p.level(), 1);
    assert_eq!(p.score(), 0);
    assert_eq!(p.hits_remaining(), 1);
}

#[test]
fn new_progress_restores_saved_values() {
    let p = GameProgress::new(Some(7), Some(12));
    assert_eq!(p.level(), 7);
    assert_eq!(p.score(), 12);
    assert_eq!(p.hits_remaining(), 7);
}

#[test]
fn progress_methods() {
    let mut p = GameProgress::new(Some(3), Some(0));
    p.decrease_hits();
    assert_eq!(p.hits_remaining(), 2);
    p.score_up();
    assert_eq!(p.score(), 1);
    p.reset();
    assert_eq!(p.hits_remaining(), 3);
    p.level_up();
    assert_eq!(p.level(), 4);
    assert_eq!(p.hits_remaining(), 4);
    assert_eq!(p.score(), 1);
}

#[test]
fn star_hit_scores_and_counts_down() {
    let mut p = GameProgress::new(Some(2), Some(5));
    let o = on_dot_hit(&mut p, true);
    assert!(o.score_changed);
    assert_eq!(o.level_text, 1);
    assert!(!o.level_cleared);
    assert_eq!(o.next_state, None);
    assert_eq!(p.score(), 6);
    assert_eq!(p.hits_remaining(), 1);
    assert_eq!(p.level(), 2);
}

#[test]
fn last_hit_clears_the_level() {
    let mut p = GameProgress::new(Some(2), Some(5));
    on_dot_hit(&mut p, false);
    let o = on_dot_hit(&mut p, false);
    assert!(!o.score_changed);
    assert_eq!(o.level_text, 0);
    assert!(o.level_cleared);
    assert_eq!(o.next_state, Some(GameState::LevelCleared));
    assert_eq!(p.level(), 3);
    assert_eq!(p.hits_remaining(), 3);
    assert_eq!(p.score(), 5);
}

#[test]
fn level_needs_as_many_hits_as_its_number() {
    for level in 1u32..6 {
        let mut p = GameProgress::new(Some(level), None);
        for k in 1..level {
            let o = on_dot_hit(&mut p, false);
            assert!(!o.level_cleared);
            assert_eq!(p.hits_remaining(), level - k);
        }
        let o = on_dot_hit(&mut p, false);
        assert!(o.level_cleared);
        assert_eq!(p.level(), level + 1);
    }
}

#[test]
fn miss_restarts_the_level() {
    let mut p = GameProgress::new(Some(4), Some(9));
    on_dot_hit(&mut p, true);
    on_dot_hit(&mut p, false);
    assert_eq!(p.hits_remaining(), 2);
    let o = on_dot_missed(&mut p);
    assert_eq!(o.next_state, GameState::GameOver);
    assert_eq!(o.prompt, "TRY AGAIN");
    assert_eq!(p.hits_remaining(), 4);
    assert_eq!(p.level(), 4);
    assert_eq!(p.score(), 10);
}

#[test]
fn input_routes() {
    assert_eq!(input_route(GameState::Idle), Some((GameState::Playing, false)));
    assert_eq!(input_route(GameState::LevelCleared), Some((GameState::Resetting, true)));
    assert_eq!(input_route(GameState::GameOver), Some((GameState::Resetting, true)));
    assert_eq!(input_route(GameState::Playing), None);
    assert_eq!(input_route(GameState::Resetting), None);
    assert_eq!(transition_to_idle(), GameState::Idle);
    assert_eq!(GameState::default(), GameState::Idle);
}

#[test]
fn input_waits_for_press_and_cooldown() {
    assert_eq!(on_input_go_to(GameState::Playing, false, false, true), Some(GameState::Playing));
    assert_eq!(on_input_go_to(GameState::Playing, false, false, false), None);
    assert_eq!(on_input_go_to(GameState::Resetting, true, false, true), None);
    assert_eq!(on_input_go_to(GameState::Resetting, true, true, false), None);
    assert_eq!(on_input_go_to(GameState::Resetting, true, true, true), Some(GameState::Resetting));
}

#[test]
fn colors() {
    let list = clear_colors_list();
    assert_eq!(list.len(), 5);
    assert_eq!(list[0], Rgb { r: 56, g: 73, b: 101 });
    assert_eq!(list[4], Rgb { r: 170, g: 136, b: 187 });
    assert_eq!(clear_color_miss(), Rgb { r: 199, g: 78, b: 81 });
    assert_eq!(initial_clear_color(), Rgb { r: 170, g: 136, b: 187 });
    for _ in 0..50 {
        let c = pick_clear_color();
        assert!(list.contains(&c));
    }
}

#[test]
fn hit_sounds() {
    assert_eq!(hit_sound(true), HitSound::StarPop);
    assert_eq!(hit_sound(false), HitSound::DotPop);
}
