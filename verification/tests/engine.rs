use pipe_bird::game::Game;
use pipe_bird::pipes::Pipe;

fn pattern_of(p: Pipe) -> [bool; 5] {
    [
        p.row_filled(0),
        p.row_filled(1),
        p.row_filled(2),
        p.row_filled(3),
        p.row_filled(4),
    ]
}

fn safe_rows_of(p: Pipe) -> [bool; 5] {
    [
        p.row_is_safe(0),
        p.row_is_safe(1),
        p.row_is_safe(2),
        p.row_is_safe(3),
        p.row_is_safe(4),
    ]
}

#[test]
fn pipe_codes_round_trip() {
    assert_eq!(Pipe::Open.code_value(), 0);
    assert_eq!(Pipe::Low.code_value(), 1);
    assert_eq!(Pipe::MidLow.code_value(), 2);
    assert_eq!(Pipe::HighLow.code_value(), 3);
    assert_eq!(Pipe::High.code_value(), 4);
    assert_eq!(Pipe::from_entropy(0), Pipe::Open);
    assert_eq!(Pipe::from_entropy(1), Pipe::Low);
    assert_eq!(Pipe::from_entropy(2), Pipe::MidLow);
    assert_eq!(Pipe::from_entropy(3), Pipe::HighLow);
    assert_eq!(Pipe::from_entropy(4), Pipe::High);
    assert_eq!(Pipe::from_entropy(7), Pipe::MidLow);
    assert_eq!(Pipe::from_entropy(u32::MAX), Pipe::Open);
}

#[test]
fn pipe_patterns_match_table() {
    assert_eq!(pattern_of(Pipe::Open), [false, false, false, false, false]);
    assert_eq!(pattern_of(Pipe::Low), [true, true, true, false, false]);
    assert_eq!(pattern_of(Pipe::MidLow), [true, true, false, false, true]);
    assert_eq!(pattern_of(Pipe::HighLow), [true, false, false, true, true]);
    assert_eq!(pattern_of(Pipe::High), [false, false, true, true, true]);
}

#[test]
fn safe_rows_are_the_gap() {
    // Code c leaves exactly rows 5-c and 4-c safe; an open column is all safe.
    assert_eq!(safe_rows_of(Pipe::Open), [true, true, true, true, true]);
    assert_eq!(safe_rows_of(Pipe::Low), [false, false, false, true, true]);
    assert_eq!(safe_rows_of(Pipe::MidLow), [false, false, true, true, false]);
    assert_eq!(safe_rows_of(Pipe::HighLow), [false, true, true, false, false]);
    assert_eq!(safe_rows_of(Pipe::High), [true, true, false, false, false]);
    // Safe exactly where the pattern is unlit.
    for p in [Pipe::Open, Pipe::Low, Pipe::MidLow, Pipe::HighLow, Pipe::High] {
        for row in 0..5u8 {
            assert_eq!(p.row_is_safe(row), !p.row_filled(row));
        }
    }
}

#[test]
fn fresh_game_starts_clear() {
    let g = Game::new();
    assert_eq!(g.pipes, vec![Pipe::Open; 5]);
    assert_eq!(g.bird_row, 2);
    assert_eq!(g.counter, 0);
    assert!(!g.game_over);
}

#[test]
fn bird_falls_without_input_no_collision() {
    // Open pipes, bird on row 2, no press: the bird falls to row 3 and the
    // open column at index 1 cannot collide.
    let mut g = Game::new();
    g.counter = 1;
    g.step_frame(false, 0);
    assert_eq!(g.bird_row, 3);
    assert!(!g.game_over);
}

#[test]
fn bird_in_gap_survives() {
    // Pipe code 1 at index 1: safe rows are 5-1=4 and 4-1=3, so row 4 passes.
    let mut g = Game::new();
    g.pipes[1] = Pipe::Low;
    g.bird_row = 4;
    g.check_collision();
    assert!(!g.game_over);
}

#[test]
fn bird_outside_gap_collides() {
    // Pipe code 1 at index 1: row 0 matches neither 4 nor 3, so the game ends.
    let mut g = Game::new();
    g.pipes[1] = Pipe::Low;
    g.bird_row = 0;
    g.check_collision();
    assert!(g.game_over);
}

#[test]
fn spawned_code_renders_its_pattern() {
    // Entropy 3 on a spawn frame puts code 3 in the spawn slot, whose
    // pattern lights rows 0, 3 and 4 with the gap at rows 1 and 2.
    let mut g = Game::new();
    assert_eq!(g.counter, 0);
    g.step_frame(false, 3);
    assert_eq!(g.pipes[4], Pipe::HighLow);
    assert_eq!(pattern_of(g.pipes[4]), [true, false, false, true, true]);
    let frame = g.render_frame(true);
    for row in 0..5usize {
        assert_eq!(frame[row][4], [1, 0, 0, 1, 1][row]);
    }
}

#[test]
fn press_at_top_row_is_a_no_op() {
    let mut g = Game::new();
    g.bird_row = 0;
    g.apply_input(true);
    assert_eq!(g.bird_row, 0);
    assert!(!g.game_over);
}

#[test]
fn fall_from_bottom_row_ends_game() {
    let mut g = Game::new();
    g.bird_row = 4;
    g.apply_input(false);
    assert_eq!(g.bird_row, 4);
    assert!(g.game_over);
}

#[test]
fn press_lifts_and_no_press_drops() {
    let mut g = Game::new();
    g.bird_row = 2;
    g.apply_input(true);
    assert_eq!(g.bird_row, 1);
    g.apply_input(false);
    assert_eq!(g.bird_row, 2);
    assert!(!g.game_over);
}

#[test]
fn pipes_shift_toward_the_bird() {
    let mut g = Game::new();
    g.pipes = vec![Pipe::Low, Pipe::MidLow, Pipe::HighLow, Pipe::High, Pipe::Low];
    g.advance_pipes();
    assert_eq!(
        g.pipes,
        vec![Pipe::MidLow, Pipe::HighLow, Pipe::High, Pipe::Low, Pipe::Open]
    );
}

#[test]
fn spawn_happens_every_fourth_counter_value() {
    let mut g = Game::new();
    // Counter 0: spawn due; the counter leaves the frame at 2.
    g.step_frame(true, 4);
    assert_eq!(g.pipes[4], Pipe::High);
    assert_eq!(g.counter, 2);
    // Counters 2 and 3: no spawn, the slot stays open.
    g.step_frame(true, 4);
    assert_eq!(g.pipes[4], Pipe::Open);
    assert_eq!(g.counter, 3);
    g.step_frame(true, 4);
    assert_eq!(g.pipes[4], Pipe::Open);
    assert_eq!(g.counter, 4);
    // Counter 4: spawn due again, three frames after the last spawn.
    g.step_frame(true, 2);
    assert_eq!(g.pipes[4], Pipe::MidLow);
    assert_eq!(g.counter, 2);
}

#[test]
fn no_spawn_frames_leave_entropy_unread() {
    let mut g = Game::new();
    g.counter = 1;
    g.step_frame(true, 4);
    assert_eq!(g.pipes[4], Pipe::Open);
}

#[test]
fn pipe_column_length_stays_five() {
    let mut g = Game::new();
    for i in 0..40u32 {
        g.step_frame(i % 2 == 0, i);
        assert_eq!(g.pipes.len(), 5);
        assert!(g.bird_row <= 4);
    }
}

#[test]
fn render_overlays_bird_at_column_one() {
    let mut g = Game::new();
    g.bird_row = 2;
    let shown = g.render_frame(true);
    assert_eq!(shown.len(), 5);
    for row in &shown {
        assert_eq!(row.len(), 5);
    }
    assert_eq!(shown[2][1], 1);
    let hidden = g.render_frame(false);
    assert_eq!(hidden[2][1], 0);
    // All other cells are dark over open pipes.
    for r in 0..5usize {
        for c in 0..5usize {
            if !(r == 2 && c == 1) {
                assert_eq!(shown[r][c], 0);
                assert_eq!(hidden[r][c], 0);
            }
        }
    }
}

#[test]
fn blink_frame_blanks_even_a_pipe_cell() {
    // The bird's cell is forced dark in the blink frame even when the pipe
    // pattern in column 1 fills that row.
    let mut g = Game::new();
    g.pipes[1] = Pipe::Low;
    g.bird_row = 1;
    let shown = g.render_frame(true);
    assert_eq!(shown[1][1], 1);
    let hidden = g.render_frame(false);
    assert_eq!(hidden[1][1], 0);
    // The rest of column 1 still shows the pipe pattern.
    assert_eq!(hidden[0][1], 1);
    assert_eq!(hidden[2][1], 1);
    assert_eq!(hidden[3][1], 0);
    assert_eq!(hidden[4][1], 0);
}

#[test]
fn blink_schedule_is_three_phase() {
    let schedule = pipe_bird::game::blink_schedule();
    assert_eq!(schedule, vec![(true, 200), (false, 100), (true, 200)]);
    assert_eq!(pipe_bird::game::FRAME_DELAY_MS, 500);
}

#[test]
fn full_episode_runs_until_floor() {
    // With no presses and only open pipes spawning (entropy 0), the bird
    // falls from row 2 and the episode ends by falling out at the floor.
    let mut g = Game::new();
    let mut frames = 0;
    while !g.game_over && frames < 10 {
        g.step_frame(false, 0);
        frames += 1;
    }
    assert!(g.game_over);
    assert_eq!(g.bird_row, 4);
    assert_eq!(frames, 3);
}
