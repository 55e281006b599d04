use frogger::Color;
use frogger::ControlCode;
use frogger::DrawCmd;
use frogger::Frogger;
use frogger::InputEvent;

fn cell(ch: char, col: usize, row: usize, fg: Color, bg: Color) -> DrawCmd {
    DrawCmd::Plot { ch, col, row, fg, bg }
}

fn number(value: usize, col: usize, row: usize) -> DrawCmd {
    DrawCmd::PlotNum { value, col, row, fg: Color::White, bg: Color::Black }
}

fn text(text: &'static str, col: usize, row: usize) -> DrawCmd {
    DrawCmd::PlotStr { text, col, row, fg: Color::White, bg: Color::Black }
}

fn press(game: &mut Frogger, code: ControlCode) -> Vec<DrawCmd> {
    assert!(game.score() <= usize::MAX - 1060);
    game.key(InputEvent::Control(code))
}

fn type_char(game: &mut Frogger, c: char) -> Vec<DrawCmd> {
    assert!(game.score() <= usize::MAX - 1060);
    game.key(InputEvent::Printable(c))
}

fn frog_at(px: usize, py: usize) -> Vec<DrawCmd> {
    let fg = Color::LightGreen;
    let bg = Color::Black;
    vec![
        cell('-', px, py, fg, bg),
        cell('0', px - 1, py, fg, bg),
        cell('0', px + 1, py, fg, bg),
        cell('^', px - 2, py + 1, fg, bg),
        cell('(', px - 1, py + 1, fg, bg),
        cell('_', px, py + 1, fg, bg),
        cell(')', px + 1, py + 1, fg, bg),
        cell('^', px + 2, py + 1, fg, bg),
    ]
}

fn blank_at(px: usize, py: usize) -> Vec<DrawCmd> {
    let c = Color::Black;
    vec![
        cell(' ', px - 1, py, c, c),
        cell(' ', px, py, c, c),
        cell(' ', px + 1, py, c, c),
        cell(' ', px - 2, py + 1, c, c),
        cell(' ', px - 1, py + 1, c, c),
        cell(' ', px, py + 1, c, c),
        cell(' ', px + 1, py + 1, c, c),
        cell(' ', px + 2, py + 1, c, c),
    ]
}

fn status_line(score: usize, frogs: usize) -> Vec<DrawCmd> {
    let mut line = vec![number(score, 3, 1)];
    for f in 0..frogs {
        line.push(cell('@', 25 + f, 1, Color::LightGreen, Color::Black));
    }
    line
}

fn summary(score: usize, hiscore: usize) -> Vec<DrawCmd> {
    vec![
        DrawCmd::ClearScreen,
        text("GAME OVER", 36, 5),
        text("SCORE", 25, 10),
        number(score, 25, 11),
        text("HI-SCORE", 40, 10),
        number(hiscore, 40, 11),
        text("Press S to play again!", 20, 20),
    ]
}

fn joined(parts: Vec<Vec<DrawCmd>>) -> Vec<DrawCmd> {
    let mut all = Vec::new();
    for part in parts {
        for cmd in part {
            all.push(cmd);
        }
    }
    all
}

fn stays_on_display(frame: &Vec<DrawCmd>) -> bool {
    for cmd in frame {
        let ok = match cmd {
            DrawCmd::Plot { col, row, .. } => *col < 80 && *row < 25,
            DrawCmd::PlotNum { col, row, .. } => *col < 80 && *row < 25,
            DrawCmd::PlotStr { col, row, .. } => *col < 80 && *row < 25,
            DrawCmd::ClearScreen => true,
        };
        if !ok {
            return false;
        }
    }
    true
}

fn obstacle_columns(game: &Frogger) -> Vec<usize> {
    let mut columns = Vec::new();
    for i in 0..10usize {
        columns.push(game.obstacle(i).unwrap().ox());
    }
    columns
}

fn pad_states(game: &Frogger) -> Vec<bool> {
    let mut states = Vec::new();
    for i in 0..5usize {
        states.push(game.lilypad(i).unwrap().taken());
    }
    states
}

fn started_game() -> Frogger {
    let mut game = Frogger::default();
    game.tick();
    game
}

#[test]
fn default_is_a_running_game_not_yet_laid_out() {
    let game = Frogger::default();
    assert_eq!(game.player().px(), 37);
    assert_eq!(game.player().py(), 23);
    assert_eq!(game.frogs(), 7);
    assert!(game.living());
    assert!(!game.init());
    assert!(game.started());
    assert_eq!(game.score(), 0);
    assert_eq!(game.hiscore(), 0);
    assert_eq!(game.ddelay(), 0);
    assert_eq!(game.currenty(), 21);
    assert_eq!(game.openl(), 5);
    assert_eq!(obstacle_columns(&game), vec![72; 10]);
    for i in 0..10usize {
        let obstacle = game.obstacle(i).unwrap();
        assert_eq!(obstacle.oy(), 20);
        assert_eq!(obstacle.speed(), 1);
        assert_eq!(obstacle.color(), Color::Blue);
    }
    for i in 0..5usize {
        let pad = game.lilypad(i).unwrap();
        assert_eq!(pad.lx(), 7);
        assert_eq!(pad.ly(), 3);
        assert!(!pad.taken());
    }
}

#[test]
fn getters_refuse_indices_out_of_range() {
    let game = Frogger::default();
    assert!(game.obstacle(9).is_some());
    assert!(game.obstacle(10).is_none());
    assert!(game.obstacle(usize::MAX).is_none());
    assert!(game.lilypad(4).is_some());
    assert!(game.lilypad(5).is_none());
}

#[test]
fn first_tick_lays_out_the_game() {
    let mut game = Frogger::default();
    let frame = game.tick();
    assert!(game.init());
    assert!(game.living());
    assert!(game.started());
    assert_eq!(game.frogs(), 7);
    assert_eq!(game.score(), 0);
    assert_eq!(game.openl(), 5);
    assert_eq!(game.currenty(), 21);
    assert_eq!(game.ddelay(), 0);
    assert_eq!(game.player().px(), 37);
    assert_eq!(game.player().py(), 23);
    for i in 0..5usize {
        let pad = game.lilypad(i).unwrap();
        assert_eq!(pad.lx(), 7 + 15 * i);
        assert_eq!(pad.ly(), 3);
        assert!(!pad.taken());
    }
    // Laid out, then moved once by the sweep of the same tick.
    assert_eq!(obstacle_columns(&game), vec![71, 29, 9, 49, 20, 48, 19, 38, 70, 26]);
    let rows: Vec<usize> = (0..10usize).map(|i| game.obstacle(i).unwrap().oy()).collect();
    assert_eq!(rows, vec![20, 20, 18, 18, 16, 16, 12, 12, 10, 10]);
    let speeds: Vec<usize> = (0..10usize).map(|i| game.obstacle(i).unwrap().speed()).collect();
    assert_eq!(speeds, vec![1, 1, 1, 1, 2, 2, 1, 1, 2, 2]);
    let colors: Vec<Color> = (0..10usize).map(|i| game.obstacle(i).unwrap().color()).collect();
    assert_eq!(
        colors,
        vec![
            Color::Blue,
            Color::LightGray,
            Color::LightBlue,
            Color::LightCyan,
            Color::Red,
            Color::LightRed,
            Color::Yellow,
            Color::White,
            Color::Brown,
            Color::Cyan,
        ]
    );
    assert_eq!(frame.len(), 785);
    assert!(stays_on_display(&frame));
}

#[test]
fn first_tick_draws_ground_frog_status_pads_and_obstacles() {
    let mut game = Frogger::default();
    let frame = game.tick();
    let k = Color::Black;
    // The far bank, column by column.
    assert_eq!(frame[0], cell(' ', 0, 2, k, Color::LightGreen));
    assert_eq!(frame[1], cell(' ', 0, 3, k, Color::LightGreen));
    assert_eq!(frame[2], cell(' ', 0, 4, k, Color::LightGreen));
    assert_eq!(frame[3], cell(' ', 1, 2, k, Color::LightGreen));
    assert_eq!(frame[239], cell(' ', 79, 4, k, Color::LightGreen));
    // The near bank, row by row.
    assert_eq!(frame[240], cell(' ', 0, 21, k, Color::Pink));
    assert_eq!(frame[319], cell(' ', 79, 21, k, Color::Pink));
    assert_eq!(frame[320], cell(' ', 0, 22, k, Color::Pink));
    assert_eq!(frame[399], cell(' ', 79, 22, k, Color::Pink));
    // The frog and the status line.
    assert_eq!(frame[400..408].to_vec(), frog_at(37, 23));
    assert_eq!(frame[408..416].to_vec(), status_line(0, 7));
    // The first goal slot, empty.
    assert_eq!(frame[416], cell(' ', 6, 3, k, Color::Green));
    assert_eq!(frame[417], cell(' ', 6, 4, k, Color::Green));
    assert_eq!(frame[418], cell(' ', 6, 2, k, Color::Blue));
    assert_eq!(frame[428], cell(' ', 9, 4, k, Color::Blue));
    // The last goal slot begins at column 66.
    assert_eq!(frame[468], cell(' ', 66, 3, k, Color::Green));
    // Status line of the new game, then the frog moved to the start.
    assert_eq!(frame[481..489].to_vec(), status_line(0, 7));
    assert_eq!(frame[489..497].to_vec(), blank_at(37, 23));
    assert_eq!(frame[497..505].to_vec(), frog_at(37, 23));
    // First obstacle: erased at column 72, drawn at column 71.
    assert_eq!(frame[505], cell(' ', 72, 19, k, k));
    assert_eq!(frame[506], cell(' ', 72, 20, k, k));
    assert_eq!(frame[519], cell('(', 71, 20, Color::Blue, k));
    assert_eq!(frame[520], cell('(', 71, 19, Color::Blue, k));
    assert_eq!(frame[784], cell(']', 32, 9, Color::Cyan, k));
}

#[test]
fn tick_moves_every_obstacle_by_its_speed() {
    let mut game = started_game();
    game.tick();
    assert_eq!(obstacle_columns(&game), vec![70, 28, 8, 48, 18, 46, 18, 37, 68, 24]);
    let frame = game.tick();
    assert_eq!(obstacle_columns(&game), vec![69, 27, 7, 47, 16, 44, 17, 36, 66, 22]);
    assert_eq!(frame.len(), 280);
    assert!(stays_on_display(&frame));
    assert_eq!(game.frogs(), 7);
    assert!(game.living());
    assert_eq!(game.score(), 0);
}

#[test]
fn obstacles_wrap_around_their_lane() {
    let mut game = started_game();
    // Obstacle 2 is at column 9 and moves one column per tick.
    for _ in 0..9 {
        game.tick();
    }
    assert_eq!(game.obstacle(2).unwrap().ox(), 0);
    let frame = game.tick();
    assert_eq!(game.obstacle(2).unwrap().ox(), 76);
    assert!(stays_on_display(&frame));
    // At column 76 only the four columns 76 to 79 of the glyph are drawn.
    let mut out = Vec::new();
    game.obstacle(2).unwrap().draw(&mut out);
    let c = Color::LightBlue;
    let k = Color::Black;
    assert_eq!(
        out,
        vec![
            cell('(', 76, 18, c, k),
            cell('(', 76, 17, c, k),
            cell('0', 77, 18, c, k),
            cell('0', 77, 17, c, k),
            cell('_', 78, 17, c, c),
            cell('_', 78, 18, c, c),
            cell('_', 79, 17, c, c),
            cell('_', 79, 18, c, c),
        ]
    );
    let mut erased = Vec::new();
    game.obstacle(2).unwrap().clear(&mut erased);
    assert_eq!(erased.len(), 8);
    assert_eq!(erased[0], cell(' ', 76, 17, k, k));
    assert_eq!(erased[7], cell(' ', 79, 18, k, k));
    // Obstacle 4 moves two columns per tick: 20 after the first tick, then
    // 0 after ten more, then 75.
    assert_eq!(game.obstacle(4).unwrap().ox(), 0);
    game.tick();
    assert_eq!(game.obstacle(4).unwrap().ox(), 75);
}

#[test]
fn right_moves_two_columns() {
    let mut game = started_game();
    let frame = press(&mut game, ControlCode::ArrowRight);
    assert_eq!(game.player().px(), 39);
    assert_eq!(game.player().py(), 23);
    assert_eq!(frame, joined(vec![blank_at(37, 23), frog_at(39, 23)]));
    assert_eq!(game.score(), 0);
}

#[test]
fn left_moves_two_columns() {
    let mut game = started_game();
    let frame = press(&mut game, ControlCode::ArrowLeft);
    assert_eq!(game.player().px(), 35);
    assert_eq!(game.player().py(), 23);
    assert_eq!(frame, joined(vec![blank_at(37, 23), frog_at(35, 23)]));
}

#[test]
fn left_wraps_at_the_edge_of_the_display() {
    let mut game = started_game();
    for _ in 0..18 {
        press(&mut game, ControlCode::ArrowLeft);
    }
    assert_eq!(game.player().px(), 1);
    let frame = press(&mut game, ControlCode::ArrowLeft);
    assert_eq!(game.player().px(), 79);
    let c = Color::Black;
    let fg = Color::LightGreen;
    // The cells of the glyph beside the display are left out.
    assert_eq!(
        frame,
        vec![
            cell(' ', 0, 23, c, c),
            cell(' ', 1, 23, c, c),
            cell(' ', 2, 23, c, c),
            cell(' ', 0, 24, c, c),
            cell(' ', 1, 24, c, c),
            cell(' ', 2, 24, c, c),
            cell(' ', 3, 24, c, c),
            cell('-', 79, 23, fg, c),
            cell('0', 78, 23, fg, c),
            cell('^', 77, 24, fg, c),
            cell('(', 78, 24, fg, c),
            cell('_', 79, 24, fg, c),
        ]
    );
    press(&mut game, ControlCode::ArrowLeft);
    assert_eq!(game.player().px(), 77);
}

#[test]
fn right_wraps_at_the_edge_of_the_display() {
    let mut game = started_game();
    for _ in 0..21 {
        press(&mut game, ControlCode::ArrowRight);
    }
    assert_eq!(game.player().px(), 79);
    let frame = press(&mut game, ControlCode::ArrowRight);
    assert_eq!(game.player().px(), 1);
    let c = Color::Black;
    let fg = Color::LightGreen;
    assert_eq!(
        frame,
        vec![
            cell(' ', 78, 23, c, c),
            cell(' ', 79, 23, c, c),
            cell(' ', 77, 24, c, c),
            cell(' ', 78, 24, c, c),
            cell(' ', 79, 24, c, c),
            cell('-', 1, 23, fg, c),
            cell('0', 0, 23, fg, c),
            cell('0', 2, 23, fg, c),
            cell('(', 0, 24, fg, c),
            cell('_', 1, 24, fg, c),
            cell(')', 2, 24, fg, c),
            cell('^', 3, 24, fg, c),
        ]
    );
}

#[test]
fn down_on_the_start_row_does_nothing() {
    let mut game = started_game();
    let frame = press(&mut game, ControlCode::ArrowDown);
    assert!(frame.is_empty());
    assert_eq!(game.player().py(), 23);
}

#[test]
fn down_moves_two_rows_back() {
    let mut game = started_game();
    press(&mut game, ControlCode::ArrowUp);
    press(&mut game, ControlCode::ArrowUp);
    assert_eq!(game.player().py(), 19);
    let frame = press(&mut game, ControlCode::ArrowDown);
    assert_eq!(game.player().py(), 21);
    assert_eq!(frame, joined(vec![blank_at(37, 19), frog_at(37, 21)]));
    press(&mut game, ControlCode::ArrowDown);
    assert_eq!(game.player().py(), 23);
    assert!(press(&mut game, ControlCode::ArrowDown).is_empty());
}

#[test]
fn first_step_up_earns_nothing() {
    let mut game = started_game();
    let frame = press(&mut game, ControlCode::ArrowUp);
    assert_eq!(game.player().py(), 21);
    assert_eq!(game.score(), 0);
    assert_eq!(game.currenty(), 21);
    assert_eq!(frame, joined(vec![blank_at(37, 23), frog_at(37, 21)]));
}

#[test]
fn a_new_row_earns_the_progress_bonus() {
    let mut game = started_game();
    press(&mut game, ControlCode::ArrowUp);
    let frame = press(&mut game, ControlCode::ArrowUp);
    assert_eq!(game.player().py(), 19);
    assert_eq!(game.score(), 10);
    assert_eq!(game.currenty(), 19);
    assert_eq!(frame, joined(vec![blank_at(37, 21), status_line(10, 7), frog_at(37, 19)]));
}

#[test]
fn a_row_reached_before_earns_nothing() {
    let mut game = started_game();
    press(&mut game, ControlCode::ArrowUp);
    press(&mut game, ControlCode::ArrowUp);
    press(&mut game, ControlCode::ArrowDown);
    let frame = press(&mut game, ControlCode::ArrowUp);
    assert_eq!(game.player().py(), 19);
    assert_eq!(game.score(), 10);
    assert_eq!(frame.len(), 16);
    press(&mut game, ControlCode::ArrowUp);
    assert_eq!(game.score(), 20);
    assert_eq!(game.currenty(), 17);
}

#[test]
fn other_control_keys_are_ignored() {
    let mut game = started_game();
    let frame = press(&mut game, ControlCode::Other);
    assert!(frame.is_empty());
    assert_eq!(game.player().px(), 37);
    assert_eq!(game.player().py(), 23);
    assert_eq!(game.score(), 0);
}

#[test]
fn characters_are_ignored_while_a_game_runs() {
    let mut game = started_game();
    press(&mut game, ControlCode::ArrowUp);
    press(&mut game, ControlCode::ArrowUp);
    for c in ['s', 'S', 'a', 'd', ' ', '\n'] {
        let frame = type_char(&mut game, c);
        assert!(frame.is_empty());
    }
    assert!(game.started());
    assert_eq!(game.score(), 10);
    assert_eq!(obstacle_columns(&game), vec![71, 29, 9, 49, 20, 48, 19, 38, 70, 26]);
}

#[test]
fn landing_takes_the_slot_in_the_column_of_the_frog() {
    let mut game = started_game();
    let mut frame = Vec::new();
    for _ in 0..10 {
        frame = press(&mut game, ControlCode::ArrowUp);
    }
    // Eight new rows on the way, then the slot bonus.
    assert_eq!(game.score(), 130);
    assert_eq!(game.frogs(), 6);
    assert_eq!(game.openl(), 4);
    assert_eq!(pad_states(&game), vec![false, false, true, false, false]);
    assert_eq!(game.player().px(), 37);
    assert_eq!(game.player().py(), 23);
    assert_eq!(game.currenty(), 21);
    assert!(game.living());
    assert!(game.started());
    let fg = Color::LightGreen;
    let home = vec![
        cell('-', 37, 4, fg, Color::Green),
        cell('0', 36, 4, fg, Color::Green),
        cell('0', 38, 4, fg, Color::Green),
        cell('(', 36, 3, fg, Color::Green),
        cell(')', 38, 3, fg, Color::Green),
        cell('v', 39, 3, fg, Color::Blue),
        cell('v', 35, 3, fg, Color::Blue),
    ];
    assert_eq!(
        frame,
        joined(vec![
            blank_at(37, 5),
            status_line(130, 7),
            home,
            vec![cell(' ', 31, 1, Color::Black, Color::Black)],
            frog_at(37, 23),
            frog_at(37, 23),
        ])
    );
}

#[test]
fn a_taken_slot_takes_no_second_frog() {
    let mut game = started_game();
    for _ in 0..10 {
        press(&mut game, ControlCode::ArrowUp);
    }
    assert_eq!(pad_states(&game), vec![false, false, true, false, false]);
    let mut frame = Vec::new();
    for _ in 0..10 {
        frame = press(&mut game, ControlCode::ArrowUp);
    }
    // The step onto the goal row is taken back; the rows on the way paid.
    assert_eq!(game.player().px(), 37);
    assert_eq!(game.player().py(), 5);
    assert_eq!(game.score(), 210);
    assert_eq!(game.frogs(), 6);
    assert_eq!(game.openl(), 4);
    assert_eq!(pad_states(&game), vec![false, false, true, false, false]);
    assert_eq!(frame, joined(vec![blank_at(37, 5), frog_at(37, 5), frog_at(37, 5)]));
    press(&mut game, ControlCode::ArrowUp);
    assert_eq!(game.player().py(), 5);
    assert_eq!(game.score(), 210);
    assert_eq!(game.openl(), 4);
}

#[test]
fn no_landing_beside_the_slots() {
    let mut game = started_game();
    press(&mut game, ControlCode::ArrowRight);
    for _ in 0..10 {
        press(&mut game, ControlCode::ArrowUp);
    }
    assert_eq!(game.player().px(), 39);
    assert_eq!(game.player().py(), 5);
    assert_eq!(game.score(), 80);
    assert_eq!(game.frogs(), 7);
    assert_eq!(game.openl(), 5);
    assert_eq!(pad_states(&game), vec![false; 5]);
}

#[test]
fn landings_on_the_first_and_the_last_slot() {
    let mut game = started_game();
    for _ in 0..15 {
        press(&mut game, ControlCode::ArrowLeft);
    }
    assert_eq!(game.player().px(), 7);
    for _ in 0..10 {
        press(&mut game, ControlCode::ArrowUp);
    }
    assert_eq!(pad_states(&game), vec![true, false, false, false, false]);
    assert_eq!(game.score(), 130);
    assert_eq!(game.frogs(), 6);
    assert_eq!(game.openl(), 4);
    assert_eq!(game.player().px(), 37);
    for _ in 0..15 {
        press(&mut game, ControlCode::ArrowRight);
    }
    assert_eq!(game.player().px(), 67);
    for _ in 0..10 {
        press(&mut game, ControlCode::ArrowUp);
    }
    assert_eq!(pad_states(&game), vec![true, false, false, false, true]);
    assert_eq!(game.score(), 260);
    assert_eq!(game.frogs(), 5);
    assert_eq!(game.openl(), 3);
}

#[test]
fn a_collision_costs_one_frog() {
    let mut game = started_game();
    press(&mut game, ControlCode::ArrowUp);
    press(&mut game, ControlCode::ArrowUp);
    // Obstacle 0 is at column 71 and reaches the frog at column 38.
    let mut frame = Vec::new();
    let mut ticks = 0;
    while game.living() {
        assert!(ticks < 100);
        frame = game.tick();
        ticks += 1;
    }
    assert_eq!(ticks, 33);
    assert_eq!(game.obstacle(0).unwrap().ox(), 38);
    assert_eq!(game.frogs(), 6);
    assert!(!game.living());
    assert!(game.started());
    assert!(game.init());
    assert_eq!(game.score(), 10);
    assert_eq!(game.player().px(), 37);
    assert_eq!(game.player().py(), 19);
    assert!(stays_on_display(&frame));
    // After the first obstacle: the marker of the spent frog blanked, then
    // the status line.
    assert_eq!(frame[27], cell(']', 44, 19, Color::Blue, Color::Black));
    assert_eq!(frame[28], cell(' ', 31, 1, Color::Black, Color::Black));
    assert_eq!(frame[29..36].to_vec(), status_line(10, 6));
    assert_eq!(frame.len(), 286);
}

#[test]
fn a_dead_frog_lies_for_three_ticks_and_is_replaced() {
    let mut game = started_game();
    press(&mut game, ControlCode::ArrowUp);
    press(&mut game, ControlCode::ArrowUp);
    while game.living() {
        game.tick();
    }
    let columns = obstacle_columns(&game);
    let fg = Color::LightGreen;
    let k = Color::Black;
    let first = game.tick();
    assert_eq!(
        first,
        joined(vec![
            frog_at(37, 19),
            vec![cell('x', 36, 19, fg, k), cell('x', 38, 19, fg, k), cell(' ', 31, 1, k, k)],
        ])
    );
    assert_eq!(game.ddelay(), 1);
    assert!(game.tick().is_empty());
    assert_eq!(game.ddelay(), 2);
    assert!(game.tick().is_empty());
    assert_eq!(game.ddelay(), 3);
    assert!(!game.living());
    let last = game.tick();
    assert_eq!(last, joined(vec![blank_at(37, 19), frog_at(37, 23)]));
    assert!(game.living());
    assert_eq!(game.ddelay(), 0);
    assert_eq!(game.currenty(), 21);
    assert_eq!(game.player().px(), 37);
    assert_eq!(game.player().py(), 23);
    assert_eq!(game.frogs(), 6);
    // Obstacles rest while the frog lies dead.
    assert_eq!(obstacle_columns(&game), columns);
}

#[test]
fn a_dead_frog_does_not_move() {
    let mut game = started_game();
    press(&mut game, ControlCode::ArrowUp);
    press(&mut game, ControlCode::ArrowUp);
    while game.living() {
        game.tick();
    }
    for code in [
        ControlCode::ArrowLeft,
        ControlCode::ArrowRight,
        ControlCode::ArrowUp,
        ControlCode::ArrowDown,
        ControlCode::Other,
    ] {
        let frame = press(&mut game, code);
        assert!(frame.is_empty());
    }
    assert_eq!(game.player().px(), 37);
    assert_eq!(game.player().py(), 19);
    assert_eq!(game.score(), 10);
}

#[test]
fn every_frame_of_a_long_game_stays_on_the_display() {
    let mut game = Frogger::default();
    let keys = [
        ControlCode::ArrowUp,
        ControlCode::ArrowLeft,
        ControlCode::ArrowUp,
        ControlCode::ArrowRight,
        ControlCode::ArrowRight,
        ControlCode::ArrowDown,
        ControlCode::ArrowUp,
    ];
    for step in 0..3000usize {
        let frame = game.tick();
        assert!(stays_on_display(&frame));
        let frame = press(&mut game, keys[step % 7]);
        assert!(stays_on_display(&frame));
        if step % 5 == 0 {
            let frame = press(&mut game, ControlCode::ArrowLeft);
            assert!(stays_on_display(&frame));
        }
        if !game.started() {
            let frame = type_char(&mut game, 's');
            assert!(stays_on_display(&frame));
        }
        assert!(game.player().px() < 80);
        assert!(game.player().py() >= 5 && game.player().py() <= 23);
        assert_eq!(game.player().py() % 2, 1);
        assert!(game.frogs() <= 7);
        assert!(game.openl() >= 1 && game.openl() <= 5);
        let open = pad_states(&game).iter().filter(|taken| !**taken).count();
        assert_eq!(game.openl(), open);
        for column in obstacle_columns(&game) {
            assert!(column < 77);
        }
    }
}
