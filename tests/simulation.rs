use std::collections::VecDeque;

use snake::{Direction, GameError, GameGrid, GameInstance, GridCell, Snake, TerminalSize};

fn cell(x: u16, y: u16) -> GridCell {
    GridCell { x, y }
}

/// A board with x and y both running from 2 to 10.
fn board() -> GameGrid {
    GameGrid::new(&TerminalSize::new((11, 11)), 100).unwrap()
}

fn instance(body: &[(u16, u16)], food: (u16, u16), direction: Direction) -> GameInstance {
    let body: VecDeque<GridCell> = body.iter().map(|&(x, y)| cell(x, y)).collect();
    GameInstance {
        grid: board(),
        snake: Snake { body, old_tail: None },
        food: cell(food.0, food.1),
        direction,
    }
}

fn body_of(g: &GameInstance) -> Vec<(u16, u16)> {
    g.snake.body.iter().map(|c| (c.x, c.y)).collect()
}

#[test]
fn board_bounds_for_full_terminal() {
    let g = board();
    assert_eq!(g.get_corners(), (2, 2, 10, 10));
    assert_eq!(g.cells.len(), 81);
}

#[test]
fn board_bounds_for_small_fraction() {
    let g = GameGrid::new(&TerminalSize::new((80, 24)), 70).unwrap();
    assert_eq!(g.get_corners(), (25, 8, 55, 16));
    assert_eq!(g.cells.len(), 31 * 9);
}

#[test]
fn board_bounds_for_medium_fraction() {
    let g = GameGrid::new(&TerminalSize::new((80, 24)), 85).unwrap();
    assert_eq!(g.get_corners(), (13, 5, 67, 19));
}

#[test]
fn terminal_too_small_is_refused() {
    assert!(matches!(
        GameGrid::new(&TerminalSize::new((7, 10)), 100),
        Err(GameError::TerminalTooSmall)
    ));
    assert!(matches!(
        GameGrid::new(&TerminalSize::new((0, 0)), 100),
        Err(GameError::TerminalTooSmall)
    ));
    assert!(matches!(
        GameInstance::new(&TerminalSize::new((10, 10)), 70),
        Err(GameError::TerminalTooSmall)
    ));
    assert!(GameGrid::new(&TerminalSize::new((8, 3)), 100).is_ok());
}

#[test]
fn cells_are_listed_column_by_column() {
    let cells = GameGrid::fill_cells(2, 2, 3, 4);
    let got: Vec<(u16, u16)> = cells.iter().map(|c| (c.x, c.y)).collect();
    assert_eq!(got, vec![(2, 2), (2, 3), (2, 4), (3, 2), (3, 3), (3, 4)]);
    assert!(GameGrid::fill_cells(5, 2, 4, 4).is_empty());
    assert!(GameGrid::fill_cells(2, 5, 4, 4).is_empty());
}

#[test]
fn new_snake_lies_on_middle_row() {
    let s = Snake::new(&board());
    let got: Vec<(u16, u16)> = s.body.iter().map(|c| (c.x, c.y)).collect();
    assert_eq!(got, vec![(9, 6), (8, 6), (7, 6), (6, 6), (5, 6)]);
    assert_eq!(s.old_tail, None);
}

#[test]
fn new_game_is_set_up() {
    let g = GameInstance::new(&TerminalSize::new((11, 11)), 100).unwrap();
    assert_eq!(body_of(&g), vec![(9, 6), (8, 6), (7, 6), (6, 6), (5, 6)]);
    assert_eq!(g.direction, Direction::Right);
    assert!(!g.snake.body.contains(&g.food));
    assert!(g.grid.cells.contains(&g.food));
}

#[test]
fn welcome_game_is_set_up() {
    let g = GameInstance::new_welcome(&TerminalSize::new((11, 11))).unwrap();
    assert_eq!(body_of(&g), vec![(5, 7), (6, 7), (7, 7), (8, 7), (9, 7)]);
    assert_eq!(g.direction, Direction::Left);
    assert_eq!(g.snake.old_tail, None);
    assert!(!g.snake.body.contains(&g.food));
    assert!(matches!(
        GameInstance::new_welcome(&TerminalSize::new((8, 3))),
        Err(GameError::TerminalTooSmall)
    ));
}

#[test]
fn snake_parts_move() {
    let mut s = Snake::new(&board());
    s.add_head(cell(10, 6));
    assert_eq!(s.body.len(), 6);
    assert_eq!(*s.get_head(), cell(10, 6));
    s.remove_tail();
    assert_eq!(s.body.len(), 5);
    assert_eq!(s.old_tail, Some(cell(5, 6)));
    s.restore_tail();
    assert_eq!(s.body.len(), 6);
    assert_eq!(s.body[5], cell(5, 6));
    assert_eq!(s.old_tail, None);
}

#[test]
fn tick_moves_left_without_input() {
    let mut g = instance(&[(4, 6), (5, 6), (6, 6), (7, 6), (8, 6)], (9, 9), Direction::Left);
    assert!(g.game_cycle());
    assert_eq!(body_of(&g), vec![(3, 6), (4, 6), (5, 6), (6, 6), (7, 6)]);
    assert_eq!(g.snake.old_tail, Some(cell(8, 6)));
    assert_eq!(g.food, cell(9, 9));
}

#[test]
fn eating_grows_snake_and_moves_food() {
    let mut g = instance(&[(3, 6), (4, 6), (5, 6), (6, 6), (7, 6)], (2, 6), Direction::Left);
    assert!(g.game_cycle());
    assert_eq!(body_of(&g), vec![(2, 6), (3, 6), (4, 6), (5, 6), (6, 6), (7, 6)]);
    assert_eq!(g.snake.old_tail, None);
    assert!(!g.snake.body.contains(&g.food));
    assert!(g.grid.cells.contains(&g.food));
}

#[test]
fn right_edge_wraps_to_left_edge() {
    let mut g = instance(&[(10, 6), (9, 6), (8, 6), (7, 6), (6, 6)], (5, 5), Direction::Right);
    assert!(g.game_cycle());
    assert_eq!(*g.snake.get_head(), cell(2, 6));
}

#[test]
fn other_edges_wrap() {
    let mut g = instance(&[(2, 6), (3, 6)], (5, 5), Direction::Left);
    g.move_snake();
    assert_eq!(*g.snake.get_head(), cell(10, 6));
    let mut g = instance(&[(4, 2), (4, 3)], (5, 5), Direction::Up);
    g.move_snake();
    assert_eq!(*g.snake.get_head(), cell(4, 10));
    let mut g = instance(&[(4, 10), (4, 9)], (5, 5), Direction::Down);
    g.move_snake();
    assert_eq!(*g.snake.get_head(), cell(4, 2));
}

#[test]
fn inside_moves_are_one_cell() {
    for (direction, expected) in [
        (Direction::Up, (6, 5)),
        (Direction::Down, (6, 7)),
        (Direction::Left, (5, 6)),
        (Direction::Right, (7, 6)),
    ] {
        let mut g = instance(&[(6, 6), (6, 6), (6, 6)], (9, 9), direction);
        g.move_snake();
        assert_eq!(*g.snake.get_head(), cell(expected.0, expected.1));
        assert_eq!(g.snake.body.len(), 3);
    }
}

#[test]
fn turns_only_across_the_axis() {
    let mut g = instance(&[(6, 6)], (9, 9), Direction::Right);
    g.request_direction(Direction::Left);
    assert_eq!(g.direction, Direction::Right);
    g.request_direction(Direction::Right);
    assert_eq!(g.direction, Direction::Right);
    g.request_direction(Direction::Up);
    assert_eq!(g.direction, Direction::Up);
    g.request_direction(Direction::Down);
    assert_eq!(g.direction, Direction::Up);
    g.request_direction(Direction::Left);
    assert_eq!(g.direction, Direction::Left);
    assert!(Direction::Up.vertical() && Direction::Down.vertical());
    assert!(!Direction::Left.vertical() && !Direction::Right.vertical());
}

#[test]
fn running_into_body_ends_game() {
    let mut g = instance(&[(5, 5), (6, 5), (6, 6), (5, 6), (4, 6)], (9, 9), Direction::Down);
    assert!(!g.game_cycle());
    assert!(g.check_collision());
}

#[test]
fn following_the_tail_is_no_collision() {
    let mut g = instance(&[(5, 5), (6, 5), (6, 6), (5, 6)], (9, 9), Direction::Down);
    assert!(g.game_cycle());
    assert_eq!(body_of(&g), vec![(5, 6), (5, 5), (6, 5), (6, 6)]);
}

#[test]
fn single_cell_never_collides() {
    let mut g = instance(&[(5, 5)], (9, 9), Direction::Down);
    for _ in 0..30 {
        assert!(g.game_cycle());
    }
}

#[test]
fn collision_on_food_ends_game() {
    let mut g = instance(&[(5, 5), (6, 5), (6, 6), (5, 6), (4, 6)], (5, 6), Direction::Down);
    assert!(!g.game_cycle());
    assert_eq!(g.snake.body.len(), 5);
    assert_eq!(g.food, cell(5, 6));
}

#[test]
fn filling_the_board_ends_game() {
    let grid = GameGrid::new(&TerminalSize::new((8, 3)), 100).unwrap();
    assert_eq!(grid.get_corners(), (2, 2, 7, 2));
    let body: VecDeque<GridCell> = (3..=7).map(|x| cell(x, 2)).collect();
    let mut g = GameInstance {
        grid,
        snake: Snake { body, old_tail: None },
        food: cell(2, 2),
        direction: Direction::Left,
    };
    assert!(!g.game_cycle());
    assert_eq!(g.snake.body.len(), 6);
}

#[test]
fn food_never_lands_on_snake() {
    let g = instance(&[(3, 6), (4, 6), (5, 6), (6, 6), (7, 6)], (2, 2), Direction::Left);
    for _ in 0..500 {
        let food = GameInstance::generate_random_food(&g.grid.cells, &g.snake).unwrap();
        assert!(!g.snake.body.contains(&food));
        assert!(g.grid.cells.contains(&food));
    }
}

#[test]
fn only_free_cell_is_picked() {
    let grid = GameGrid::new(&TerminalSize::new((8, 3)), 100).unwrap();
    let body: VecDeque<GridCell> = (2..=6).map(|x| cell(x, 2)).collect();
    let snake = Snake { body, old_tail: None };
    for _ in 0..20 {
        assert_eq!(
            GameInstance::generate_random_food(&grid.cells, &snake),
            Some(cell(7, 2))
        );
    }
    let body: VecDeque<GridCell> = (2..=7).map(|x| cell(x, 2)).collect();
    let full = Snake { body, old_tail: None };
    assert_eq!(GameInstance::generate_random_food(&grid.cells, &full), None);
}

#[test]
fn food_by_index_skips_snake() {
    let grid = GameGrid::new(&TerminalSize::new((8, 3)), 100).unwrap();
    let body: VecDeque<GridCell> = [cell(3, 2), cell(5, 2)].into_iter().collect();
    let snake = Snake { body, old_tail: None };
    let free = GameInstance::empty_cells(&grid.cells, &snake);
    assert_eq!(free, vec![cell(2, 2), cell(4, 2), cell(6, 2), cell(7, 2)]);
    assert_eq!(GameInstance::place_food_at(&grid.cells, &snake, 1), Some(cell(4, 2)));
    assert_eq!(GameInstance::place_food_at(&grid.cells, &snake, 3), Some(cell(7, 2)));
    assert_eq!(GameInstance::place_food_at(&grid.cells, &snake, 4), None);
}
