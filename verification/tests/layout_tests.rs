use sophia::layout::{
    centered_constraints, centered_rect, chart_only_areas, dashboard_areas, help_area, screen_areas,
    stats_grid_areas, Constraint, Rect,
};

fn rect(x: u16, y: u16, width: u16, height: u16) -> Rect {
    Rect { x, y, width, height }
}

#[test]
fn screen_has_header_content_and_footer() {
    let parts = screen_areas(rect(0, 0, 80, 24));
    assert_eq!(parts, vec![rect(0, 0, 80, 3), rect(0, 3, 80, 20), rect(0, 23, 80, 1)]);
}

#[test]
fn dashboard_gives_the_tiles_six_rows() {
    let parts = dashboard_areas(rect(0, 3, 80, 20));
    assert_eq!(parts, vec![rect(0, 3, 80, 14), rect(0, 17, 80, 6)]);
}

#[test]
fn chart_only_gives_the_bar_three_rows() {
    let parts = chart_only_areas(rect(0, 3, 80, 20));
    assert_eq!(parts, vec![rect(0, 3, 80, 17), rect(0, 20, 80, 3)]);
}

#[test]
fn tiles_split_the_row_in_six() {
    let parts = stats_grid_areas(rect(0, 17, 100, 6));
    assert_eq!(parts.len(), 6);
    assert!(parts.iter().all(|p| p.y == 17 && p.height == 6));
    assert_eq!(parts[0], rect(0, 17, 16, 6));
    assert_eq!(parts[5], rect(80, 17, 20, 6));
}

#[test]
fn centered_constraints_share_the_rest() {
    assert_eq!(
        centered_constraints(40),
        vec![Constraint::Percentage(30), Constraint::Percentage(40), Constraint::Percentage(30)]
    );
    assert_eq!(
        centered_constraints(61),
        vec![Constraint::Percentage(19), Constraint::Percentage(61), Constraint::Percentage(19)]
    );
    assert_eq!(
        centered_constraints(100),
        vec![Constraint::Percentage(0), Constraint::Percentage(100), Constraint::Percentage(0)]
    );
}

#[test]
fn centered_rect_is_in_the_middle() {
    assert_eq!(centered_rect(60, 40, rect(0, 0, 100, 50)), rect(20, 15, 60, 20));
}

#[test]
fn help_window_is_sixty_by_forty_percent() {
    assert_eq!(help_area(rect(0, 0, 100, 50)), rect(20, 15, 60, 20));
}

#[test]
fn centered_rect_stays_inside_an_offset_area() {
    let outer = rect(7, 4, 33, 17);
    let c = centered_rect(50, 50, outer);
    assert!(outer.x <= c.x && c.x + c.width <= outer.x + outer.width);
    assert!(outer.y <= c.y && c.y + c.height <= outer.y + outer.height);
    assert_ne!(c, outer);
}

#[test]
fn split_parts_lie_inside_the_area() {
    let area = rect(3, 2, 50, 30);
    for p in screen_areas(area) {
        assert!(area.y <= p.y && p.y + p.height <= area.y + area.height);
        assert_eq!((p.x, p.width), (area.x, area.width));
    }
    for p in stats_grid_areas(area) {
        assert!(area.x <= p.x && p.x + p.width <= area.x + area.width);
        assert_eq!((p.y, p.height), (area.y, area.height));
    }
}

#[test]
fn help_window_on_a_square_screen() {
    assert_eq!(centered_rect(60, 40, rect(0, 0, 100, 100)), rect(20, 30, 60, 40));
}
