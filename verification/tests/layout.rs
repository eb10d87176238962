use cloudwatch_tui::layout::{center_area, centered_rect, Rect};

#[test]
fn test_centered_rect_calculation() {
    let area = Rect { x: 0, y: 0, width: 100, height: 50 };
    let centered = centered_rect(60, 40, area);

    // Should be centered within the area
    assert!(centered.x >= area.x);
    assert!(centered.y >= area.y);
    assert!(centered.width <= area.width);
    assert!(centered.height <= area.height);
}

#[test]
fn centered_rect_exact_placement() {
    let area = Rect { x: 0, y: 0, width: 100, height: 50 };
    assert_eq!(centered_rect(60, 40, area), Rect { x: 20, y: 15, width: 60, height: 20 });
}

#[test]
fn center_area_places_in_middle() {
    let area = Rect { x: 0, y: 0, width: 100, height: 40 };
    assert_eq!(center_area(area, 40, 8), Rect { x: 30, y: 16, width: 40, height: 8 });
    let area = Rect { x: 10, y: 5, width: 80, height: 20 };
    assert_eq!(center_area(area, 60, 10), Rect { x: 20, y: 10, width: 60, height: 10 });
}
