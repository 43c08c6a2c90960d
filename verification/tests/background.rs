use raclettui::background::BackgroundGrid;
use raclettui::colors::RaclettuiColor;

#[test]
fn background_new_is_transparent() {
    let g = BackgroundGrid::new(2, 3);
    assert_eq!(g.bg_buffer.len(), 6);
    for r in 0..2 {
        for c in 0..3 {
            assert_eq!(g.bg_at(r, c).to_rgba(), (0, 0, 0, 0));
        }
    }
}

#[test]
fn background_set_then_read() {
    let mut g = BackgroundGrid::new(2, 3);
    g.set_bg(1, 2, RaclettuiColor::from_rgb(1, 2, 3));
    g.set_bg(0, 1, RaclettuiColor::from_rgba(4, 5, 6, 7));
    assert_eq!(g.bg_at(1, 2).to_rgba(), (1, 2, 3, 255));
    assert_eq!(g.bg_at(0, 1).to_rgba(), (4, 5, 6, 7));
    assert_eq!(g.bg_at(1, 1).to_rgba(), (0, 0, 0, 0));
    assert_eq!(g.bg_buffer[5].to_rgba(), (1, 2, 3, 255));
}
