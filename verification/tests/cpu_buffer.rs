use raclettui::cpu_buffer::{CpuBuffer, Glyph};

fn pixel(b: &CpuBuffer, x: usize, y: usize) -> (u8, u8, u8, u8) {
    let i = (y * b.window_width as usize + x) * 4;
    (b.inner[i + 2], b.inner[i + 1], b.inner[i], b.inner[i + 3])
}

#[test]
fn cpu_buffer_new_is_transparent() {
    let b = CpuBuffer::new(4, 3, 2, 1);
    assert_eq!(b.inner.len(), 48);
    assert!(b.inner.iter().all(|v| *v == 0));
    assert_eq!(b.rows(), 3);
    assert_eq!(b.cols(), 2);
}

#[test]
fn cpu_buffer_rows_cols_round_down() {
    let b = CpuBuffer::new(10, 7, 3, 2);
    assert_eq!(b.cols(), 3);
    assert_eq!(b.rows(), 3);
}

#[test]
fn cpu_buffer_clear_stores_bgra() {
    let mut b = CpuBuffer::new(4, 3, 2, 1);
    b.clear((1, 2, 3, 4));
    for k in 0..12 {
        assert_eq!(&b.inner[k * 4..k * 4 + 4], &[3, 2, 1, 4]);
    }
}

#[test]
fn cpu_buffer_set_bg_paints_cell_only() {
    let mut b = CpuBuffer::new(4, 3, 2, 1);
    b.set_bg_at_cell(1, 2, (10, 20, 30, 40));
    for y in 0..3 {
        for x in 0..4 {
            let expected = if y == 2 && x >= 2 { (10, 20, 30, 40) } else { (0, 0, 0, 0) };
            assert_eq!(pixel(&b, x, y), expected);
        }
    }
    assert_eq!(&b.inner[40..48], &[30, 20, 10, 40, 30, 20, 10, 40]);
}

#[test]
fn cpu_buffer_set_bg_zero_sized_cell() {
    let mut b = CpuBuffer::new(4, 3, 0, 1);
    b.set_bg_at_cell(7, 1, (10, 20, 30, 40));
    assert!(b.inner.iter().all(|v| *v == 0));
}

fn sample_glyph() -> Glyph {
    Glyph { xmin: 0, ymin: 0, width: 2, height: 2, bitmap: vec![255, 0, 100, 79] }
}

#[test]
fn cpu_buffer_glyph_threshold() {
    let mut b = CpuBuffer::new(4, 3, 2, 1);
    b.set_glyph_at_cell(&sample_glyph(), 0, 0, 2, (9, 8, 7, 6));
    assert_eq!(pixel(&b, 0, 0), (9, 8, 7, 6));
    assert_eq!(pixel(&b, 1, 0), (0, 0, 0, 0));
    assert_eq!(pixel(&b, 0, 1), (9, 8, 7, 6));
    assert_eq!(pixel(&b, 1, 1), (0, 0, 0, 0));
    assert_eq!(pixel(&b, 2, 0), (0, 0, 0, 0));
}

#[test]
fn cpu_buffer_glyph_clipped_at_window_edge() {
    let mut b = CpuBuffer::new(4, 3, 2, 1);
    b.set_glyph_at_cell(&sample_glyph(), 1, 2, 2, (9, 8, 7, 6));
    assert_eq!(pixel(&b, 2, 2), (9, 8, 7, 6));
    assert_eq!(pixel(&b, 3, 2), (0, 0, 0, 0));
    let painted = (0..12).filter(|k| b.inner[k * 4 + 3] == 6).count();
    assert_eq!(painted, 1);
}

#[test]
fn cpu_buffer_glyph_offsets() {
    let mut b = CpuBuffer::new(4, 3, 2, 1);
    let g = Glyph { xmin: 1, ymin: -1, width: 1, height: 1, bitmap: vec![200] };
    b.set_glyph_at_cell(&g, 0, 0, 0, (1, 1, 1, 1));
    assert_eq!(pixel(&b, 1, 0), (1, 1, 1, 1));
    let g2 = Glyph { xmin: -1, ymin: 0, width: 1, height: 1, bitmap: vec![200] };
    b.set_glyph_at_cell(&g2, 0, 0, 1, (2, 2, 2, 2));
    assert_eq!(b.inner.iter().filter(|v| **v == 2).count(), 0);
}

#[test]
fn cpu_buffer_glyph_keeps_background() {
    let mut b = CpuBuffer::new(4, 3, 2, 1);
    b.set_bg_at_cell(0, 0, (5, 5, 5, 5));
    b.set_glyph_at_cell(&sample_glyph(), 0, 0, 2, (9, 8, 7, 6));
    assert_eq!(pixel(&b, 0, 0), (9, 8, 7, 6));
    assert_eq!(pixel(&b, 1, 0), (5, 5, 5, 5));
}

#[test]
fn cpu_buffer_cell_fit_checks() {
    let b = CpuBuffer::new(4, 3, 2, 1);
    assert!(b.can_paint_cell(1, 2));
    assert!(!b.can_paint_cell(2, 0));
    assert!(!b.can_paint_cell(0, 3));
    let z = CpuBuffer::new(4, 3, 0, 1);
    assert!(z.can_paint_cell(100, 100));
}

#[test]
fn cpu_buffer_glyph_fit_checks() {
    let b = CpuBuffer::new(4, 3, 2, 1);
    assert!(b.can_draw_glyph(&sample_glyph(), 0, 0));
    let short = Glyph { xmin: 0, ymin: 0, width: 2, height: 2, bitmap: vec![1, 2, 3] };
    assert!(!b.can_draw_glyph(&short, 0, 0));
    let far = Glyph { xmin: i32::MAX, ymin: 0, width: 2, height: 1, bitmap: vec![0, 255] };
    assert!(b.can_draw_glyph(&far, 0, 0));
    assert!(!b.can_draw_glyph(&sample_glyph(), u32::MAX, 0));
    assert!(b.can_draw_glyph(&sample_glyph(), 0, u32::MAX / 2));
    let tall = CpuBuffer::new(4, 3, 2, 2);
    assert!(!tall.can_draw_glyph(&sample_glyph(), 0, u32::MAX / 2 + 1));
    assert!(!tall.can_draw_glyph(&sample_glyph(), u32::MAX / 2 + 1, 0));
    let huge = Glyph { xmin: 0, ymin: 0, width: usize::MAX, height: 2, bitmap: vec![] };
    assert!(!b.can_draw_glyph(&huge, 0, 0));
}

#[test]
fn cpu_buffer_glyph_far_outside_draws_nothing() {
    let mut b = CpuBuffer::new(1, 1, 1 << 31, 1);
    let empty = Glyph { xmin: 0, ymin: 0, width: 0, height: 0, bitmap: vec![] };
    assert!(b.can_draw_glyph(&empty, 1, 0));
    b.set_glyph_at_cell(&empty, 1, 0, 0, (1, 2, 3, 4));
    assert_eq!(b.inner, vec![0, 0, 0, 0]);
    let mut c = CpuBuffer::new(4, 3, 2, 1);
    let far = Glyph { xmin: i32::MAX, ymin: 0, width: 2, height: 1, bitmap: vec![255, 255] };
    c.set_glyph_at_cell(&far, 0, 0, 1, (1, 2, 3, 4));
    assert!(c.inner.iter().all(|v| *v == 0));
    let mut d = CpuBuffer::new(4, 3, u32::MAX, 1);
    let back = Glyph { xmin: i32::MIN, ymin: 0, width: 1, height: 1, bitmap: vec![255] };
    d.set_glyph_at_cell(&back, 1, 0, 1, (1, 2, 3, 4));
    assert!(d.inner.iter().all(|v| *v == 0));
}
