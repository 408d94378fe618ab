use raytracing::color::Color;
use raytracing::daylight::DayPhase;
use raytracing::framebuffer::Framebuffer;

#[test]
fn new_framebuffer_is_black() {
    let fb = Framebuffer::new(3, 2);
    assert_eq!(fb.buffer, vec![0; 6]);
    assert_eq!(fb.width, 3);
    assert_eq!(fb.height, 2);
}

#[test]
fn point_writes_one_cell() {
    let mut fb = Framebuffer::new(3, 2);
    fb.set_current_color(0xABCDEF);
    fb.point(2, 1);
    assert_eq!(fb.buffer, vec![0, 0, 0, 0, 0, 0xABCDEF]);
    fb.point(3, 0);
    fb.point(0, 2);
    assert_eq!(fb.buffer, vec![0, 0, 0, 0, 0, 0xABCDEF]);
}

#[test]
fn draw_frame_packs_every_cell() {
    let mut fb = Framebuffer::new(2, 2);
    let colors = vec![
        Color::new(1, 2, 3),
        Color::background(),
        Color::new(255, 0, 0),
        Color::new(0, 0, 255),
    ];
    fb.draw_frame(&colors);
    assert_eq!(fb.buffer, vec![0x010203, 0x040C24, 0xFF0000, 0x0000FF]);
    assert_eq!(fb.current_color, 0x0000FF);
}

#[test]
fn day_cycle_returns_after_three_steps() {
    assert_eq!(DayPhase::Day.next(), DayPhase::Dusk);
    assert_eq!(DayPhase::Dusk.next(), DayPhase::Night);
    assert_eq!(DayPhase::Night.next(), DayPhase::Day);
}

#[test]
fn main_light_follows_the_phase() {
    assert_eq!(DayPhase::Day.light_color(), Color::new(255, 255, 255));
    assert_eq!(DayPhase::Dusk.light_color(), Color::new(255, 165, 0));
    assert_eq!(DayPhase::Night.light_color(), Color::new(0, 0, 139));
    assert_eq!(DayPhase::Day.light_intensity(), 3);
    assert_eq!(DayPhase::Night.light_intensity(), 1);
}
