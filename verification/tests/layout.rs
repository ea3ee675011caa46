use icy_ui::alignment::{Alignment, Horizontal, Vertical};
use icy_ui::layout_direction::LayoutDirection;

#[test]
fn layout_directions() {
    assert!(LayoutDirection::Ltr.is_ltr());
    assert!(LayoutDirection::Rtl.is_rtl());
    assert_eq!(LayoutDirection::Ltr.flip(), LayoutDirection::Rtl);
    assert_eq!(LayoutDirection::Rtl.flip().flip(), LayoutDirection::Rtl);
    assert_eq!(LayoutDirection::Ltr.resolve_start_end(1, 2), (1, 2));
    assert_eq!(LayoutDirection::Rtl.resolve_start_end(1, 2), (2, 1));
    assert_eq!(LayoutDirection::default(), LayoutDirection::Ltr);
    assert_eq!(LayoutDirection::Rtl.as_u8(), 1);
    assert_eq!(LayoutDirection::from_u8(1), LayoutDirection::Rtl);
    assert_eq!(LayoutDirection::from_u8(7), LayoutDirection::Ltr);
    assert_eq!(LayoutDirection::from_u8(LayoutDirection::Ltr.as_u8()), LayoutDirection::Ltr);
}

#[test]
fn alignment_resolution() {
    assert_eq!(Alignment::Start.resolve_horizontal_in(LayoutDirection::Ltr), Horizontal::Left);
    assert_eq!(Alignment::Start.resolve_horizontal_in(LayoutDirection::Rtl), Horizontal::Right);
    assert_eq!(Alignment::End.resolve_horizontal_in(LayoutDirection::Rtl), Horizontal::Left);
    assert_eq!(Alignment::Center.resolve_horizontal_in(LayoutDirection::Rtl), Horizontal::Center);
    assert_eq!(Alignment::Start.resolve_horizontal_alignment_in(LayoutDirection::Rtl), Alignment::End);
    assert_eq!(Alignment::End.resolve_horizontal_alignment_in(LayoutDirection::Ltr), Alignment::End);
    assert_eq!(Alignment::from(Horizontal::Right), Alignment::End);
    assert_eq!(Alignment::from(Vertical::Top), Alignment::Start);
    assert_eq!(Horizontal::from(Alignment::Center), Horizontal::Center);
    assert_eq!(Vertical::from(Alignment::End), Vertical::Bottom);
}
