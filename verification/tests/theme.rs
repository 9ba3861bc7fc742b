use companion::theme::BadgeTone;

#[test]
fn badge_tones_use_the_pastel_palette() {
    assert_eq!(BadgeTone::Neutral.rgb(), (190, 176, 190));
    assert_eq!(BadgeTone::Success.rgb(), (150, 224, 183));
    assert_eq!(BadgeTone::Warning.rgb(), (245, 199, 137));
    assert_eq!(BadgeTone::Danger.rgb(), (240, 140, 158));
}
