use cheese_locator::deck::{Background, DeckFx, ImagePosition, TitleSlide};

#[test]
fn the_default_effect_slot_is_the_transition() {
    assert_eq!(DeckFx::default(), DeckFx::Transition);
}

#[test]
fn effect_slots_are_ordered_as_declared() {
    assert!(DeckFx::Transition < DeckFx::Bg);
    assert_eq!(DeckFx::Bg.max(DeckFx::Transition), DeckFx::Bg);
}

#[test]
fn a_title_slide_holds_its_title_and_background() {
    let slide = TitleSlide { title: "Hello", background: Background::Aurora };
    assert_eq!(slide.title, "Hello");
    assert_eq!(slide.background, Background::Aurora);
    assert_ne!(slide.background, Background::Waves);
}

#[test]
fn positions_and_backgrounds_compare_by_variant() {
    assert_eq!(ImagePosition::Left, ImagePosition::Left);
    assert_ne!(ImagePosition::Left, ImagePosition::Right);
    assert_ne!(ImagePosition::Center, ImagePosition::Right);
    assert_ne!(Background::Nebula, Background::Hyper);
}
