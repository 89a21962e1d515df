use snek::font;
use snek::fonts::FontManager;

#[test]
fn nothing_is_chosen_at_first() {
    let mgr = FontManager::init();
    assert_eq!(mgr.path, None);
    assert_eq!(mgr.font_size, None);
}

#[test]
fn load_without_a_path_fails() {
    let mut mgr = FontManager::init();
    assert_eq!(mgr.load(), Err("Font could not be loaded without path.".to_owned()));
    mgr.size(32);
    assert_eq!(mgr.load(), Err("Font could not be loaded without path.".to_owned()));
    assert_eq!(mgr.font_size, Some(32));
}

#[test]
fn load_without_a_size_fails_and_keeps_the_path() {
    let mut mgr = FontManager::init();
    mgr.path("a.ttf".to_owned());
    assert_eq!(mgr.load(), Err("Font could not be loaded without font_size.".to_owned()));
    assert_eq!(mgr.path, Some("a.ttf".to_owned()));
}

#[test]
fn load_hands_out_both_and_forgets_them() {
    let mut mgr = FontManager::init();
    let request = mgr.path("a.ttf".to_owned()).size(32).load();
    assert_eq!(request, Ok(("a.ttf".to_owned(), 32)));
    assert_eq!(mgr.path, None);
    assert_eq!(mgr.font_size, None);
    assert_eq!(mgr.load(), Err("Font could not be loaded without path.".to_owned()));
}

#[test]
fn a_later_choice_replaces_an_earlier_one() {
    let mut mgr = FontManager::init();
    mgr.size(12).path("a.ttf".to_owned()).size(14).path("b.ttf".to_owned());
    assert_eq!(mgr.load(), Ok(("b.ttf".to_owned(), 14)));
}

#[test]
fn program_fonts() {
    let fonts = font::FontManager::new();
    assert_eq!(
        fonts.monster_bites.normal(32),
        ("assets/fonts/Monster Bites/Monster Bites.ttf", 32)
    );
    assert_eq!(
        fonts.monster_bites.italic(18),
        Ok(("assets/fonts/Monster Bites/Monster Bites Italic.ttf", 18))
    );
}

#[test]
fn a_font_without_an_italic_cut() {
    let upright = font::Fonts { normal_path: "plain.ttf", italic_path: None };
    assert_eq!(upright.normal(8), ("plain.ttf", 8));
    assert_eq!(upright.italic(8), Err("No italic font.".to_owned()));
}
