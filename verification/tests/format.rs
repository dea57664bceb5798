use brewtracker::app::App;
use brewtracker::datatypes::{Brew, Brews};
use brewtracker::format::{
    generate_details, generate_details_list, generate_details_star_rating, u64_to_string,
};

fn mead() -> Brew {
    Brew {
        name: "Mead".to_string(),
        rating: 3,
        description: "A honey wine".to_string(),
        ingredients: vec!["Honey".to_string(), "Water".to_string()],
        method: vec!["Boil".to_string(), "Ferment".to_string()],
        gravity: vec!["1.1".to_string(), "1.0".to_string()],
    }
}

#[test]
fn star_rating_has_five_glyphs_in_valid_range() {
    for rating in 0..=5u8 {
        let line = generate_details_star_rating(rating);
        assert_eq!(line.chars().count(), "Rating: ".chars().count() + 5);
    }
}

#[test]
fn star_rating_exact_lines() {
    assert_eq!(generate_details_star_rating(0), "Rating: ☆☆☆☆☆");
    assert_eq!(generate_details_star_rating(3), "Rating: ★★★☆☆");
    assert_eq!(generate_details_star_rating(5), "Rating: ★★★★★");
}

#[test]
fn star_rating_out_of_range_keeps_filled_stars() {
    assert_eq!(generate_details_star_rating(7), format!("Rating: {}", "★".repeat(7)));
    assert_eq!(generate_details_star_rating(6), "Rating: ★★★★★★");
    assert_eq!(generate_details_star_rating(255), format!("Rating: {}", "★".repeat(255)));
}

#[test]
fn decimal_rendering_exact_values() {
    assert_eq!(u64_to_string(0), "0");
    assert_eq!(u64_to_string(7), "7");
    assert_eq!(u64_to_string(10), "10");
    assert_eq!(u64_to_string(12), "12");
    assert_eq!(u64_to_string(905), "905");
    assert_eq!(u64_to_string(18446744073709551615), "18446744073709551615");
}

#[test]
fn unordered_list_is_bulleted_in_order() {
    let mut text: Vec<String> = Vec::new();
    let items = vec!["Honey".to_string(), "Water".to_string()];
    generate_details_list(&mut text, &items, false);
    assert_eq!(text, vec!["⬤ Honey".to_string(), "⬤ Water".to_string()]);
}

#[test]
fn ordered_list_is_numbered_from_one() {
    let mut text: Vec<String> = Vec::new();
    let items = vec!["Boil".to_string(), "Ferment".to_string(), "Bottle".to_string()];
    generate_details_list(&mut text, &items, true);
    assert_eq!(
        text,
        vec!["1. Boil".to_string(), "2. Ferment".to_string(), "3. Bottle".to_string()]
    );
}

#[test]
fn empty_list_appends_nothing() {
    let mut text: Vec<String> = vec!["kept".to_string()];
    let items: Vec<String> = Vec::new();
    generate_details_list(&mut text, &items, true);
    assert_eq!(text, vec!["kept".to_string()]);
}

#[test]
fn details_scenario_mead() {
    let mut app = App::new(Brews { brews: vec![mead()] });
    app.brews.next();
    assert_eq!(app.brews.selected, Some(0));
    let mut text: Vec<String> = Vec::new();
    generate_details(&mut text, 0, &app);
    let expected = vec![
        "Rating: ★★★☆☆",
        "",
        "Description",
        "A honey wine",
        "",
        "Ingredients",
        "⬤ Honey",
        "⬤ Water",
        "",
        "Method",
        "1. Boil",
        "2. Ferment",
        "",
        "Initial Gravity: 1.1",
        "Final Gravity: 1.0",
    ];
    assert_eq!(text, expected);
}

#[test]
fn details_are_deterministic() {
    let app = App::new(Brews { brews: vec![mead()] });
    let mut first: Vec<String> = Vec::new();
    generate_details(&mut first, 0, &app);
    let mut second: Vec<String> = Vec::new();
    generate_details(&mut second, 0, &app);
    assert_eq!(first, second);
}

#[test]
fn details_append_after_existing_lines() {
    let app = App::new(Brews { brews: vec![mead()] });
    let mut text: Vec<String> = vec!["header".to_string()];
    generate_details(&mut text, 0, &app);
    assert_eq!(text[0], "header");
    assert_eq!(text[1], "Rating: ★★★☆☆");
    assert_eq!(text.len(), 16);
}
