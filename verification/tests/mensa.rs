use matrix_bot::mensa::{
    camel_case_to_normal, clean_text, format_meals, parse_html_meals, parse_meal, Meal, Meals,
};

#[test]
fn clean_text_collapses_whitespace() {
    assert_eq!(clean_text("  foo\n\tbar  "), "foo bar");
}

#[test]
fn camel_case_splits_words() {
    let result = camel_case_to_normal("GemüsebologneSojaschnetzel");
    assert!(result.contains("gemüsebologne"));
    assert!(result.contains("sojaschnetzel"));
}

#[test]
fn camel_case_preserves_price() {
    let result = camel_case_to_normal("2.50 €");
    assert_eq!(result, "2.50 €");
}

#[test]
fn parse_meal_text_full() {
    let text = "Essen 1 GemüsebologneSojaschnetzel Preise + Kennzeichnungen \
        Studierende, Schüler 2.50 € Beschäftigte 3.50 € Gäste 4.50 € \
        Kennzeichnungen/Zusatzstoffe: A, B enthält Allergene: Gluten, Soja";
    let meal = parse_meal(text);
    assert!(!meal.name.is_empty());
    assert!(meal.price_students.contains("2.50"));
    assert!(meal.allergens.contains("gluten"));
    assert!(meal.allergens.contains("soja"));
}

#[test]
fn parse_meal_text_no_allergens() {
    let text = "Essen 1 TestEssen Preise + Kennzeichnungen \
        Studierende, Schüler 2.50 € Beschäftigte 3.50 € Gäste 4.50 € \
        Kennzeichnungen/Zusatzstoffe: Keine";
    let meal = parse_meal(text);
    assert_eq!(meal.allergens, "keine");
}

#[test]
fn parse_meal_all_fields() {
    let text = "Essen 1 GemüsebologneSojaschnetzel Preise + Kennzeichnungen \
        Studierende, Schüler 2.50 € Beschäftigte 3.50 € Gäste 4.50 € \
        Kennzeichnungen/Zusatzstoffe: A, B enthält Allergene: Gluten, Soja";
    let meal = parse_meal(text);
    assert_eq!(meal.name, "gemüsebologne sojaschnetzel");
    assert_eq!(meal.price_students, "2.50 €");
    assert_eq!(meal.price_employees, "3.50 €");
    assert_eq!(meal.price_guests, "4.50 €");
}

#[test]
fn parse_meal_without_labels() {
    let meal = parse_meal("Salat");
    assert_eq!(meal.name, "salat");
    assert_eq!(meal.allergens, "keine");
    assert_eq!(meal.additives, "keine");
    assert_eq!(meal.price_students, "keine  angabe");
}

#[test]
fn format_empty_day() {
    let meals = Meals::default();
    let result = format_meals(&meals, &[1]);
    assert!(result.contains("Mensa Furtwangen"));
    assert!(result.contains("Montag"));
}

#[test]
fn format_meal_basic() {
    let mut meals = Meals::default();
    meals.monday.push(Meal {
        name: "test essen".to_string(),
        price_students: "2.50 €".to_string(),
        ..Default::default()
    });
    let result = format_meals(&meals, &[1]);
    assert!(result.contains("test essen"));
    assert!(result.contains("2.50 €"));
}

#[test]
fn format_exact_and_skips_unknown_days() {
    let mut meals = Meals::default();
    meals.saturday.push(Meal { name: "a".to_string(), price_students: "1 €".to_string(), ..Default::default() });
    assert_eq!(
        format_meals(&meals, &[0, 6, 1, 9]),
        "Mensa Furtwangen\n\nSamstag\n    a\n    Preis Studierende: 1 €\n\nMontag\n"
    );
    assert_eq!(format_meals(&meals, &[]), "Mensa Furtwangen\n\n");
}

#[test]
fn html_without_menu_gives_empty_week() {
    let meals = parse_html_meals("<html><body><p>geschlossen</p></body></html>").unwrap();
    assert!(meals.monday.is_empty());
    assert!(meals.saturday.is_empty());
}
