//! The weekly menu of Mensa Furtwangen: reading meals out of the menu page
//! and rendering them as a chat message.
use vstd::prelude::*;
use crate::text::{
    cat3, chars_of, join, lowercase, owned, replace_all, replace_str, split_once,
    split_once_exec, to_lowercase, trim, trim_str, views,
};

verus! {

// ---------------------------------------------------------------------------
// Meals
// ---------------------------------------------------------------------------

/// One dish of the menu, with its labels and prices as shown on the page.
#[derive(Debug, Clone)]
pub struct Meal {
    pub name: String,
    pub allergens: String,
    pub additives: String,
    pub price_students: String,
    pub price_employees: String,
    pub price_guests: String,
}

pub struct MealView {
    pub name: Seq<char>,
    pub allergens: Seq<char>,
    pub additives: Seq<char>,
    pub price_students: Seq<char>,
    pub price_employees: Seq<char>,
    pub price_guests: Seq<char>,
}

impl View for Meal {
    type V = MealView;

    open spec fn view(&self) -> MealView {
        MealView {
            name: self.name@,
            allergens: self.allergens@,
            additives: self.additives@,
            price_students: self.price_students@,
            price_employees: self.price_employees@,
            price_guests: self.price_guests@,
        }
    }
}

impl Default for Meal {
    fn default() -> (m: Self)
        ensures
            m.name@.len() == 0,
            m.allergens@.len() == 0,
            m.additives@.len() == 0,
            m.price_students@.len() == 0,
            m.price_employees@.len() == 0,
            m.price_guests@.len() == 0,
    {
        Meal {
            name: String::new(),
            allergens: String::new(),
            additives: String::new(),
            price_students: String::new(),
            price_employees: String::new(),
            price_guests: String::new(),
        }
    }
}

/// The meals of each weekday, Monday to Saturday.
#[derive(Debug)]
pub struct Meals {
    pub monday: Vec<Meal>,
    pub tuesday: Vec<Meal>,
    pub wednesday: Vec<Meal>,
    pub thursday: Vec<Meal>,
    pub friday: Vec<Meal>,
    pub saturday: Vec<Meal>,
}

pub open spec fn meal_views(v: Seq<Meal>) -> Seq<MealView> {
    v.map_values(|m: Meal| m@)
}

impl View for Meals {
    /// The six days' meals, Monday first.
    type V = Seq<Seq<MealView>>;

    open spec fn view(&self) -> Seq<Seq<MealView>> {
        seq![
            meal_views(self.monday@),
            meal_views(self.tuesday@),
            meal_views(self.wednesday@),
            meal_views(self.thursday@),
            meal_views(self.friday@),
            meal_views(self.saturday@),
        ]
    }
}

impl Default for Meals {
    fn default() -> (m: Self)
        ensures
            forall|d: int| 0 <= d < 6 ==> (#[trigger] m@[d]).len() == 0,
    {
        Meals {
            monday: Vec::new(),
            tuesday: Vec::new(),
            wednesday: Vec::new(),
            thursday: Vec::new(),
            friday: Vec::new(),
            saturday: Vec::new(),
        }
    }
}

// ---------------------------------------------------------------------------
// Regular expressions
// ---------------------------------------------------------------------------

/// What `regex::Regex::new(pattern)` followed by `replace_all(text, rep)`
/// gives: `None` when the pattern does not compile.
pub uninterp spec fn regex_replace_all(pattern: Seq<char>, text: Seq<char>, rep: Seq<char>) -> Option<Seq<char>>;

/// What `regex::Regex::new(pattern)` followed by `find_iter(text)` gives: the
/// matched texts in order, `None` when the pattern does not compile.
pub uninterp spec fn regex_find_all(pattern: Seq<char>, text: Seq<char>) -> Option<Seq<Seq<char>>>;

/// Compiles `pattern` with `regex::Regex::new` and replaces every match in
/// `text` with `rep` (`Regex::replace_all`). The result is only named: it
/// is a function of the three strings.
#[verifier::external_body]
fn regex_replace(pattern: &str, text: &str, rep: &str) -> (r: Option<String>)
    ensures
        match r {
            Some(s) => regex_replace_all(pattern@, text@, rep@) == Some(s@),
            None => regex_replace_all(pattern@, text@, rep@) is None,
        },
{
    match regex::Regex::new(pattern) {
        Ok(re) => Some(re.replace_all(text, rep).into_owned()),
        Err(_) => None,
    }
}

/// Compiles `pattern` with `regex::Regex::new` and returns the text of each
/// successive non-overlapping match in `text` (`Regex::find_iter`). The
/// result is only named.
#[verifier::external_body]
fn regex_matches(pattern: &str, text: &str) -> (r: Option<Vec<String>>)
    ensures
        match r {
            Some(v) => regex_find_all(pattern@, text@) == Some(views(v@)),
            None => regex_find_all(pattern@, text@) is None,
        },
{
    match regex::Regex::new(pattern) {
        Ok(re) => {
            let mut out = Vec::new();
            for m in re.find_iter(text) {
                out.push(m.as_str().to_string());
            }
            Some(out)
        },
        Err(_) => None,
    }
}

// ---------------------------------------------------------------------------
// Text clean-up
// ---------------------------------------------------------------------------

pub open spec fn collapse_pattern() -> Seq<char> {
    "\\s+"@
}

/// Tabs and newlines turned into spaces.
pub open spec fn spaced(text: Seq<char>) -> Seq<char> {
    replace_all(replace_all(text, "\n"@, " "@), "\t"@, " "@)
}

/// `clean_text`: runs of white space collapsed to one space, then trimmed.
/// Where the pattern does not compile the text is returned as it came.
pub open spec fn clean_text_spec(text: Seq<char>) -> Seq<char> {
    match regex_replace_all(collapse_pattern(), spaced(text), " "@) {
        Some(c) => trim(c),
        None => text,
    }
}

/// Collapses the white space of `text` to single spaces and trims it.
pub fn clean_text(text: &str) -> (r: String)
    ensures
        r@ == clean_text_spec(text@),
{
    proof {
        reveal_strlit("\n");
        reveal_strlit("\t");
    }
    let a = replace_str(text, "\n", " ");
    let b = replace_str(a.as_str(), "\t", " ");
    match regex_replace("\\s+", b.as_str(), " ") {
        Some(c) => trim_str(c.as_str()),
        None => owned(text),
    }
}

pub open spec fn camel_pattern() -> Seq<char> {
    "([A-Za-z][^A-Z]*|\\d?\\.?\\d+ ?€?)"@
}

/// The words lower-cased and joined with single spaces.
pub open spec fn lower_words(words: Seq<Seq<char>>) -> Seq<char> {
    join(words.map_values(|w: Seq<char>| lowercase(w)), " "@)
}

/// `camel_case_to_normal`: the words that the camel-case pattern finds,
/// lower-cased and joined with spaces. Where the pattern does not compile
/// the text is returned as it came.
pub open spec fn camel_spec(s: Seq<char>) -> Seq<char> {
    match regex_find_all(camel_pattern(), s) {
        Some(words) => lower_words(words),
        None => s,
    }
}

/// Lower-cases each word and joins them with single spaces.
pub fn join_lower_words(words: &Vec<String>) -> (r: String)
    ensures
        r@ == lower_words(views(words@)),
{
    let mut lowered: Vec<String> = Vec::new();
    let mut i: usize = 0;
    while i < words.len()
        invariant
            i <= words@.len(),
            views(lowered@) == views(words@).take(i as int).map_values(
                |w: Seq<char>| lowercase(w),
            ),
        decreases words.len() - i,
    {
        let l = to_lowercase(words[i].as_str());
        let ghost before = lowered@;
        lowered.push(l);
        assert(views(lowered@) =~= views(words@).take(i + 1).map_values(
            |w: Seq<char>| lowercase(w),
        )) by {
            assert(views(lowered@) =~= views(before).push(l@));
        }
        i = i + 1;
    }
    assert(views(words@).take(words@.len() as int) =~= views(words@));
    crate::text::join_strings(&lowered, " ")
}

/// Splits a run of camel-case words and prices ("GemüsebologneSoja 2.50 €")
/// into lower-case words separated by spaces.
pub fn camel_case_to_normal(s: &str) -> (r: String)
    ensures
        r@ == camel_spec(s@),
{
    match regex_matches("([A-Za-z][^A-Z]*|\\d?\\.?\\d+ ?€?)", s) {
        Some(words) => join_lower_words(&words),
        None => owned(s),
    }
}

// ---------------------------------------------------------------------------
// One meal's text
// ---------------------------------------------------------------------------

/// The parts of `s` before and after the first `marker`, the latter trimmed;
/// `s` itself and `default` when there is no `marker`.
pub open spec fn split_or(s: Seq<char>, marker: Seq<char>, default: Seq<char>) -> (Seq<char>, Seq<char>) {
    match split_once(s, marker) {
        Some(p) => (p.0, trim(p.1)),
        None => (s, default),
    }
}

/// `s` with every match of `pattern` replaced by `rep`; `s` unchanged where
/// the pattern does not compile.
pub open spec fn regex_or_same(s: Seq<char>, pattern: Seq<char>, rep: Seq<char>) -> Seq<char> {
    match regex_replace_all(pattern, s, rep) {
        Some(r) => r,
        None => s,
    }
}

/// The meal that `parse_meal` reads from the text of one menu entry: the
/// labels and prices are cut off the end of the text, last one first, and
/// what is left is the dish's name.
pub open spec fn parse_meal_spec(text: Seq<char>) -> MealView {
    let (r1, allergens) = split_or(text, "enthält Allergene: "@, "Keine"@);
    let (r2, additives) = split_or(r1, "Kennzeichnungen/Zusatzstoffe: "@, "Keine"@);
    let (r3, guests) = split_or(r2, "Gäste"@, "Keine Angabe"@);
    let (r4, employees) = split_or(r3, "Beschäftigte"@, "Keine Angabe"@);
    let (name_raw, students) = split_or(r4, "Studierende, Schüler"@, "Keine Angabe"@);
    let n1 = regex_or_same(name_raw, "Essen \\d "@, " "@);
    let n2 = regex_or_same(n1, "Preise \\+ Kennzeichnungen"@, " "@);
    MealView {
        name: camel_spec(trim(n2)),
        allergens: camel_spec(allergens),
        additives: camel_spec(additives),
        price_students: camel_spec(students),
        price_employees: camel_spec(employees),
        price_guests: camel_spec(guests),
    }
}

fn split_or_exec(s: &str, marker: &str, default: &str) -> (r: (String, String))
    ensures
        (r.0@, r.1@) == split_or(s@, marker@, default@),
{
    let v = chars_of(s);
    let m = chars_of(marker);
    match split_once_exec(&v, &m) {
        Some(p) => {
            let after = trim_str(p.1.as_str());
            (p.0, after)
        },
        None => (owned(s), owned(default)),
    }
}

fn regex_or_same_exec(s: &str, pattern: &str, rep: &str) -> (r: String)
    ensures
        r@ == regex_or_same(s@, pattern@, rep@),
{
    match regex_replace(pattern, s, rep) {
        Some(x) => x,
        None => owned(s),
    }
}

/// Reads one menu entry ("Essen 1 <Name> Preise + Kennzeichnungen
/// Studierende, Schüler <price> Beschäftigte <price> Gäste <price>
/// Kennzeichnungen/Zusatzstoffe: <...> enthält Allergene: <...>").
pub fn parse_meal(text: &str) -> (m: Meal)
    ensures
        m@ == parse_meal_spec(text@),
{
    let (r1, allergens) = split_or_exec(text, "enthält Allergene: ", "Keine");
    let (r2, additives) = split_or_exec(r1.as_str(), "Kennzeichnungen/Zusatzstoffe: ", "Keine");
    let (r3, guests) = split_or_exec(r2.as_str(), "Gäste", "Keine Angabe");
    let (r4, employees) = split_or_exec(r3.as_str(), "Beschäftigte", "Keine Angabe");
    let (name_raw, students) = split_or_exec(r4.as_str(), "Studierende, Schüler", "Keine Angabe");
    let n1 = regex_or_same_exec(name_raw.as_str(), "Essen \\d ", " ");
    let n2 = regex_or_same_exec(n1.as_str(), "Preise \\+ Kennzeichnungen", " ");
    let name = trim_str(n2.as_str());
    Meal {
        name: camel_case_to_normal(name.as_str()),
        allergens: camel_case_to_normal(allergens.as_str()),
        additives: camel_case_to_normal(additives.as_str()),
        price_students: camel_case_to_normal(students.as_str()),
        price_employees: camel_case_to_normal(employees.as_str()),
        price_guests: camel_case_to_normal(guests.as_str()),
    }
}

// ---------------------------------------------------------------------------
// The menu page
// ---------------------------------------------------------------------------

/// What scraper gives for `Html::parse_document(html)` and the CSS selector
/// `css`: the text of each matching element in document order, or the
/// selector's parse error when `css` is not a valid selector.
pub uninterp spec fn html_select_texts(html: Seq<char>, css: Seq<char>) -> Result<Seq<Seq<char>>, Seq<char>>;

/// Parses `html` with `scraper::Html::parse_document` and `css` with
/// `scraper::Selector::parse`, and returns the concatenated text nodes of
/// every element that `Html::select` yields; the selector error rendered with
/// `Debug` when `css` does not parse. The result is only named.
#[verifier::external_body]
fn select_texts(html: &str, css: &str) -> (r: Result<Vec<String>, String>)
    ensures
        match r {
            Ok(v) => html_select_texts(html@, css@) == Ok::<Seq<Seq<char>>, Seq<char>>(views(v@)),
            Err(e) => html_select_texts(html@, css@) == Err::<Seq<Seq<char>>, Seq<char>>(e@),
        },
{
    let selector = match scraper::Selector::parse(css) {
        Ok(s) => s,
        Err(e) => return Err(format!("{e:?}")),
    };
    let document = scraper::Html::parse_document(html);
    let mut out = Vec::new();
    for element in document.select(&selector) {
        out.push(element.text().collect::<String>());
    }
    Ok(out)
}

/// The selector of the meal texts in one day's tab.
pub open spec fn tab_selector(tab: Seq<char>) -> Seq<char> {
    "div#"@ + tab + " .col-span-1.bg-lighter-cyan.py-20px.px-15px.flex.flex-col small.extra-text.mb-15px"@
}

pub open spec fn tab_names() -> Seq<Seq<char>> {
    seq!["tab-mon"@, "tab-tue"@, "tab-wed"@, "tab-thu"@, "tab-fri"@, "tab-sat"@]
}

/// The meals in the tab `tab` of the page.
pub open spec fn tab_meals_spec(html: Seq<char>, tab: Seq<char>) -> Result<Seq<MealView>, Seq<char>> {
    match html_select_texts(html, tab_selector(tab)) {
        Ok(texts) => Ok(texts.map_values(|t: Seq<char>| parse_meal_spec(clean_text_spec(t)))),
        Err(e) => Err("Invalid CSS selector: "@ + e),
    }
}

/// The meals of the first `n` days of the page.
pub open spec fn meals_upto(html: Seq<char>, n: nat) -> Result<Seq<Seq<MealView>>, Seq<char>>
    decreases n,
{
    if n == 0 {
        Ok(Seq::empty())
    } else {
        match meals_upto(html, (n - 1) as nat) {
            Err(e) => Err(e),
            Ok(days) => match tab_meals_spec(html, tab_names()[n - 1]) {
                Err(e) => Err(e),
                Ok(ms) => Ok(days.push(ms)),
            },
        }
    }
}

/// The whole week's meals read from the menu page.
pub open spec fn parse_html_meals_spec(html: Seq<char>) -> Result<Seq<Seq<MealView>>, Seq<char>> {
    meals_upto(html, 6)
}

// ---------------------------------------------------------------------------
// The chat message
// ---------------------------------------------------------------------------

/// The German name of menu day `d` (1 = Monday .. 6 = Saturday).
pub open spec fn day_name(d: usize) -> Seq<char> {
    if d == 1 {
        "Montag"@
    } else if d == 2 {
        "Dienstag"@
    } else if d == 3 {
        "Mittwoch"@
    } else if d == 4 {
        "Donnerstag"@
    } else if d == 5 {
        "Freitag"@
    } else {
        "Samstag"@
    }
}

/// Each meal as its name and its student price, indented.
pub open spec fn meals_block(ms: Seq<MealView>) -> Seq<char>
    decreases ms.len(),
{
    if ms.len() == 0 {
        Seq::empty()
    } else {
        meals_block(ms.drop_last()) + "    "@ + ms.last().name + "\n"@ + "    Preis Studierende: "@
            + ms.last().price_students + "\n\n"@
    }
}

/// The blocks of the requested days, in the order requested; day numbers
/// outside 1..=6 are skipped.
pub open spec fn days_block(week: Seq<Seq<MealView>>, days: Seq<usize>) -> Seq<char>
    decreases days.len(),
{
    if days.len() == 0 {
        Seq::empty()
    } else {
        let d = days.last();
        let prev = days_block(week, days.drop_last());
        if 1 <= d && d <= 6 {
            prev + day_name(d) + "\n"@ + meals_block(week[d - 1])
        } else {
            prev
        }
    }
}

/// The reply to `mensa` for the given days of `week`.
pub open spec fn format_meals_spec(week: Seq<Seq<MealView>>, days: Seq<usize>) -> Seq<char> {
    "Mensa Furtwangen\n\n"@ + days_block(week, days)
}

fn append_day(message: &mut String, name: &str, day_meals: &Vec<Meal>)
    ensures
        final(message)@ == old(message)@ + name@ + "\n"@ + meals_block(meal_views(day_meals@)),
{
    message.append(name);
    message.append("\n");
    let ghost start = message@;
    let mut j: usize = 0;
    while j < day_meals.len()
        invariant
            j <= day_meals@.len(),
            message@ == start + meals_block(meal_views(day_meals@).take(j as int)),
        decreases day_meals.len() - j,
    {
        let ghost mid = message@;
        let meal = &day_meals[j];
        message.append("    ");
        message.append(meal.name.as_str());
        message.append("\n");
        message.append("    Preis Studierende: ");
        message.append(meal.price_students.as_str());
        message.append("\n\n");
        proof {
            let t = meal_views(day_meals@).take(j + 1);
            assert(t.drop_last() =~= meal_views(day_meals@).take(j as int));
            assert(t.last() == meal@);
            assert(message@ =~= start + (meals_block(t.drop_last()) + "    "@ + t.last().name
                + "\n"@ + "    Preis Studierende: "@ + t.last().price_students + "\n\n"@));
        }
        j = j + 1;
    }
    assert(meal_views(day_meals@).take(day_meals@.len() as int) =~= meal_views(day_meals@));
}

/// Renders the meals of the given days (1 = Monday .. 6 = Saturday) under
/// the heading "Mensa Furtwangen"; other day numbers are skipped.
pub fn format_meals(meals: &Meals, days: &[usize]) -> (r: String)
    ensures
        r@ == format_meals_spec(meals@, days@),
{
    let mut message = owned("Mensa Furtwangen\n\n");
    let mut i: usize = 0;
    assert(days@.take(0) =~= Seq::<usize>::empty());
    while i < days.len()
        invariant
            i <= days@.len(),
            message@ == "Mensa Furtwangen\n\n"@ + days_block(meals@, days@.take(i as int)),
        decreases days.len() - i,
    {
        let day = days[i];
        let ghost before = message@;
        proof {
            let t = days@.take(i + 1);
            assert(t.drop_last() =~= days@.take(i as int));
            assert(t.last() == day);
        }
        if day == 1 {
            append_day(&mut message, "Montag", &meals.monday);
        } else if day == 2 {
            append_day(&mut message, "Dienstag", &meals.tuesday);
        } else if day == 3 {
            append_day(&mut message, "Mittwoch", &meals.wednesday);
        } else if day == 4 {
            append_day(&mut message, "Donnerstag", &meals.thursday);
        } else if day == 5 {
            append_day(&mut message, "Freitag", &meals.friday);
        } else if day == 6 {
            append_day(&mut message, "Samstag", &meals.saturday);
        }
        proof {
            if 1 <= day && day <= 6 {
                assert(message@ =~= "Mensa Furtwangen\n\n"@ + (days_block(meals@, days@.take(i as int))
                    + day_name(day) + "\n"@ + meals_block(meals@[day - 1])));
            }
        }
        i = i + 1;
    }
    assert(days@.take(days@.len() as int) =~= days@);
    message
}

proof fn lemma_meals_upto_err(html: Seq<char>, k: nat, n: nat)
    requires
        k <= n,
        meals_upto(html, k) is Err,
    ensures
        meals_upto(html, n) == meals_upto(html, k),
    decreases n - k,
{
    if k < n {
        lemma_meals_upto_err(html, k, (n - 1) as nat);
    }
}

fn tab_meals(html: &str, tab: &str) -> (r: Result<Vec<Meal>, String>)
    ensures
        match r {
            Ok(v) => tab_meals_spec(html@, tab@) == Ok::<Seq<MealView>, Seq<char>>(meal_views(v@)),
            Err(e) => tab_meals_spec(html@, tab@) == Err::<Seq<MealView>, Seq<char>>(e@),
        },
{
    let selector = cat3(
        "div#",
        tab,
        " .col-span-1.bg-lighter-cyan.py-20px.px-15px.flex.flex-col small.extra-text.mb-15px",
    );
    let texts = match select_texts(html, selector.as_str()) {
        Ok(t) => t,
        Err(e) => return Err(crate::text::cat("Invalid CSS selector: ", e.as_str())),
    };
    let mut meals: Vec<Meal> = Vec::new();
    let mut i: usize = 0;
    while i < texts.len()
        invariant
            i <= texts@.len(),
            html_select_texts(html@, tab_selector(tab@)) == Ok::<Seq<Seq<char>>, Seq<char>>(views(texts@)),
            meal_views(meals@) == views(texts@).take(i as int).map_values(
                |t: Seq<char>| parse_meal_spec(clean_text_spec(t)),
            ),
        decreases texts.len() - i,
    {
        let cleaned = clean_text(texts[i].as_str());
        let meal = parse_meal(cleaned.as_str());
        let ghost before = meals@;
        meals.push(meal);
        assert(meal_views(meals@) =~= views(texts@).take(i + 1).map_values(
            |t: Seq<char>| parse_meal_spec(clean_text_spec(t)),
        )) by {
            assert(meal_views(meals@) =~= meal_views(before).push(meal@));
        }
        i = i + 1;
    }
    assert(views(texts@).take(texts@.len() as int) =~= views(texts@));
    Ok(meals)
}

/// Reads the week's meals out of the menu page.
pub fn parse_html_meals(body: &str) -> (r: Result<Meals, String>)
    ensures
        match r {
            Ok(m) => parse_html_meals_spec(body@) == Ok::<Seq<Seq<MealView>>, Seq<char>>(m@),
            Err(e) => parse_html_meals_spec(body@) == Err::<Seq<Seq<MealView>>, Seq<char>>(e@),
        },
{
    let monday = match tab_meals(body, "tab-mon") {
        Ok(v) => v,
        Err(e) => {
            proof {
                reveal_with_fuel(meals_upto, 2);
                lemma_meals_upto_err(body@, 1, 6);
            }
            return Err(e);
        },
    };
    reveal_with_fuel(meals_upto, 2);
    assert(meals_upto(body@, 1) == Ok::<Seq<Seq<MealView>>, Seq<char>>(seq![meal_views(monday@)]));
    let tuesday = match tab_meals(body, "tab-tue") {
        Ok(v) => v,
        Err(e) => {
            proof {
                reveal_with_fuel(meals_upto, 2);
                lemma_meals_upto_err(body@, 2, 6);
            }
            return Err(e);
        },
    };
    reveal_with_fuel(meals_upto, 2);
    assert(seq![meal_views(monday@)].push(meal_views(tuesday@)) =~= seq![meal_views(monday@), meal_views(tuesday@)]);
    assert(meals_upto(body@, 2) == Ok::<Seq<Seq<MealView>>, Seq<char>>(
        seq![meal_views(monday@), meal_views(tuesday@)],
    ));
    let wednesday = match tab_meals(body, "tab-wed") {
        Ok(v) => v,
        Err(e) => {
            proof {
                reveal_with_fuel(meals_upto, 2);
                lemma_meals_upto_err(body@, 3, 6);
            }
            return Err(e);
        },
    };
    reveal_with_fuel(meals_upto, 2);
    assert(seq![meal_views(monday@), meal_views(tuesday@)].push(meal_views(wednesday@)) =~= seq![meal_views(monday@), meal_views(tuesday@), meal_views(wednesday@)]);
    assert(meals_upto(body@, 3) == Ok::<Seq<Seq<MealView>>, Seq<char>>(
        seq![meal_views(monday@), meal_views(tuesday@), meal_views(wednesday@)],
    ));
    let thursday = match tab_meals(body, "tab-thu") {
        Ok(v) => v,
        Err(e) => {
            proof {
                reveal_with_fuel(meals_upto, 2);
                lemma_meals_upto_err(body@, 4, 6);
            }
            return Err(e);
        },
    };
    reveal_with_fuel(meals_upto, 2);
    assert(seq![meal_views(monday@), meal_views(tuesday@), meal_views(wednesday@)].push(meal_views(thursday@)) =~= seq![meal_views(monday@), meal_views(tuesday@), meal_views(wednesday@), meal_views(thursday@)]);
    assert(meals_upto(body@, 4) == Ok::<Seq<Seq<MealView>>, Seq<char>>(
        seq![meal_views(monday@), meal_views(tuesday@), meal_views(wednesday@), meal_views(thursday@)],
    ));
    let friday = match tab_meals(body, "tab-fri") {
        Ok(v) => v,
        Err(e) => {
            proof {
                reveal_with_fuel(meals_upto, 2);
                lemma_meals_upto_err(body@, 5, 6);
            }
            return Err(e);
        },
    };
    reveal_with_fuel(meals_upto, 2);
    assert(seq![meal_views(monday@), meal_views(tuesday@), meal_views(wednesday@), meal_views(thursday@)].push(meal_views(friday@)) =~= seq![meal_views(monday@), meal_views(tuesday@), meal_views(wednesday@), meal_views(thursday@), meal_views(friday@)]);
    assert(meals_upto(body@, 5) == Ok::<Seq<Seq<MealView>>, Seq<char>>(
        seq![
            meal_views(monday@),
            meal_views(tuesday@),
            meal_views(wednesday@),
            meal_views(thursday@),
            meal_views(friday@),
        ],
    ));
    let saturday = match tab_meals(body, "tab-sat") {
        Ok(v) => v,
        Err(e) => {
            proof {
                reveal_with_fuel(meals_upto, 2);
                lemma_meals_upto_err(body@, 6, 6);
            }
            return Err(e);
        },
    };
    let meals = Meals { monday, tuesday, wednesday, thursday, friday, saturday };
    assert(meals_upto(body@, 6) == Ok::<Seq<Seq<MealView>>, Seq<char>>(meals@)) by {
        reveal_with_fuel(meals_upto, 2);
        assert(meals@ =~= seq![
            meal_views(meals.monday@),
            meal_views(meals.tuesday@),
            meal_views(meals.wednesday@),
            meal_views(meals.thursday@),
            meal_views(meals.friday@),
        ].push(meal_views(meals.saturday@)));
    }
    assert(meals_upto(body@, 6) == Ok::<Seq<Seq<MealView>>, Seq<char>>(meals@));
    Ok(meals)
}

} // verus!
