use profile_filter::filter::{evaluate, profiles_filter, Filters};
use profile_filter::profile::Profile;
use profile_filter::seed::seed_store;

fn strings(values: &[&str]) -> Vec<String> {
    values.iter().map(|s| s.to_string()).collect()
}

fn query(industry: &[&str], sun_sign: &[&str]) -> Filters {
    Filters { industry: strings(industry), sun_sign: strings(sun_sign) }
}

fn seed() -> Vec<Profile> {
    seed_store(&vec![]).snapshot()
}

fn usernames(profiles: &[Profile]) -> Vec<String> {
    profiles.iter().map(|p| p.username.clone()).collect()
}

const CANONICAL: [&str; 12] = [
    "Capricorn", "Aquarius", "Pisces", "Aries", "Taurus", "Gemini", "Cancer", "Leo", "Virgo",
    "Libra", "Scorpio", "Sagittarius",
];

#[test]
fn empty_query_lists_whole_store() {
    let store = seed();
    let ctx = profiles_filter(&store, query(&[], &[]));
    assert_eq!(ctx.profiles.len(), 12);
    assert_eq!(usernames(&ctx.profiles), usernames(&store));
    assert!(ctx.checked_industries.is_empty());
    assert!(ctx.checked_sun_signs.is_empty());
    assert_eq!(ctx.all_sun_signs, strings(&CANONICAL));
}

#[test]
fn industry_tech() {
    let ctx = profiles_filter(&seed(), query(&["tech"], &[]));
    assert_eq!(
        usernames(&ctx.profiles),
        strings(&[
            "stevejobs", "jeffbezos", "billgates", "markzuckerberg", "sundarpichai", "larrypage",
            "satyanadella", "timcook",
        ])
    );
    assert_eq!(ctx.checked_industries, strings(&["tech"]));
}

#[test]
fn industry_tech_or_finance() {
    let ctx = profiles_filter(&seed(), query(&["tech", "finance"], &[]));
    assert_eq!(
        usernames(&ctx.profiles),
        strings(&[
            "stevejobs", "jeffbezos", "billgates", "markzuckerberg", "warrenbuffett",
            "sundarpichai", "larrypage", "satyanadella", "timcook",
        ])
    );
    assert_eq!(ctx.checked_industries, strings(&["tech", "finance"]));
}

#[test]
fn sun_sign_virgo() {
    let ctx = profiles_filter(&seed(), query(&[], &["Virgo"]));
    assert_eq!(usernames(&ctx.profiles), strings(&["warrenbuffett", "jackma"]));
    assert_eq!(ctx.checked_sun_signs, strings(&["Virgo"]));
}

#[test]
fn facets_combine_by_and() {
    let ctx = profiles_filter(&seed(), query(&["tech"], &["Virgo"]));
    assert!(ctx.profiles.is_empty());
}

#[test]
fn unknown_industry_matches_nothing() {
    let ctx = profiles_filter(&seed(), query(&["nonexistent"], &[]));
    assert!(ctx.profiles.is_empty());
    assert_eq!(ctx.checked_industries, strings(&["nonexistent"]));
    assert_eq!(ctx.all_sun_signs, strings(&CANONICAL));
}

#[test]
fn facet_names_are_routed() {
    let by_industry = evaluate(&seed(), &query(&["Pisces"], &[]));
    assert!(by_industry.is_empty());
    let by_sign = evaluate(&seed(), &query(&[], &["Pisces"]));
    assert_eq!(usernames(&by_sign), strings(&["stevejobs"]));
}

#[test]
fn duplicates_in_a_facet_change_nothing() {
    let once = evaluate(&seed(), &query(&["tech"], &[]));
    let twice = evaluate(&seed(), &query(&["tech", "tech"], &[]));
    assert_eq!(usernames(&once), usernames(&twice));
    let ctx = profiles_filter(&seed(), query(&["tech", "tech"], &[]));
    assert_eq!(ctx.checked_industries, strings(&["tech", "tech"]));
}

#[test]
fn empty_string_selects_only_empty_attribute() {
    assert!(evaluate(&seed(), &query(&[""], &[])).is_empty());
}

#[test]
fn matching_is_case_sensitive() {
    assert!(evaluate(&seed(), &query(&["Tech"], &[])).is_empty());
}

#[test]
fn widening_keeps_earlier_results() {
    let narrow = usernames(&evaluate(&seed(), &query(&["finance"], &["Virgo"])));
    let wide = usernames(&evaluate(&seed(), &query(&["finance", "e-commerce"], &["Virgo", "Leo"])));
    assert_eq!(narrow, strings(&["warrenbuffett"]));
    assert_eq!(wide, strings(&["warrenbuffett", "jackma"]));
}

#[test]
fn result_is_subsequence_of_store() {
    let store = usernames(&seed());
    let result = usernames(&evaluate(&seed(), &query(&[], &["Scorpio", "Capricorn"])));
    assert_eq!(result, strings(&["jeffbezos", "billgates", "andrewyang", "timcook"]));
    let mut pos = 0;
    for name in &result {
        pos += store[pos..].iter().position(|s| s == name).unwrap() + 1;
    }
}

#[test]
fn repeated_filter_gives_same_context() {
    let a = profiles_filter(&seed(), query(&["tech"], &["Scorpio"]));
    let b = profiles_filter(&seed(), query(&["tech"], &["Scorpio"]));
    assert_eq!(usernames(&a.profiles), usernames(&b.profiles));
    assert_eq!(usernames(&a.profiles), strings(&["billgates", "timcook"]));
    assert_eq!(a.checked_industries, b.checked_industries);
    assert_eq!(a.checked_sun_signs, b.checked_sun_signs);
    assert_eq!(a.all_sun_signs, b.all_sun_signs);
}

#[test]
fn query_parameters_become_facets() {
    let pairs: Vec<(String, String)> = vec![
        ("industry".to_string(), "tech".to_string()),
        ("page".to_string(), "2".to_string()),
        ("sun_sign".to_string(), "Virgo".to_string()),
        ("industry".to_string(), "finance".to_string()),
        ("sun-sign".to_string(), "Leo".to_string()),
        ("industry".to_string(), "tech".to_string()),
    ];
    let f = Filters::from_query(&pairs);
    assert_eq!(f.industry, strings(&["tech", "finance", "tech"]));
    assert_eq!(f.sun_sign, strings(&["Virgo"]));
    let none = Filters::from_query(&vec![]);
    assert!(none.industry.is_empty() && none.sun_sign.is_empty());
}
