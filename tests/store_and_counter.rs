use profile_filter::counter::{HitCount, MAX_DELAY_MS, MIN_DELAY_MS};
use profile_filter::counter::short_delay_ms;
use profile_filter::profile::{all_sun_signs, is_sun_sign, CreateProfileError, Profile, ProfileStore};
use profile_filter::seed::seed_store;

fn person(username: &str, sun_sign: &str, industry: &str) -> Profile {
    Profile {
        username: username.to_string(),
        upshot: "u".to_string(),
        sun_sign: sun_sign.to_string(),
        industry: industry.to_string(),
        description: "d".to_string(),
        profile_pic_b64: "p".to_string(),
    }
}

#[test]
fn seed_has_twelve_distinct_profiles() {
    let store = seed_store(&vec!["AAAA".to_string()]);
    assert_eq!(store.len(), 12);
    let profiles = store.snapshot();
    assert_eq!(profiles[0].username, "stevejobs");
    assert_eq!(profiles[0].profile_pic_b64, "AAAA");
    assert_eq!(profiles[1].profile_pic_b64, "");
    assert_eq!(profiles[11].username, "timcook");
    assert_eq!(profiles[10].industry, "unknown");
}

#[test]
fn create_profile_appends_at_the_end() {
    let mut store = seed_store(&vec![]);
    assert_eq!(store.create_profile(person("adalovelace", "Sagittarius", "tech")), Ok(()));
    assert_eq!(store.len(), 13);
    assert_eq!(store.snapshot()[12].username, "adalovelace");
    assert!(!store.check_username_availability(&"adalovelace".to_string()));
}

#[test]
fn create_profile_errors() {
    let mut store = ProfileStore::new();
    assert_eq!(store.create_profile(person("", "Leo", "tech")), Err(CreateProfileError::EmptyUsername));
    assert_eq!(store.create_profile(person("a", "Leo", "tech")), Ok(()));
    assert_eq!(store.create_profile(person("a", "Virgo", "x")), Err(CreateProfileError::UsernameTaken));
    assert_eq!(store.create_profile(person("b", "leo", "x")), Err(CreateProfileError::UnknownSunSign));
    assert_eq!(store.len(), 1);
}

#[test]
fn username_availability() {
    let store = seed_store(&vec![]);
    assert!(!store.check_username_availability(&"jackma".to_string()));
    assert!(store.check_username_availability(&"JackMa".to_string()));
    assert!(store.check_username_availability(&"".to_string()));
}

#[test]
fn find_profile_by_username() {
    let store = seed_store(&vec![]);
    let p = store.find_profile(&"jackma".to_string()).unwrap();
    assert_eq!(p.industry, "e-commerce");
    assert_eq!(p.sun_sign, "Virgo");
    assert!(store.find_profile(&"nobody".to_string()).is_none());
    assert_eq!(store.position_of(&"timcook".to_string()), Some(11));
}

#[test]
fn sun_sign_list() {
    let signs = all_sun_signs();
    assert_eq!(signs.len(), 12);
    assert_eq!(signs[0], "Capricorn");
    assert_eq!(signs[11], "Sagittarius");
    assert!(is_sun_sign(&"Libra".to_string()));
    assert!(!is_sun_sign(&"Ophiuchus".to_string()));
}

#[test]
fn hit_count_bumps() {
    let mut hits = HitCount::new();
    assert_eq!(hits.count, 6);
    assert!(hits.bump_with_roll(0));
    assert_eq!(hits.count, 7);
    assert!(!hits.bump_with_roll(4));
    assert_eq!(hits.count, 7);
    assert!(hits.bump_with_roll(3));
    assert_eq!(hits.count, 8);
    let mut full = HitCount { count: u64::MAX };
    assert!(!full.bump_with_roll(0));
    assert_eq!(full.count, u64::MAX);
}

#[test]
fn random_bump_and_delay_stay_in_range() {
    let mut hits = HitCount::new();
    for _ in 0..50 {
        let before = hits.count;
        let ok = hits.bump_count();
        assert_eq!(hits.count, if ok { before + 1 } else { before });
        let d = short_delay_ms();
        assert!(MIN_DELAY_MS <= d && d <= MAX_DELAY_MS);
    }
}
