use hs_order::constants::{HERO_COUNT, HERO_NAMES, MAX_HERO_MASK};
use hs_order::heroes::{
    hero_index, hero_selection_mask, mask_hero_names, selection_mask_of, selection_text,
};
use hs_order::parser::parse_battle_heroes;

fn texts(items: &[&str]) -> Vec<String> {
    items.iter().map(|s| s.to_string()).collect()
}

#[test]
fn test_parse_battle_heroes_mask() {
    let v = parse_battle_heroes("2000");
    assert!(v.len() == 6);
    assert_eq!(v[0], "猎人");
    assert_eq!(v[1], "术士");
    assert_eq!(v[2], "法师");
    assert_eq!(v[3], "牧师");
    assert_eq!(v[4], "恶魔猎手");
    assert_eq!(v[5], "死亡骑士");
}

#[test]
fn parse_battle_heroes_reads_no_mask_as_none() {
    assert!(parse_battle_heroes("").is_empty());
    assert!(parse_battle_heroes("abc").is_empty());
    assert!(parse_battle_heroes("-1").is_empty());
    assert!(parse_battle_heroes("0").is_empty());
    assert!(parse_battle_heroes("4294967296").is_empty());
    assert_eq!(parse_battle_heroes("1"), vec!["战士"]);
    assert_eq!(parse_battle_heroes("+3"), vec!["战士", "萨满祭司"]);
    assert_eq!(parse_battle_heroes("2047").len(), 11);
    assert_eq!(parse_battle_heroes("2048").len(), 0);
    assert_eq!(parse_battle_heroes("4294967295").len(), 11);
}

#[test]
fn full_mask_has_one_bit_for_each_hero() {
    assert_eq!(HERO_COUNT, 11);
    assert_eq!(HERO_NAMES.len(), HERO_COUNT);
    assert_eq!(MAX_HERO_MASK, (1 << HERO_COUNT) - 1);
}

#[test]
fn hero_index_finds_exact_names_only() {
    for (i, name) in HERO_NAMES.iter().enumerate() {
        assert_eq!(hero_index(name), Some(i));
    }
    assert_eq!(hero_index("神谕者"), None);
    assert_eq!(hero_index(""), None);
    assert_eq!(hero_index("战"), None);
    assert_eq!(hero_index("战士士"), None);
}

#[test]
fn every_mask_survives_the_round_trip() {
    for mask in 1..=MAX_HERO_MASK {
        let names = mask_hero_names(mask);
        assert_eq!(names.len() as u32, mask.count_ones());
        let mut again: u32 = 0;
        for name in &names {
            again |= 1 << hero_index(name).unwrap();
        }
        assert_eq!(again, mask);
        assert_eq!(hero_selection_mask(&names), mask);
    }
}

#[test]
fn selection_by_word_mask_and_names() {
    assert_eq!(hero_selection_mask(&texts(&["all"])), 2047);
    assert_eq!(hero_selection_mask(&texts(&["ALL"])), 2047);
    assert_eq!(hero_selection_mask(&texts(&["全部"])), 2047);
    assert_eq!(hero_selection_mask(&texts(&["1234"])), 1234);
    assert_eq!(hero_selection_mask(&texts(&["+5"])), 5);
    assert_eq!(hero_selection_mask(&texts(&["战士"])), 1);
    assert_eq!(hero_selection_mask(&texts(&["战士", "法师"])), 1 | (1 << 7));
    assert_eq!(hero_selection_mask(&texts(&["法师", "战士", "法师"])), 1 | (1 << 7));
    assert_eq!(hero_selection_mask(&texts(&["死亡骑士"])), 1 << 10);
    assert_eq!(hero_selection_mask(&texts(&["战士", "All"])), 2047);
    assert_eq!(hero_selection_mask(&texts(&["全部", "战士"])), 2047);
    assert_eq!(hero_selection_mask(&texts(&[])), 0);
}

#[test]
fn selection_ignores_what_it_cannot_read() {
    assert_eq!(hero_selection_mask(&texts(&["神谕者"])), 0);
    assert_eq!(hero_selection_mask(&texts(&["0"])), 0);
    assert_eq!(hero_selection_mask(&texts(&["3", "战士"])), 1);
    assert_eq!(hero_selection_mask(&texts(&["战士", "神谕者", "猎人"])), 1 | (1 << 4));
}

#[test]
fn selection_mask_of_goes_by_the_given_lowercase() {
    assert_eq!(selection_mask_of(&texts(&["ALL"]), &texts(&["all"])), 2047);
    assert_eq!(selection_mask_of(&texts(&["ALL"]), &texts(&["ALL"])), 0);
    assert_eq!(selection_mask_of(&texts(&["战士", "X"]), &texts(&["战士", "all"])), 2047);
    assert_eq!(selection_mask_of(&texts(&["战士"]), &texts(&[])), 0);
    assert_eq!(selection_mask_of(&texts(&["战士", "法师"]), &texts(&["战士"])), 0);
}

#[test]
fn selection_text_names_the_heroes() {
    assert_eq!(selection_text(2047), "全部");
    assert_eq!(selection_text(1), "战士");
    assert_eq!(selection_text(5), "战士, 潜行者");
    assert_eq!(selection_text(0), "");
    assert_eq!(selection_text(2000), "猎人, 术士, 法师, 牧师, 恶魔猎手, 死亡骑士");
}
