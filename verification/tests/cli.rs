use hs_order::cli::{
    hero_item_from, parse_hero_item, parse_order_id, parse_pwd4, parse_table_size, resolve_oid,
    table_size_from, AutoClaim, BattleMode,
};
use hs_order::constants::{HERO_NAMES, MAX_HERO_MASK};

#[test]
fn test_parse_order_id_ok() {
    let s = "1234567890123456789";
    let r = parse_order_id(s);
    assert_eq!(r.unwrap(), s);
}

#[test]
fn test_parse_order_id_err() {
    let r = parse_order_id("abc123");
    assert!(matches!(r, Err(e) if e == "订单号必须为纯数字"));
}

#[test]
fn test_parse_table_size_ok() {
    let s = "30";
    let r = parse_table_size(s);
    assert_eq!(r.unwrap(), 30);
}

#[test]
fn test_parse_table_size_all() {
    let r = parse_table_size("all");
    assert_eq!(r.unwrap(), usize::MAX);
}

#[test]
fn test_parse_table_size_err() {
    let r = parse_table_size("abc");
    assert!(matches!(r, Err(e) if e == "游戏数据统计表格显示的最大记录条数必须为整数或ALL"));
}

#[test]
fn test_parse_pwd4_ok() {
    let s = "zwmm";
    let r = parse_pwd4(s);
    assert_eq!(r.unwrap(), s);
}

#[test]
fn test_parse_pwd4_err() {
    let r = parse_pwd4("zw3");
    assert!(matches!(r, Err(e) if e == "战网密码前4位必须为4个字符"));
}

#[test]
fn test_parse_hero_item_all() {
    assert_eq!(parse_hero_item("all").unwrap(), "all");
    assert_eq!(parse_hero_item("全部").unwrap(), "全部");
}

#[test]
fn test_parse_hero_item_mask_ok() {
    let r = parse_hero_item("1234");
    assert_eq!(r.unwrap(), "1234");
}

#[test]
fn test_parse_hero_item_mask_err_low() {
    let r = parse_hero_item("0");
    let expected = format!("英雄掩码超出范围(1-{}): {}", MAX_HERO_MASK, 0);
    assert!(matches!(r, Err(e) if e == expected));
}

#[test]
fn test_parse_hero_item_mask_err_high() {
    let high = (MAX_HERO_MASK + 1).to_string();
    let expected = format!(
        "英雄掩码超出范围(1-{}): {}",
        MAX_HERO_MASK,
        MAX_HERO_MASK + 1
    );
    let r = parse_hero_item(&high);
    assert!(matches!(r, Err(e) if e == expected));
}

#[test]
fn test_parse_hero_item_name_ok() {
    let name = HERO_NAMES[7];
    let r = parse_hero_item(name);
    assert_eq!(r.unwrap(), name);
}

#[test]
fn test_parse_hero_item_name_err() {
    let r = parse_hero_item("神谕者");
    assert!(matches!(r, Err(e) if e == "未知英雄名称: 神谕者"));
}

#[test]
fn order_id_needs_a_digit_and_nothing_else() {
    assert_eq!(parse_order_id("").unwrap_err(), "订单号必须为纯数字");
    assert_eq!(parse_order_id("0").unwrap(), "0");
    assert_eq!(parse_order_id("007").unwrap(), "007");
    assert!(parse_order_id("+1").is_err());
    assert!(parse_order_id("-1").is_err());
    assert!(parse_order_id("12 ").is_err());
    assert!(parse_order_id(" ").is_err());
    assert!(parse_order_id("１２").is_err());
}

#[test]
fn table_size_accepts_all_in_any_case() {
    assert_eq!(parse_table_size("ALL").unwrap(), usize::MAX);
    assert_eq!(parse_table_size("All").unwrap(), usize::MAX);
    assert_eq!(parse_table_size("0").unwrap(), 0);
    assert_eq!(parse_table_size("+7").unwrap(), 7);
    assert!(parse_table_size("-1").is_err());
    assert!(parse_table_size("").is_err());
    assert!(parse_table_size("99999999999999999999999").is_err());
}

#[test]
fn table_size_from_goes_by_the_given_lowercase() {
    assert_eq!(table_size_from("ALL", "all").unwrap(), usize::MAX);
    assert!(table_size_from("ALL", "ALL").is_err());
    assert_eq!(table_size_from("12", "12").unwrap(), 12);
}

#[test]
fn pwd4_counts_characters() {
    assert!(parse_pwd4("").is_err());
    assert!(parse_pwd4("abcde").is_err());
    assert_eq!(parse_pwd4("a b!").unwrap(), "a b!");
    assert_eq!(parse_pwd4("密码ab").unwrap(), "密码ab");
}

#[test]
fn hero_item_accepts_all_in_any_case_and_every_name() {
    assert_eq!(parse_hero_item("ALL").unwrap(), "ALL");
    assert_eq!(parse_hero_item("1").unwrap(), "1");
    assert_eq!(parse_hero_item("2047").unwrap(), "2047");
    assert_eq!(parse_hero_item("+5").unwrap(), "+5");
    for name in HERO_NAMES {
        assert_eq!(parse_hero_item(name).unwrap(), name);
    }
}

#[test]
fn hero_item_refuses_what_is_neither_mask_nor_name() {
    assert_eq!(parse_hero_item("2048").unwrap_err(), "英雄掩码超出范围(1-2047): 2048");
    assert_eq!(parse_hero_item("4294967295").unwrap_err(), "英雄掩码超出范围(1-2047): 4294967295");
    assert_eq!(parse_hero_item("4294967296").unwrap_err(), "未知英雄名称: 4294967296");
    assert_eq!(parse_hero_item("-1").unwrap_err(), "未知英雄名称: -1");
    assert_eq!(parse_hero_item("").unwrap_err(), "未知英雄名称: ");
    assert_eq!(parse_hero_item("战士 ").unwrap_err(), "未知英雄名称: 战士 ");
}

#[test]
fn hero_item_from_goes_by_the_given_lowercase() {
    assert_eq!(hero_item_from("ALL", "all").unwrap(), "ALL");
    assert_eq!(hero_item_from("ALL", "ALL").unwrap_err(), "未知英雄名称: ALL");
}

#[test]
fn battle_mode_words_and_codes() {
    let cases = [
        (BattleMode::Casual, "1", "休闲模式", vec!["casual", "1", "c", "休闲"]),
        (BattleMode::Standard, "2", "标准模式", vec!["standard", "2", "s", "标准"]),
        (BattleMode::Wild, "3", "狂野模式", vec!["wild", "3", "w", "狂野"]),
        (BattleMode::Twist, "4", "幻变模式", vec!["twist", "4", "t", "幻变"]),
        (
            BattleMode::Battlegrounds,
            "5",
            "酒馆战棋",
            vec!["battlegrounds", "5", "b", "酒馆", "战棋", "酒馆战棋"],
        ),
    ];
    for (mode, code, name, words) in cases {
        assert_eq!(mode.code(), code);
        assert_eq!(mode.display_name(), name);
        for word in words {
            assert_eq!(BattleMode::from_word(word), Some(mode));
        }
    }
    assert_eq!(BattleMode::from_word("Casual"), None);
    assert_eq!(BattleMode::from_word("6"), None);
    assert_eq!(BattleMode::from_word(""), None);
}

#[test]
fn auto_claim_words_and_codes() {
    for word in ["on", "1", "true"] {
        assert_eq!(AutoClaim::from_word(word), Some(AutoClaim::On));
    }
    for word in ["off", "0", "false"] {
        assert_eq!(AutoClaim::from_word(word), Some(AutoClaim::Off));
    }
    assert_eq!(AutoClaim::from_word("yes"), None);
    assert_eq!(AutoClaim::On.code(), "1");
    assert_eq!(AutoClaim::Off.code(), "0");
    assert_eq!(AutoClaim::On.display_name(), "开启");
    assert_eq!(AutoClaim::Off.display_name(), "关闭");
}

#[test]
fn resolve_oid_skips_the_query_only_when_told() {
    assert_eq!(resolve_oid("12345", true), Some("12345".to_string()));
    assert_eq!(resolve_oid("12345", false), None);
}
