use hs_order::display::{
    battle_statistics, calculate_battle_stats, calculate_exp_total, calculate_gold_totals,
    exp_statistics, format_total, get_auto_claim_text, get_battle_heroes_text,
    get_battle_mode_text, get_order_status, gold_statistics, order_info_rows, reward_level,
    shown_records, table_title, text_contains, win_rate, Tone,
};
use hs_order::models::{BattleRecord, DlData, ExpRecord, GoldRecord, OrderConfig, OrderData};

fn gold(gold_change: &str, pack_change: &str) -> GoldRecord {
    GoldRecord { time: String::new(), gold_change: gold_change.into(), pack_change: pack_change.into() }
}

fn exp(exp_change: &str) -> ExpRecord {
    ExpRecord {
        time: String::new(),
        exp_change: exp_change.into(),
        level: String::new(),
        total_exp: String::new(),
        current_level_exp: String::new(),
    }
}

fn battle(result: &str, exp: &str) -> BattleRecord {
    BattleRecord { time: String::new(), result: result.into(), exp: exp.into() }
}

fn sample_order() -> OrderData {
    OrderData {
        am: "am".into(),
        oid: "9001".into(),
        edate: "2025-12-01".into(),
        config: "{}".into(),
        details: String::new(),
        finish: "0".into(),
        banned: "0".into(),
        dltype: String::new(),
        num1: "500".into(),
        num2: "3".into(),
        num3: "4".into(),
        num7: String::new(),
        num8: String::new(),
        dldata: "[]".into(),
        remark: String::new(),
    }
}

fn stats(today_battles: u64) -> DlData {
    DlData {
        basic_info: vec![],
        gold_records: vec![],
        exp_records: vec![],
        battle_records: vec![],
        today_battles,
    }
}

#[test]
fn test_calculate_gold_totals() {
    let items = vec![
        GoldRecord {
            time: String::new(),
            gold_change: "+50".into(),
            pack_change: "0".into(),
        },
        GoldRecord {
            time: String::new(),
            gold_change: "+100".into(),
            pack_change: "+1".into(),
        },
    ];
    let (g, p) = calculate_gold_totals(&items);
    assert_eq!(g, 150);
    assert_eq!(p, 1);
}

#[test]
fn test_calculate_exp_total() {
    let items = vec![
        ExpRecord {
            time: String::new(),
            exp_change: "+161".into(),
            level: String::new(),
            total_exp: String::new(),
            current_level_exp: String::new(),
        },
        ExpRecord {
            time: String::new(),
            exp_change: "+78".into(),
            level: String::new(),
            total_exp: String::new(),
            current_level_exp: String::new(),
        },
    ];
    assert_eq!(calculate_exp_total(&items), 239);
}

#[test]
fn test_calculate_battle_stats() {
    let items = vec![
        BattleRecord {
            time: String::new(),
            result: "胜利".into(),
            exp: "+156".into(),
        },
        BattleRecord {
            time: String::new(),
            result: "失败".into(),
            exp: "+43".into(),
        },
    ];
    let (w, l, e) = calculate_battle_stats(&items);
    assert_eq!(w, 1);
    assert_eq!(l, 1);
    assert_eq!(e, 199);
}

#[test]
fn totals_leave_out_negative_changes() {
    let items = vec![gold("+50", "-2"), gold("-100", "+1"), gold("0", "x"), gold("7", "")];
    assert_eq!(calculate_gold_totals(&items), (57, 1));
    assert_eq!(calculate_gold_totals(&vec![]), (0, 0));
    assert_eq!(calculate_exp_total(&vec![exp("-5"), exp("+5"), exp("five")]), 5);
}

#[test]
fn totals_do_not_wrap() {
    let most = usize::MAX.to_string();
    let items = vec![gold(&most, &most), gold(&most, "1"), gold(&most, "0")];
    let (g, p) = calculate_gold_totals(&items);
    assert_eq!(g, 3 * (usize::MAX as u128));
    assert_eq!(p, usize::MAX as u128 + 1);
    assert_eq!(format_total(g), format!("+{}", 3 * (usize::MAX as u128)));
}

#[test]
fn battle_stats_go_by_the_result_text() {
    let items = vec![
        battle("胜利", "+1"),
        battle("未知", "+2"),
        battle("未知 3", "-4"),
        battle("失败", "0"),
        battle("大胜利!", "+8"),
        battle("失败后胜利", "+16"),
        battle("", "+32"),
    ];
    assert_eq!(calculate_battle_stats(&items), (3, 1, 59));
    assert_eq!(calculate_battle_stats(&vec![]), (0, 0, 0));
}

#[test]
fn text_contains_finds_any_position() {
    assert!(text_contains("未知 胜利", "胜利"));
    assert!(text_contains("胜利", "胜利"));
    assert!(text_contains("abc", ""));
    assert!(text_contains("", ""));
    assert!(!text_contains("", "胜利"));
    assert!(!text_contains("胜", "胜利"));
    assert!(!text_contains("胜 利", "胜利"));
    assert!(text_contains("aab", "ab"));
    assert!(!text_contains("aba", "bb"));
}

#[test]
fn win_rate_is_rounded_down() {
    assert_eq!(win_rate(0, 0), 0);
    assert_eq!(win_rate(0, 5), 0);
    assert_eq!(win_rate(5, 0), 100);
    assert_eq!(win_rate(1, 1), 50);
    assert_eq!(win_rate(1, 2), 33);
    assert_eq!(win_rate(2, 1), 66);
    assert_eq!(win_rate(57, 43), 57);
    assert_eq!(win_rate(usize::MAX, usize::MAX), 50);
    assert_eq!(win_rate(usize::MAX, 0), 100);
}

#[test]
fn format_total_spells_the_sign() {
    assert_eq!(format_total(0), "0");
    assert_eq!(format_total(150), "+150");
    assert_eq!(format_total(u128::MAX), format!("+{}", u128::MAX));
}

#[test]
fn statistics_are_absent_without_records() {
    assert!(gold_statistics(&vec![]).is_none());
    assert!(exp_statistics(&vec![]).is_none());
    assert!(battle_statistics(&vec![]).is_none());
}

#[test]
fn statistics_of_some_records() {
    let g = gold_statistics(&vec![gold("+50", "0"), gold("+100", "+1")]).unwrap();
    assert_eq!(g.total_gold, "+150");
    assert_eq!(g.total_packs, "+1");
    let g = gold_statistics(&vec![gold("-50", "0")]).unwrap();
    assert_eq!(g.total_gold, "0");
    assert_eq!(g.total_packs, "0");
    assert_eq!(exp_statistics(&vec![exp("+161"), exp("+78")]).unwrap(), "+239");
    let b = battle_statistics(&vec![battle("胜利", "+156"), battle("失败", "+43"), battle("胜利", "+1")])
        .unwrap();
    assert_eq!(b.wins, 2);
    assert_eq!(b.losses, 1);
    assert_eq!(b.win_rate, 66);
    assert_eq!(b.total_exp, "+200");
    let b = battle_statistics(&vec![battle("未知", "0")]).unwrap();
    assert_eq!((b.wins, b.losses, b.win_rate), (0, 0, 0));
    assert_eq!(b.total_exp, "0");
}

#[test]
fn tables_show_no_more_than_asked() {
    assert_eq!(shown_records(0, 10), 0);
    assert_eq!(shown_records(4, 0), 0);
    assert_eq!(shown_records(4, 10), 4);
    assert_eq!(shown_records(10, 10), 10);
    assert_eq!(shown_records(11, 10), 10);
    assert_eq!(shown_records(11, usize::MAX), 11);
    assert_eq!(table_title(4, "金币记录"), "最近 4 条金币记录:");
    assert_eq!(table_title(10, "对战记录"), "最近 10 条对战记录:");
}

#[test]
fn order_status_from_its_flags() {
    let s = get_order_status("1", "0");
    assert_eq!((s.text.as_str(), s.tone), ("已完成", Tone::Green));
    let s = get_order_status("0", "0");
    assert_eq!((s.text.as_str(), s.tone), ("进行中", Tone::Blue));
    for finish in ["0", "1", "2", ""] {
        let s = get_order_status(finish, "1");
        assert_eq!((s.text.as_str(), s.tone), ("已终止", Tone::Red));
    }
    for (finish, banned) in [("2", "0"), ("1", "2"), ("", ""), ("0", "")] {
        let s = get_order_status(finish, banned);
        assert_eq!((s.text.as_str(), s.tone), ("未知状态", Tone::Magenta));
    }
}

#[test]
fn battle_mode_from_its_code() {
    let names = ["休闲模式", "标准模式", "狂野模式", "幻变模式", "酒馆战棋"];
    for (i, name) in names.iter().enumerate() {
        let s = get_battle_mode_text(&(i + 1).to_string());
        assert_eq!((s.text.as_str(), s.tone), (*name, Tone::Yellow));
    }
    let s = get_battle_mode_text("6");
    assert_eq!((s.text.as_str(), s.tone), ("未知模式(6)", Tone::Magenta));
    let s = get_battle_mode_text("");
    assert_eq!((s.text.as_str(), s.tone), ("未知模式()", Tone::Magenta));
}

#[test]
fn battle_heroes_from_the_mask() {
    let s = get_battle_heroes_text(&None);
    assert_eq!((s.text.as_str(), s.tone), ("全部", Tone::Blue));
    let s = get_battle_heroes_text(&Some("2047".to_string()));
    assert_eq!((s.text.as_str(), s.tone), ("全部", Tone::Blue));
    for text in ["", "0", "x", "2048"] {
        let s = get_battle_heroes_text(&Some(text.to_string()));
        assert_eq!((s.text.as_str(), s.tone), ("无", Tone::Yellow));
    }
    let s = get_battle_heroes_text(&Some("129".to_string()));
    assert_eq!((s.text.as_str(), s.tone), ("战士, 法师", Tone::White));
    let s = get_battle_heroes_text(&Some("1024".to_string()));
    assert_eq!((s.text.as_str(), s.tone), ("死亡骑士", Tone::White));
}

#[test]
fn auto_claim_from_its_flag() {
    let s = get_auto_claim_text(&Some("1".to_string()));
    assert_eq!((s.text.as_str(), s.tone), ("开启", Tone::Green));
    let s = get_auto_claim_text(&Some("0".to_string()));
    assert_eq!((s.text.as_str(), s.tone), ("关闭", Tone::Yellow));
    let s = get_auto_claim_text(&None);
    assert_eq!((s.text.as_str(), s.tone), ("关闭", Tone::Yellow));
    let s = get_auto_claim_text(&Some("true".to_string()));
    assert_eq!((s.text.as_str(), s.tone), ("未知", Tone::Magenta));
}

#[test]
fn reward_level_is_one_above_the_quantity() {
    assert_eq!(reward_level("4"), 5);
    assert_eq!(reward_level("0"), 1);
    assert_eq!(reward_level("-1"), 0);
    assert_eq!(reward_level(""), 1);
    assert_eq!(reward_level("x"), 1);
    assert_eq!(reward_level("9223372036854775807"), 9223372036854775808);
}

#[test]
fn order_info_lists_every_line() {
    let config = OrderConfig {
        battlemode: Some("3".into()),
        region: None,
        pause: None,
        battleheroes: Some("5".into()),
        auto: Some("1".into()),
    };
    let rows = order_info_rows(&sample_order(), &config, &stats(30));
    let shown: Vec<(&str, &str, Tone, &str)> = rows
        .iter()
        .map(|r| (r.label.as_str(), r.value.text.as_str(), r.value.tone, r.unit.as_str()))
        .collect();
    assert_eq!(
        shown,
        vec![
            ("订单编号", "9001", Tone::Cyan, ""),
            ("截止时间", "2025-12-01", Tone::White, ""),
            ("订单状态", "进行中", Tone::Blue, ""),
            ("对战模式", "狂野模式", Tone::Yellow, ""),
            ("对战英雄", "战士, 潜行者", Tone::White, ""),
            ("自动领取", "开启", Tone::Green, ""),
            ("金币数量", "500", Tone::Yellow, "枚"),
            ("卡包数量", "3", Tone::Blue, "包"),
            ("奖励等级", "5", Tone::Purple, "级"),
            ("今日对战", "30", Tone::Cyan, "场"),
        ]
    );
}

#[test]
fn order_info_uses_defaults_and_shows_a_remark() {
    let mut order = sample_order();
    order.remark = "加急".into();
    order.finish = "1".into();
    order.num3 = "?".into();
    let rows = order_info_rows(&order, &OrderConfig::default(), &stats(0));
    assert_eq!(rows.len(), 11);
    assert_eq!(rows[2].value.text, "已完成");
    assert_eq!(rows[3].value.text, "休闲模式");
    assert_eq!(rows[4].value.text, "全部");
    assert_eq!(rows[5].value.text, "关闭");
    assert_eq!(rows[8].value.text, "1");
    assert_eq!(rows[9].value.text, "0");
    assert_eq!(rows[10].label, "备注信息");
    assert_eq!(rows[10].value.text, "加急");
    assert_eq!(rows[10].value.tone, Tone::White);
    assert_eq!(rows[10].unit, "");
}
