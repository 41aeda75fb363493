//! What is shown of an order: the texts of its status lines and the
//! aggregates of its records. Printing is left to the caller.

use vstd::prelude::*;
use crate::constants::{
    HERO_COUNT, MODE_BATTLEGROUNDS, MODE_CASUAL, MODE_STANDARD, MODE_TWIST, MODE_WILD,
    STATUS_BANNED, STATUS_FINISHED, STATUS_RUNNING,
};
use crate::heroes::{mask_hero_names, mask_names, text_mask};
use crate::models::{
    BattleRecord, BattleRecordView, DlData, ExpRecord, ExpRecordView, GoldRecord, GoldRecordView,
    OrderConfig, OrderConfigView, OrderData, OrderDataView,
};
use crate::utils::{
    append_decimal, chars_of, decimal, decimal_text, integer_text, join, joined, parse_signed,
    parse_unsigned, parse_unsigned_int, plain_decimal, signed_decimal, signed_within, text_eq,
    unsigned_or_zero,
};

verus! {

/// The colour that a text is shown in.
#[derive(Clone, Copy, Debug, PartialEq, Eq)]
pub enum Tone {
    Green,
    Blue,
    Red,
    Magenta,
    Yellow,
    White,
    Cyan,
    Purple,
}

/// A text with the colour to show it in.
#[derive(Debug)]
pub struct Styled {
    pub text: String,
    pub tone: Tone,
}

impl View for Styled {
    type V = (Seq<char>, Tone);

    open spec fn view(&self) -> (Seq<char>, Tone) {
        (self.text@, self.tone)
    }
}

/// One line of the order summary: a label, the value with its colour, and
/// the unit that follows the value, if any.
#[derive(Debug)]
pub struct InfoRow {
    pub label: String,
    pub value: Styled,
    pub unit: String,
}

impl View for InfoRow {
    type V = (Seq<char>, (Seq<char>, Tone), Seq<char>);

    open spec fn view(&self) -> (Seq<char>, (Seq<char>, Tone), Seq<char>) {
        (self.label@, self.value@, self.unit@)
    }
}

/// The lines of a summary.
pub open spec fn rows_view(rows: Seq<InfoRow>) -> Seq<(Seq<char>, (Seq<char>, Tone), Seq<char>)> {
    Seq::new(rows.len(), |i: int| rows[i]@)
}

/// The status of an order, from its finish and banned flags.
pub open spec fn order_status(finish: Seq<char>, banned: Seq<char>) -> (Seq<char>, Tone) {
    if finish == STATUS_FINISHED@ && banned == STATUS_RUNNING@ {
        ("已完成"@, Tone::Green)
    } else if finish == STATUS_RUNNING@ && banned == STATUS_RUNNING@ {
        ("进行中"@, Tone::Blue)
    } else if banned == STATUS_BANNED@ {
        ("已终止"@, Tone::Red)
    } else {
        ("未知状态"@, Tone::Magenta)
    }
}

/// The name of a battle mode, from its code.
pub open spec fn battle_mode_label(battlemode: Seq<char>) -> (Seq<char>, Tone) {
    if battlemode == MODE_CASUAL@ {
        ("休闲模式"@, Tone::Yellow)
    } else if battlemode == MODE_STANDARD@ {
        ("标准模式"@, Tone::Yellow)
    } else if battlemode == MODE_WILD@ {
        ("狂野模式"@, Tone::Yellow)
    } else if battlemode == MODE_TWIST@ {
        ("幻变模式"@, Tone::Yellow)
    } else if battlemode == MODE_BATTLEGROUNDS@ {
        ("酒馆战棋"@, Tone::Yellow)
    } else {
        ("未知模式("@ + battlemode + ")"@, Tone::Magenta)
    }
}

/// The heroes of an order, from its written mask: all heroes where the
/// mask is absent or full, none where it is empty or selects nobody, and
/// the selected names otherwise.
pub open spec fn battle_heroes_label(battleheroes: Option<Seq<char>>) -> (Seq<char>, Tone) {
    match battleheroes {
        None => ("全部"@, Tone::Blue),
        Some(text) => {
            let names = mask_names(text_mask(text));
            if text.len() == 0 || names.len() == 0 {
                ("无"@, Tone::Yellow)
            } else if names.len() == HERO_COUNT {
                ("全部"@, Tone::Blue)
            } else {
                (joined(names, ", "@), Tone::White)
            }
        },
    }
}

/// Whether rewards are claimed automatically, from the order's flag.
pub open spec fn auto_claim_label(auto: Option<Seq<char>>) -> (Seq<char>, Tone) {
    match auto {
        None => ("关闭"@, Tone::Yellow),
        Some(text) => if text == "1"@ {
            ("开启"@, Tone::Green)
        } else if text == "0"@ {
            ("关闭"@, Tone::Yellow)
        } else {
            ("未知"@, Tone::Magenta)
        },
    }
}

/// The reward level of an order: one more than its third quantity, which
/// counts as 0 where it is no number.
pub open spec fn reward_level_of(num3: Seq<char>) -> int {
    match signed_within(num3, i64::MIN as int, i64::MAX as int) {
        Some(n) => n + 1,
        None => 1,
    }
}

fn styled(text: &str, tone: Tone) -> (s: Styled)
    ensures
        s@ == (text@, tone),
{
    Styled { text: String::from_str(text), tone }
}

/// The status of an order, from its finish and banned flags.
pub fn get_order_status(finish: &str, banned: &str) -> (status: Styled)
    ensures
        status@ == order_status(finish@, banned@),
{
    if text_eq(finish, STATUS_FINISHED) && text_eq(banned, STATUS_RUNNING) {
        styled("已完成", Tone::Green)
    } else if text_eq(finish, STATUS_RUNNING) && text_eq(banned, STATUS_RUNNING) {
        styled("进行中", Tone::Blue)
    } else if text_eq(banned, STATUS_BANNED) {
        styled("已终止", Tone::Red)
    } else {
        styled("未知状态", Tone::Magenta)
    }
}

/// The name of a battle mode, from its code.
pub fn get_battle_mode_text(battlemode: &str) -> (label: Styled)
    ensures
        label@ == battle_mode_label(battlemode@),
{
    if text_eq(battlemode, MODE_CASUAL) {
        styled("休闲模式", Tone::Yellow)
    } else if text_eq(battlemode, MODE_STANDARD) {
        styled("标准模式", Tone::Yellow)
    } else if text_eq(battlemode, MODE_WILD) {
        styled("狂野模式", Tone::Yellow)
    } else if text_eq(battlemode, MODE_TWIST) {
        styled("幻变模式", Tone::Yellow)
    } else if text_eq(battlemode, MODE_BATTLEGROUNDS) {
        styled("酒馆战棋", Tone::Yellow)
    } else {
        let mut text = String::from_str("未知模式(");
        text.append(battlemode);
        text.append(")");
        Styled { text, tone: Tone::Magenta }
    }
}

/// The heroes of an order, from its written mask.
pub fn get_battle_heroes_text(battleheroes: &Option<String>) -> (label: Styled)
    ensures
        label@ == battle_heroes_label(battleheroes.deep_view()),
{
    match battleheroes {
        None => styled("全部", Tone::Blue),
        Some(text) => {
            if text.as_str().is_empty() {
                return styled("无", Tone::Yellow);
            }
            let mask: u32 = match parse_unsigned(text.as_str(), 0xffff_ffff) {
                Some(m) => m as u32,
                None => 0,
            };
            let names = mask_hero_names(mask);
            if names.len() == 0 {
                styled("无", Tone::Yellow)
            } else if names.len() == HERO_COUNT {
                styled("全部", Tone::Blue)
            } else {
                Styled { text: join(&names, ", "), tone: Tone::White }
            }
        },
    }
}

/// Whether rewards are claimed automatically, from the order's flag.
pub fn get_auto_claim_text(auto: &Option<String>) -> (label: Styled)
    ensures
        label@ == auto_claim_label(auto.deep_view()),
{
    match auto {
        None => styled("关闭", Tone::Yellow),
        Some(text) => {
            if text_eq(text.as_str(), "1") {
                styled("开启", Tone::Green)
            } else if text_eq(text.as_str(), "0") {
                styled("关闭", Tone::Yellow)
            } else {
                styled("未知", Tone::Magenta)
            }
        },
    }
}

/// The reward level of an order: one more than its third quantity.
pub fn reward_level(num3: &str) -> (level: i128)
    ensures
        level == reward_level_of(num3@),
{
    match parse_signed(num3) {
        Some(n) => n as i128 + 1,
        None => 1,
    }
}

/// The code of the battle mode that an order is in: its own, or the code
/// of the casual mode where it has none.
pub open spec fn mode_code_of(battlemode: Option<Seq<char>>) -> Seq<char> {
    match battlemode {
        Some(code) => code,
        None => MODE_CASUAL@,
    }
}

/// The lines of the order summary: number, deadline, status, mode, heroes,
/// auto-claim, gold, packs, reward level and today's battles, and the
/// remark where there is one.
pub open spec fn order_info(order: OrderDataView, config: OrderConfigView, today_battles: nat) -> Seq<
    (Seq<char>, (Seq<char>, Tone), Seq<char>),
> {
    let none = Seq::<char>::empty();
    let lines = seq![
        ("订单编号"@, (order.oid, Tone::Cyan), none),
        ("截止时间"@, (order.edate, Tone::White), none),
        ("订单状态"@, order_status(order.finish, order.banned), none),
        ("对战模式"@, battle_mode_label(mode_code_of(config.battlemode)), none),
        ("对战英雄"@, battle_heroes_label(config.battleheroes), none),
        ("自动领取"@, auto_claim_label(config.auto), none),
        ("金币数量"@, (order.num1, Tone::Yellow), "枚"@),
        ("卡包数量"@, (order.num2, Tone::Blue), "包"@),
        ("奖励等级"@, (plain_decimal(reward_level_of(order.num3)), Tone::Purple), "级"@),
        ("今日对战"@, (decimal(today_battles), Tone::Cyan), "场"@),
    ];
    if order.remark.len() > 0 {
        lines.push(("备注信息"@, (order.remark, Tone::White), none))
    } else {
        lines
    }
}

fn info_row(label: &str, value: Styled, unit: &str) -> (row: InfoRow)
    ensures
        row@ == (label@, value@, unit@),
{
    InfoRow { label: String::from_str(label), value, unit: String::from_str(unit) }
}

/// The lines of the order summary.
pub fn order_info_rows(order: &OrderData, config: &OrderConfig, dldata: &DlData) -> (rows: Vec<InfoRow>)
    ensures
        rows_view(rows@) == order_info(order@, config@, dldata@.today_battles),
{
    let mut rows: Vec<InfoRow> = Vec::new();
    rows.push(info_row("订单编号", styled(order.oid.as_str(), Tone::Cyan), ""));
    rows.push(info_row("截止时间", styled(order.edate.as_str(), Tone::White), ""));
    rows.push(info_row("订单状态", get_order_status(order.finish.as_str(), order.banned.as_str()), ""));
    let mode = match &config.battlemode {
        Some(code) => get_battle_mode_text(code.as_str()),
        None => get_battle_mode_text(MODE_CASUAL),
    };
    rows.push(info_row("对战模式", mode, ""));
    rows.push(info_row("对战英雄", get_battle_heroes_text(&config.battleheroes), ""));
    rows.push(info_row("自动领取", get_auto_claim_text(&config.auto), ""));
    rows.push(info_row("金币数量", styled(order.num1.as_str(), Tone::Yellow), "枚"));
    rows.push(info_row("卡包数量", styled(order.num2.as_str(), Tone::Blue), "包"));
    let level = Styled { text: integer_text(reward_level(order.num3.as_str())), tone: Tone::Purple };
    rows.push(info_row("奖励等级", level, "级"));
    let today = Styled { text: decimal_text(dldata.today_battles as u128), tone: Tone::Cyan };
    rows.push(info_row("今日对战", today, "场"));
    if !order.remark.as_str().is_empty() {
        rows.push(info_row("备注信息", styled(order.remark.as_str(), Tone::White), ""));
    }
    proof {
        reveal_strlit("");
        assert(""@ =~= Seq::<char>::empty());
        assert(rows_view(rows@) =~= order_info(order@, config@, dldata@.today_battles));
    }
    rows
}

/// `needle` stands in `hay` at position `i`.
pub open spec fn occurs_at(hay: Seq<char>, needle: Seq<char>, i: int) -> bool {
    0 <= i && i + needle.len() <= hay.len() && hay.subrange(i, i + needle.len()) == needle
}

/// `needle` stands somewhere in `hay`.
pub open spec fn contains_text(hay: Seq<char>, needle: Seq<char>) -> bool {
    exists|i: int| occurs_at(hay, needle, i)
}

/// Whether `needle` stands somewhere in `hay`.
pub fn text_contains(hay: &str, needle: &str) -> (found: bool)
    ensures
        found == contains_text(hay@, needle@),
{
    let h = chars_of(hay);
    let n = chars_of(needle);
    if n.len() > h.len() {
        return false;
    }
    let last: usize = h.len() - n.len();
    let mut i: usize = 0;
    while i <= last
        invariant
            i <= last + 1,
            last == h.len() - n.len(),
            n.len() <= h.len(),
            h@ == hay@,
            n@ == needle@,
            forall|j: int| 0 <= j < i ==> !occurs_at(hay@, needle@, j),
        decreases last + 1 - i,
    {
        let mut k: usize = 0;
        while k < n.len() && h[i + k] == n[k]
            invariant
                k <= n.len(),
                i + n.len() <= h.len(),
                forall|j: int| 0 <= j < k ==> h@[i + j] == n@[j],
            decreases n.len() - k,
        {
            k = k + 1;
        }
        if k == n.len() {
            proof {
                assert(hay@.subrange(i as int, i + n.len()) =~= needle@);
                assert(occurs_at(hay@, needle@, i as int));
            }
            return true;
        }
        proof {
            assert(hay@.subrange(i as int, i + n.len())[k as int] == h@[i + k]);
        }
        i = i + 1;
    }
    false
}

/// The gold that the records add up to; a change that is no count adds nothing.
pub open spec fn gold_total(recs: Seq<GoldRecordView>) -> nat
    decreases recs.len(),
{
    if recs.len() == 0 {
        0
    } else {
        gold_total(recs.drop_last()) + unsigned_or_zero(recs.last().gold_change)
    }
}

/// The packs that the records add up to; a change that is no count adds nothing.
pub open spec fn pack_total(recs: Seq<GoldRecordView>) -> nat
    decreases recs.len(),
{
    if recs.len() == 0 {
        0
    } else {
        pack_total(recs.drop_last()) + unsigned_or_zero(recs.last().pack_change)
    }
}

/// The experience that the records add up to.
pub open spec fn exp_total(recs: Seq<ExpRecordView>) -> nat
    decreases recs.len(),
{
    if recs.len() == 0 {
        0
    } else {
        exp_total(recs.drop_last()) + unsigned_or_zero(recs.last().exp_change)
    }
}

/// The experience that the battles add up to.
pub open spec fn battle_exp_total(recs: Seq<BattleRecordView>) -> nat
    decreases recs.len(),
{
    if recs.len() == 0 {
        0
    } else {
        battle_exp_total(recs.drop_last()) + unsigned_or_zero(recs.last().exp)
    }
}

/// The battle was won: its result says so.
pub open spec fn is_win(rec: BattleRecordView) -> bool {
    contains_text(rec.result, "胜利"@)
}

/// The battle was lost: its result says so and does not speak of a win.
pub open spec fn is_loss(rec: BattleRecordView) -> bool {
    !is_win(rec) && contains_text(rec.result, "失败"@)
}

/// How many of the battles were won.
pub open spec fn win_count(recs: Seq<BattleRecordView>) -> nat
    decreases recs.len(),
{
    if recs.len() == 0 {
        0
    } else {
        win_count(recs.drop_last()) + if is_win(recs.last()) {
            1nat
        } else {
            0nat
        }
    }
}

/// How many of the battles were lost.
pub open spec fn loss_count(recs: Seq<BattleRecordView>) -> nat
    decreases recs.len(),
{
    if recs.len() == 0 {
        0
    } else {
        loss_count(recs.drop_last()) + if is_loss(recs.last()) {
            1nat
        } else {
            0nat
        }
    }
}

/// The share of wins among decided battles, in percent and rounded down;
/// 0 where no battle was decided.
pub open spec fn win_rate_of(wins: nat, losses: nat) -> nat {
    if wins + losses > 0 {
        wins * 100 / (wins + losses)
    } else {
        0
    }
}

/// The totals of gold and of packs over the records.
pub fn calculate_gold_totals(gold_records: &Vec<GoldRecord>) -> (totals: (u128, u128))
    ensures
        totals.0 == gold_total(gold_records.deep_view()),
        totals.1 == pack_total(gold_records.deep_view()),
{
    let mut total_gold: u128 = 0;
    let mut total_packs: u128 = 0;
    let mut i: usize = 0;
    while i < gold_records.len()
        invariant
            i <= gold_records.len(),
            total_gold == gold_total(gold_records.deep_view().take(i as int)),
            total_packs == pack_total(gold_records.deep_view().take(i as int)),
            total_gold <= i * 0xffff_ffff_ffff_ffff,
            total_packs <= i * 0xffff_ffff_ffff_ffff,
        decreases gold_records.len() - i,
    {
        proof {
            assert(gold_records.deep_view().take(i + 1).drop_last() =~= gold_records.deep_view().take(i as int));
        }
        total_gold = total_gold + parse_unsigned_int(gold_records[i].gold_change.as_str()) as u128;
        total_packs = total_packs + parse_unsigned_int(gold_records[i].pack_change.as_str()) as u128;
        i = i + 1;
    }
    proof {
        assert(gold_records.deep_view().take(i as int) =~= gold_records.deep_view());
    }
    (total_gold, total_packs)
}

/// The total of experience over the records.
pub fn calculate_exp_total(exp_records: &Vec<ExpRecord>) -> (total: u128)
    ensures
        total == exp_total(exp_records.deep_view()),
{
    let mut total: u128 = 0;
    let mut i: usize = 0;
    while i < exp_records.len()
        invariant
            i <= exp_records.len(),
            total == exp_total(exp_records.deep_view().take(i as int)),
            total <= i * 0xffff_ffff_ffff_ffff,
        decreases exp_records.len() - i,
    {
        proof {
            assert(exp_records.deep_view().take(i + 1).drop_last() =~= exp_records.deep_view().take(i as int));
        }
        total = total + parse_unsigned_int(exp_records[i].exp_change.as_str()) as u128;
        i = i + 1;
    }
    proof {
        assert(exp_records.deep_view().take(i as int) =~= exp_records.deep_view());
    }
    total
}

/// The wins, the losses and the total of experience over the battles.
pub fn calculate_battle_stats(battle_records: &Vec<BattleRecord>) -> (stats: (usize, usize, u128))
    ensures
        stats.0 == win_count(battle_records.deep_view()),
        stats.1 == loss_count(battle_records.deep_view()),
        stats.2 == battle_exp_total(battle_records.deep_view()),
{
    let mut wins: usize = 0;
    let mut losses: usize = 0;
    let mut total_exp: u128 = 0;
    let mut i: usize = 0;
    while i < battle_records.len()
        invariant
            i <= battle_records.len(),
            wins == win_count(battle_records.deep_view().take(i as int)),
            losses == loss_count(battle_records.deep_view().take(i as int)),
            total_exp == battle_exp_total(battle_records.deep_view().take(i as int)),
            wins + losses <= i,
            total_exp <= i * 0xffff_ffff_ffff_ffff,
        decreases battle_records.len() - i,
    {
        proof {
            assert(battle_records.deep_view().take(i + 1).drop_last() =~= battle_records.deep_view().take(i as int));
        }
        if text_contains(battle_records[i].result.as_str(), "胜利") {
            wins = wins + 1;
        } else if text_contains(battle_records[i].result.as_str(), "失败") {
            losses = losses + 1;
        }
        total_exp = total_exp + parse_unsigned_int(battle_records[i].exp.as_str()) as u128;
        i = i + 1;
    }
    proof {
        assert(battle_records.deep_view().take(i as int) =~= battle_records.deep_view());
    }
    (wins, losses, total_exp)
}

/// The share of wins among decided battles, in percent and rounded down.
pub fn win_rate(wins: usize, losses: usize) -> (rate: u8)
    ensures
        rate == win_rate_of(wins as nat, losses as nat),
{
    let total: u128 = wins as u128 + losses as u128;
    if total > 0 {
        let scaled: u128 = wins as u128 * 100;
        assert(scaled / total <= 100) by (nonlinear_arith)
            requires
                scaled == wins * 100,
                total == wins + losses,
                total > 0,
        ;
        (scaled / total) as u8
    } else {
        0
    }
}

/// A total with its sign spelled out.
pub fn format_total(total: u128) -> (text: String)
    ensures
        text@ == signed_decimal(total as int),
{
    if total == 0 {
        proof {
            reveal_strlit("0");
        }
        let text = String::from_str("0");
        assert(text@ =~= signed_decimal(0));
        text
    } else {
        proof {
            reveal_strlit("+");
        }
        let mut text = String::from_str("+");
        append_decimal(&mut text, total);
        assert(text@ =~= signed_decimal(total as int));
        text
    }
}

/// What is shown above the gold records.
#[derive(Debug)]
pub struct GoldStatistics {
    pub total_gold: String,
    pub total_packs: String,
}

/// What is shown above the battle records.
#[derive(Debug)]
pub struct BattleStatistics {
    pub wins: usize,
    pub losses: usize,
    pub win_rate: u8,
    pub total_exp: String,
}

/// The totals shown above the gold records; nothing where there is no record.
pub fn gold_statistics(gold_records: &Vec<GoldRecord>) -> (r: Option<GoldStatistics>)
    ensures
        match r {
            Some(s) => gold_records.len() > 0 && s.total_gold@ == signed_decimal(
                gold_total(gold_records.deep_view()) as int,
            ) && s.total_packs@ == signed_decimal(pack_total(gold_records.deep_view()) as int),
            None => gold_records.len() == 0,
        },
{
    if gold_records.len() == 0 {
        return None;
    }
    let (total_gold, total_packs) = calculate_gold_totals(gold_records);
    Some(
        GoldStatistics {
            total_gold: format_total(total_gold),
            total_packs: format_total(total_packs),
        },
    )
}

/// The total shown above the experience records; nothing where there is no record.
pub fn exp_statistics(exp_records: &Vec<ExpRecord>) -> (r: Option<String>)
    ensures
        match r {
            Some(total) => exp_records.len() > 0 && total@ == signed_decimal(
                exp_total(exp_records.deep_view()) as int,
            ),
            None => exp_records.len() == 0,
        },
{
    if exp_records.len() == 0 {
        return None;
    }
    Some(format_total(calculate_exp_total(exp_records)))
}

/// The counts shown above the battle records; nothing where there is no record.
pub fn battle_statistics(battle_records: &Vec<BattleRecord>) -> (r: Option<BattleStatistics>)
    ensures
        match r {
            Some(s) => {
                &&& battle_records.len() > 0
                &&& s.wins == win_count(battle_records.deep_view())
                &&& s.losses == loss_count(battle_records.deep_view())
                &&& s.win_rate == win_rate_of(s.wins as nat, s.losses as nat)
                &&& s.total_exp@ == signed_decimal(battle_exp_total(battle_records.deep_view()) as int)
            },
            None => battle_records.len() == 0,
        },
{
    if battle_records.len() == 0 {
        return None;
    }
    let (wins, losses, total_exp) = calculate_battle_stats(battle_records);
    Some(
        BattleStatistics {
            wins,
            losses,
            win_rate: win_rate(wins, losses),
            total_exp: format_total(total_exp),
        },
    )
}

/// How many records a table shows: all of them up to `table_size`, and
/// none where `table_size` is 0.
pub fn shown_records(len: usize, table_size: usize) -> (shown: usize)
    ensures
        shown == if len <= table_size {
            len
        } else {
            table_size
        },
{
    if len > table_size {
        table_size
    } else {
        len
    }
}

/// The heading of a table of `shown` records of the given kind.
pub fn table_title(shown: usize, record_type: &str) -> (title: String)
    ensures
        title@ == "最近 "@ + decimal(shown as nat) + " 条"@ + record_type@ + ":"@,
{
    let mut title = String::from_str("最近 ");
    append_decimal(&mut title, shown as u128);
    title.append(" 条");
    title.append(record_type);
    title.append(":");
    title
}

} // verus!
