//! Decoding of the statistics array: a list of at least thirteen values
//! whose meaning is given by position.

use vstd::prelude::*;
use crate::constants::{
    BASIC_INFO_SIZE, BATTLE_LOSS, BATTLE_RECORDS_INDEX, BATTLE_UNKNOWN, BATTLE_WIN, DATE_INDEX,
    DAY_FORMAT, DAY_ZONE, EXP_RECORDS_INDEX, GOLD_RECORDS_INDEX, LOSSES_INDEX, WINS_INDEX,
};
use crate::heroes::{mask_hero_names, mask_names, text_mask};
use crate::json::{
    json_array_from_str, json_array_of_text, json_error_text, models, Json, JsonModel,
};
use crate::models::{
    BattleRecord, BattleRecordView, DlData, DlDataView, ExpRecord, ExpRecordView, GoldRecord,
    GoldRecordView,
};
use crate::utils::{
    append_integer, clock_shaped, format_signed, format_timestamp, in_chrono_range, integer_text,
    invalid_time, local_rendering, parse_unsigned, plain_decimal, signed_decimal, text_eq,
    today_in_zone, unknown_time,
};

verus! {

/// Why statistics could not be decoded.
#[derive(Debug)]
pub enum ParseError {
    /// The text is not a JSON array; the parser's own message is kept.
    Format(String),
    /// The array has fewer than thirteen elements.
    Incomplete,
}

impl ParseError {
    /// What the error is reported as.
    pub open spec fn message_text(self) -> Seq<char> {
        match self {
            ParseError::Format(detail) => "dldata格式不正确 "@ + detail@,
            ParseError::Incomplete => "dldata数据不完整"@,
        }
    }

    /// What the error is reported as.
    pub fn message(&self) -> (text: String)
        ensures
            text@ == self.message_text(),
    {
        match self {
            ParseError::Format(detail) => {
                let mut text = String::from_str("dldata格式不正确 ");
                text.append(detail.as_str());
                text
            },
            ParseError::Incomplete => String::from_str("dldata数据不完整"),
        }
    }
}

/// The cells of a row: the elements of an array of at least `arity`
/// elements. Anything else is no row.
pub open spec fn row_cells(row: JsonModel, arity: nat) -> Option<Seq<JsonModel>> {
    match row {
        JsonModel::Array(cells) => if cells.len() >= arity {
            Some(cells)
        } else {
            None
        },
        _ => None,
    }
}

/// The rows among `items`, in order; what is no row is left out.
pub open spec fn kept_rows(items: Seq<JsonModel>, arity: nat) -> Seq<Seq<JsonModel>>
    decreases items.len(),
{
    if items.len() == 0 {
        Seq::empty()
    } else {
        match row_cells(items.last(), arity) {
            Some(cells) => kept_rows(items.drop_last(), arity).push(cells),
            None => kept_rows(items.drop_last(), arity),
        }
    }
}

/// The rows of a list of records; a value that is no array holds none.
pub open spec fn record_rows(list: JsonModel, arity: nat) -> Seq<Seq<JsonModel>> {
    match list {
        JsonModel::Array(items) => kept_rows(items, arity),
        _ => Seq::empty(),
    }
}

/// The rows of the list of records that stands at `index` of the array; an
/// array that ends before it holds none.
pub open spec fn list_rows(arr: Seq<JsonModel>, index: int, arity: nat) -> Seq<Seq<JsonModel>> {
    if 0 <= index < arr.len() {
        record_rows(arr[index], arity)
    } else {
        Seq::empty()
    }
}

/// A cell read as a timestamp: 0 where it is no integer.
pub open spec fn stamp_cell(cell: JsonModel) -> i64 {
    match cell.as_i64() {
        Some(n) => n,
        None => 0,
    }
}

/// A cell shown as a change: signed, and `0` where it is no integer.
pub open spec fn signed_cell(cell: JsonModel) -> Seq<char> {
    match cell.as_i64() {
        Some(n) => signed_decimal(n as int),
        None => seq!['0'],
    }
}

/// A cell shown as a plain number: `0` where it is no integer.
pub open spec fn plain_cell(cell: JsonModel) -> Seq<char> {
    match cell.as_i64() {
        Some(n) => plain_decimal(n as int),
        None => seq!['0'],
    }
}

/// `text` is what is shown for the timestamp `stamp`: unknown for 0,
/// invalid for a timestamp that has no date, and for any other the date and
/// time of that very timestamp at some offset from UTC; which offset is for
/// the time zone of the machine to say.
pub open spec fn time_shown(stamp: i64, text: Seq<char>) -> bool {
    if stamp == 0 {
        text == unknown_time()
    } else if !in_chrono_range(stamp) {
        text == invalid_time()
    } else {
        clock_shaped(text) && local_rendering(stamp, text)
    }
}

/// How the result of a battle is shown.
pub open spec fn battle_result_label(code: i64) -> Seq<char> {
    if code == BATTLE_WIN {
        "胜利"@
    } else if code == BATTLE_LOSS {
        "失败"@
    } else if code == BATTLE_UNKNOWN {
        "未知"@
    } else {
        "未知 "@ + plain_decimal(code as int)
    }
}

/// `rec` is the gold row `cells` with its time shown as `time`.
pub open spec fn gold_record_of(rec: GoldRecordView, cells: Seq<JsonModel>, time: Seq<char>) -> bool {
    rec == (GoldRecordView {
        time,
        gold_change: signed_cell(cells[1]),
        pack_change: signed_cell(cells[2]),
    })
}

/// `rec` is the experience row `cells` with its time shown as `time`.
pub open spec fn exp_record_of(rec: ExpRecordView, cells: Seq<JsonModel>, time: Seq<char>) -> bool {
    rec == (ExpRecordView {
        time,
        exp_change: signed_cell(cells[1]),
        level: plain_cell(cells[2]),
        total_exp: plain_cell(cells[3]),
        current_level_exp: plain_cell(cells[4]),
    })
}

/// `rec` is the battle row `cells` with its time shown as `time`.
pub open spec fn battle_record_of(rec: BattleRecordView, cells: Seq<JsonModel>, time: Seq<char>) -> bool {
    rec == (BattleRecordView {
        time,
        result: battle_result_label(stamp_cell(cells[1])),
        exp: signed_cell(cells[2]),
    })
}

/// `rec` decodes the gold row `cells`: `[timestamp, gold, packs]`.
pub open spec fn is_gold_record(rec: GoldRecordView, cells: Seq<JsonModel>) -> bool {
    gold_record_of(rec, cells, rec.time) && time_shown(stamp_cell(cells[0]), rec.time)
}

/// `rec` decodes the experience row `cells`:
/// `[timestamp, gain, level, total, within level]`.
pub open spec fn is_exp_record(rec: ExpRecordView, cells: Seq<JsonModel>) -> bool {
    exp_record_of(rec, cells, rec.time) && time_shown(stamp_cell(cells[0]), rec.time)
}

/// `rec` decodes the battle row `cells`: `[_, result, gain, timestamp]`; the
/// time of a battle is its fourth cell.
pub open spec fn is_battle_record(rec: BattleRecordView, cells: Seq<JsonModel>) -> bool {
    battle_record_of(rec, cells, rec.time) && time_shown(stamp_cell(cells[3]), rec.time)
}

/// The records decode the rows, one for one and in order.
pub open spec fn gold_records_match(recs: Seq<GoldRecordView>, rows: Seq<Seq<JsonModel>>) -> bool {
    &&& recs.len() == rows.len()
    &&& forall|i: int| 0 <= i < recs.len() ==> is_gold_record(#[trigger] recs[i], rows[i])
}

/// The records decode the rows, one for one and in order.
pub open spec fn exp_records_match(recs: Seq<ExpRecordView>, rows: Seq<Seq<JsonModel>>) -> bool {
    &&& recs.len() == rows.len()
    &&& forall|i: int| 0 <= i < recs.len() ==> is_exp_record(#[trigger] recs[i], rows[i])
}

/// The records decode the rows, one for one and in order.
pub open spec fn battle_records_match(recs: Seq<BattleRecordView>, rows: Seq<Seq<JsonModel>>) -> bool {
    &&& recs.len() == rows.len()
    &&& forall|i: int| 0 <= i < recs.len() ==> is_battle_record(#[trigger] recs[i], rows[i])
}

/// The day that a value names: a string as it is, an integer in decimal.
pub open spec fn date_text(value: JsonModel) -> Option<Seq<char>> {
    match value {
        JsonModel::Text(text) => Some(text),
        JsonModel::Number(Some(n), _) => Some(plain_decimal(n as int)),
        _ => None,
    }
}

/// A value read as a count of battles: 0 where it is no integer, and 0 for
/// a negative one.
pub open spec fn count_cell(value: JsonModel) -> nat {
    match value.as_i64() {
        Some(n) => if n >= 0 {
            n as nat
        } else {
            0
        },
        None => 0,
    }
}

/// The count at position `i`, 0 where the array ends before it.
pub open spec fn count_at(arr: Seq<JsonModel>, i: int) -> nat {
    if 0 <= i < arr.len() {
        count_cell(arr[i])
    } else {
        0
    }
}

/// The battles of today: wins plus losses where the array's day is
/// `today`, and 0 on any other day.
pub open spec fn today_battles(arr: Seq<JsonModel>, today: Seq<char>) -> nat {
    if DATE_INDEX < arr.len() && date_text(arr[DATE_INDEX as int]) == Some(today) {
        count_at(arr, WINS_INDEX as int) + count_at(arr, LOSSES_INDEX as int)
    } else {
        0
    }
}

/// `data` decodes the array `arr` in all that does not depend on the day.
pub open spec fn dldata_decodes(data: DlDataView, arr: Seq<JsonModel>) -> bool {
    &&& data.basic_info == arr.take(BASIC_INFO_SIZE as int)
    &&& gold_records_match(data.gold_records, list_rows(arr, GOLD_RECORDS_INDEX as int, 3))
    &&& exp_records_match(data.exp_records, list_rows(arr, EXP_RECORDS_INDEX as int, 5))
    &&& battle_records_match(data.battle_records, list_rows(arr, BATTLE_RECORDS_INDEX as int, 4))
}

/// What decoding the array `arr` on the day `today` gives: an error for an
/// array of fewer than thirteen elements, the decoded statistics otherwise.
pub open spec fn decoding_of(r: Result<DlData, ParseError>, arr: Seq<JsonModel>, today: Seq<char>) -> bool {
    if arr.len() < 13 {
        r matches Err(ParseError::Incomplete)
    } else {
        r matches Ok(data) && dldata_decodes(data@, arr) && data@.today_battles == today_battles(
            arr,
            today,
        )
    }
}

/// What decoding the array `arr` gives when the day is not known.
pub open spec fn decoding_on_some_day(r: Result<DlData, ParseError>, arr: Seq<JsonModel>) -> bool {
    exists|today: Seq<char>| #[trigger] decoding_of(r, arr, today)
}

proof fn lemma_kept_rows_step(items: Seq<JsonModel>, i: int, arity: nat)
    requires
        0 <= i < items.len(),
    ensures
        kept_rows(items.take(i + 1), arity) == match row_cells(items[i], arity) {
            Some(cells) => kept_rows(items.take(i), arity).push(cells),
            None => kept_rows(items.take(i), arity),
        },
{
    assert(items.take(i + 1).drop_last() =~= items.take(i));
    assert(items.take(i + 1).last() == items[i]);
}

/// A row with fewer cells than its kind needs, or a value that is no array,
/// is dropped: the list decodes as if it were not there.
pub proof fn lemma_short_row_dropped(items: Seq<JsonModel>, i: int, arity: nat)
    requires
        0 <= i < items.len(),
        row_cells(items[i], arity) is None,
    ensures
        kept_rows(items, arity) == kept_rows(items.remove(i), arity),
    decreases items.len(),
{
    if i == items.len() - 1 {
        assert(items.remove(i) =~= items.drop_last());
    } else {
        lemma_short_row_dropped(items.drop_last(), i, arity);
        assert(items.remove(i).drop_last() =~= items.drop_last().remove(i));
        assert(items.remove(i).last() == items.last());
    }
}

/// The cells of a row of at least `arity` cells.
fn cells_of(record: &Json, arity: usize) -> (cells: Option<&Vec<Json>>)
    ensures
        match cells {
            Some(v) => row_cells(record@, arity as nat) == Some(models(v@)) && v.len() >= arity,
            None => row_cells(record@, arity as nat) is None,
        },
{
    match record.as_array() {
        Some(cells) => if cells.len() >= arity {
            Some(cells)
        } else {
            None
        },
        None => None,
    }
}

fn stamp_of(cell: &Json) -> (stamp: i64)
    ensures
        stamp == stamp_cell(cell@),
{
    match cell.as_i64() {
        Some(n) => n,
        None => 0,
    }
}

fn signed_text(cell: &Json) -> (text: String)
    ensures
        text@ == signed_cell(cell@),
{
    match cell.as_i64() {
        Some(n) => format_signed(n as i128),
        None => {
            proof {
                reveal_strlit("0");
            }
            let text = String::from_str("0");
            assert(text@ =~= seq!['0']);
            text
        },
    }
}

fn plain_text(cell: &Json) -> (text: String)
    ensures
        text@ == plain_cell(cell@),
{
    match cell.as_i64() {
        Some(n) => integer_text(n as i128),
        None => {
            proof {
                reveal_strlit("0");
            }
            let text = String::from_str("0");
            assert(text@ =~= seq!['0']);
            text
        },
    }
}

/// How the result of a battle is shown: a win for 1, a loss for -1, unknown
/// for 0, and unknown followed by the code for any other code.
pub fn get_battle_result_text(result_code: i64) -> (text: String)
    ensures
        text@ == battle_result_label(result_code),
{
    if result_code == BATTLE_WIN {
        String::from_str("胜利")
    } else if result_code == BATTLE_LOSS {
        String::from_str("失败")
    } else if result_code == BATTLE_UNKNOWN {
        String::from_str("未知")
    } else {
        let mut text = String::from_str("未知 ");
        append_integer(&mut text, result_code as i128);
        text
    }
}

/// Decodes a gold row whose time has been rendered as `time`.
pub fn gold_record_at(record: &Json, time: String) -> (r: Option<GoldRecord>)
    ensures
        match r {
            Some(rec) => row_cells(record@, 3) matches Some(cells) && gold_record_of(
                rec@,
                cells,
                time@,
            ),
            None => row_cells(record@, 3) is None,
        },
{
    match cells_of(record, 3) {
        Some(cells) => Some(
            GoldRecord {
                time,
                gold_change: signed_text(&cells[1]),
                pack_change: signed_text(&cells[2]),
            },
        ),
        None => None,
    }
}

/// Decodes an experience row whose time has been rendered as `time`.
pub fn exp_record_at(record: &Json, time: String) -> (r: Option<ExpRecord>)
    ensures
        match r {
            Some(rec) => row_cells(record@, 5) matches Some(cells) && exp_record_of(
                rec@,
                cells,
                time@,
            ),
            None => row_cells(record@, 5) is None,
        },
{
    match cells_of(record, 5) {
        Some(cells) => Some(
            ExpRecord {
                time,
                exp_change: signed_text(&cells[1]),
                level: plain_text(&cells[2]),
                total_exp: plain_text(&cells[3]),
                current_level_exp: plain_text(&cells[4]),
            },
        ),
        None => None,
    }
}

/// Decodes a battle row whose time has been rendered as `time`.
pub fn battle_record_at(record: &Json, time: String) -> (r: Option<BattleRecord>)
    ensures
        match r {
            Some(rec) => row_cells(record@, 4) matches Some(cells) && battle_record_of(
                rec@,
                cells,
                time@,
            ),
            None => row_cells(record@, 4) is None,
        },
{
    match cells_of(record, 4) {
        Some(cells) => Some(
            BattleRecord {
                time,
                result: get_battle_result_text(stamp_of(&cells[1])),
                exp: signed_text(&cells[2]),
            },
        ),
        None => None,
    }
}

/// Decodes one gold row, `[timestamp, gold, packs]`; a value that is no
/// array of at least three cells gives nothing.
pub fn parse_single_gold_record(record: &Json) -> (r: Option<GoldRecord>)
    ensures
        match r {
            Some(rec) => row_cells(record@, 3) matches Some(cells) && is_gold_record(rec@, cells),
            None => row_cells(record@, 3) is None,
        },
{
    match cells_of(record, 3) {
        Some(cells) => gold_record_at(record, format_timestamp(stamp_of(&cells[0]))),
        None => None,
    }
}

/// Decodes one experience row, `[timestamp, gain, level, total, within
/// level]`; a value that is no array of at least five cells gives nothing.
pub fn parse_single_exp_record(record: &Json) -> (r: Option<ExpRecord>)
    ensures
        match r {
            Some(rec) => row_cells(record@, 5) matches Some(cells) && is_exp_record(rec@, cells),
            None => row_cells(record@, 5) is None,
        },
{
    match cells_of(record, 5) {
        Some(cells) => exp_record_at(record, format_timestamp(stamp_of(&cells[0]))),
        None => None,
    }
}

/// Decodes one battle row, `[_, result, gain, timestamp]`; a value that is
/// no array of at least four cells gives nothing.
pub fn parse_single_battle_record(record: &Json) -> (r: Option<BattleRecord>)
    ensures
        match r {
            Some(rec) => row_cells(record@, 4) matches Some(cells) && is_battle_record(rec@, cells),
            None => row_cells(record@, 4) is None,
        },
{
    match cells_of(record, 4) {
        Some(cells) => battle_record_at(record, format_timestamp(stamp_of(&cells[3]))),
        None => None,
    }
}

/// Decodes the gold records, the eleventh element of the array. Rows
/// that are too short are dropped; a value that is no array holds no
/// record, and neither does an array that ends before the list.
pub fn parse_gold_records(arr: &Vec<Json>) -> (recs: Vec<GoldRecord>)
    ensures
        gold_records_match(recs.deep_view(), list_rows(models(arr@), GOLD_RECORDS_INDEX as int, 3)),
{
    let mut recs: Vec<GoldRecord> = Vec::new();
    if arr.len() <= GOLD_RECORDS_INDEX {
        return recs;
    }
    match arr[GOLD_RECORDS_INDEX].as_array() {
        Some(items) => {
            let ghost all = models(items@);
            let mut i: usize = 0;
            assert(all.take(0) =~= Seq::<JsonModel>::empty());
            while i < items.len()
                invariant
                    i <= items.len(),
                    all == models(items@),
                    gold_records_match(recs.deep_view(), kept_rows(all.take(i as int), 3)),
                decreases items.len() - i,
            {
                proof {
                    lemma_kept_rows_step(all, i as int, 3);
                }
                match parse_single_gold_record(&items[i]) {
                    Some(rec) => {
                        let ghost before = recs.deep_view();
                        let ghost added = rec@;
                        recs.push(rec);
                        assert(recs.deep_view() =~= before.push(added));
                    },
                    None => {},
                }
                i = i + 1;
            }
            proof {
                assert(all.take(i as int) =~= all);
            }
        },
        None => {},
    }
    recs
}

/// Decodes the experience records, the twelfth element of the array. Rows
/// that are too short are dropped; a value that is no array holds no
/// record, and neither does an array that ends before the list.
pub fn parse_exp_records(arr: &Vec<Json>) -> (recs: Vec<ExpRecord>)
    ensures
        exp_records_match(recs.deep_view(), list_rows(models(arr@), EXP_RECORDS_INDEX as int, 5)),
{
    let mut recs: Vec<ExpRecord> = Vec::new();
    if arr.len() <= EXP_RECORDS_INDEX {
        return recs;
    }
    match arr[EXP_RECORDS_INDEX].as_array() {
        Some(items) => {
            let ghost all = models(items@);
            let mut i: usize = 0;
            assert(all.take(0) =~= Seq::<JsonModel>::empty());
            while i < items.len()
                invariant
                    i <= items.len(),
                    all == models(items@),
                    exp_records_match(recs.deep_view(), kept_rows(all.take(i as int), 5)),
                decreases items.len() - i,
            {
                proof {
                    lemma_kept_rows_step(all, i as int, 5);
                }
                match parse_single_exp_record(&items[i]) {
                    Some(rec) => {
                        let ghost before = recs.deep_view();
                        let ghost added = rec@;
                        recs.push(rec);
                        assert(recs.deep_view() =~= before.push(added));
                    },
                    None => {},
                }
                i = i + 1;
            }
            proof {
                assert(all.take(i as int) =~= all);
            }
        },
        None => {},
    }
    recs
}

/// Decodes the battle records, the thirteenth element of the array. Rows
/// that are too short are dropped; a value that is no array holds no
/// record, and neither does an array that ends before the list.
pub fn parse_battle_records(arr: &Vec<Json>) -> (recs: Vec<BattleRecord>)
    ensures
        battle_records_match(recs.deep_view(), list_rows(models(arr@), BATTLE_RECORDS_INDEX as int, 4)),
{
    let mut recs: Vec<BattleRecord> = Vec::new();
    if arr.len() <= BATTLE_RECORDS_INDEX {
        return recs;
    }
    match arr[BATTLE_RECORDS_INDEX].as_array() {
        Some(items) => {
            let ghost all = models(items@);
            let mut i: usize = 0;
            assert(all.take(0) =~= Seq::<JsonModel>::empty());
            while i < items.len()
                invariant
                    i <= items.len(),
                    all == models(items@),
                    battle_records_match(recs.deep_view(), kept_rows(all.take(i as int), 4)),
                decreases items.len() - i,
            {
                proof {
                    lemma_kept_rows_step(all, i as int, 4);
                }
                match parse_single_battle_record(&items[i]) {
                    Some(rec) => {
                        let ghost before = recs.deep_view();
                        let ghost added = rec@;
                        recs.push(rec);
                        assert(recs.deep_view() =~= before.push(added));
                    },
                    None => {},
                }
                i = i + 1;
            }
            proof {
                assert(all.take(i as int) =~= all);
            }
        },
        None => {},
    }
    recs
}

fn count_of(arr: &Vec<Json>, i: usize) -> (n: u64)
    ensures
        n == count_at(models(arr@), i as int),
        n <= i64::MAX,
{
    if i < arr.len() {
        match arr[i].as_i64() {
            Some(n) => if n >= 0 {
                n as u64
            } else {
                0
            },
            None => 0,
        }
    } else {
        0
    }
}

/// The battles of today: the array's wins plus its losses where its day is
/// `today`, and 0 on any other day. The day is the fourth element, a string
/// or an integer; wins and losses are the fifth and sixth.
pub fn calculate_today_battles(arr: &Vec<Json>, today: &str) -> (battles: u64)
    ensures
        battles == today_battles(models(arr@), today@),
{
    if DATE_INDEX >= arr.len() {
        return 0;
    }
    let same_day = match &arr[DATE_INDEX] {
        Json::Text(text) => text_eq(text.as_str(), today),
        Json::Number(Some(n), _) => {
            let text = integer_text(*n as i128);
            text_eq(text.as_str(), today)
        },
        _ => false,
    };
    if !same_day {
        return 0;
    }
    count_of(arr, WINS_INDEX) + count_of(arr, LOSSES_INDEX)
}

/// Decodes the statistics array on the day `today`.
pub fn decode_dldata(arr: Vec<Json>, today: &str) -> (r: Result<DlData, ParseError>)
    ensures
        decoding_of(r, models(arr@), today@),
{
    if arr.len() < 13 {
        return Err(ParseError::Incomplete);
    }
    let today_battles = calculate_today_battles(&arr, today);
    let gold_records = parse_gold_records(&arr);
    let exp_records = parse_exp_records(&arr);
    let battle_records = parse_battle_records(&arr);
    let mut basic_info = arr;
    basic_info.truncate(BASIC_INFO_SIZE);
    proof {
        assert(models(basic_info@) =~= models(arr@).take(BASIC_INFO_SIZE as int));
    }
    Ok(DlData { basic_info, gold_records, exp_records, battle_records, today_battles })
}

/// Decodes the statistics of an order from their JSON text, with today's
/// date in Asia/Shanghai for the count of today's battles. A text that is
/// no JSON array, or an array of fewer than thirteen elements, is refused.
pub fn parse_dldata(dldata_str: &str) -> (r: Result<DlData, ParseError>)
    ensures
        match json_array_of_text(dldata_str@) {
            Some(arr) => decoding_on_some_day(r, arr),
            None => r matches Err(ParseError::Format(_)),
        },
{
    match json_array_from_str(dldata_str) {
        Ok(arr) => {
            let ghost content = models(arr@);
            let today = today_in_zone(DAY_ZONE, DAY_FORMAT);
            let r = decode_dldata(arr, today.as_str());
            assert(decoding_of(r, content, today@));
            r
        },
        Err(e) => Err(ParseError::Format(json_error_text(&e))),
    }
}

/// The names of the heroes that a written mask allows, in table order. A
/// text that is no mask allows none.
pub fn parse_battle_heroes(battleheroes: &str) -> (names: Vec<String>)
    ensures
        names.deep_view() == mask_names(text_mask(battleheroes@)),
{
    let mask: u32 = match parse_unsigned(battleheroes, 0xffff_ffff) {
        Some(m) => m as u32,
        None => 0,
    };
    mask_hero_names(mask)
}

} // verus!
