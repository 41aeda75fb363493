//! Validation of command-line inputs, before any request is made.

use vstd::prelude::*;
use crate::constants::{
    MAX_HERO_MASK, MODE_BATTLEGROUNDS, MODE_CASUAL, MODE_STANDARD, MODE_TWIST, MODE_WILD,
};
use crate::heroes::{hero_index, hero_position};
use crate::utils::{
    all_digits, append_decimal, chars_of, decimal, is_digit, lowercase, parse_unsigned, text_eq,
    to_lowercase, unsigned_within,
};

verus! {

/// The message for an order id that is no number written in digits.
pub open spec fn order_id_error() -> Seq<char> {
    "订单号必须为纯数字"@
}

/// The message for a table size that is neither a number nor the word for all.
pub open spec fn table_size_error() -> Seq<char> {
    "游戏数据统计表格显示的最大记录条数必须为整数或ALL"@
}

/// The message for a password fragment of the wrong length.
pub open spec fn pwd4_error() -> Seq<char> {
    "战网密码前4位必须为4个字符"@
}

/// The message for a written hero mask outside `1..=MAX_HERO_MASK`.
pub open spec fn hero_mask_error(mask: nat) -> Seq<char> {
    "英雄掩码超出范围(1-"@ + decimal(MAX_HERO_MASK as nat) + "): "@ + decimal(mask)
}

/// The message for a hero name that is not in the table.
pub open spec fn hero_name_error(name: Seq<char>) -> Seq<char> {
    "未知英雄名称: "@ + name
}

/// What a table-size argument reads as, given its lowercase form: the word
/// for all lifts the limit, an unsigned number is taken as it is.
pub open spec fn table_size_reading(s: Seq<char>, lowered: Seq<char>) -> Result<nat, Seq<char>> {
    if lowered == "all"@ {
        Ok(usize::MAX as nat)
    } else {
        match unsigned_within(s, usize::MAX as nat) {
            Some(n) => Ok(n),
            None => Err(table_size_error()),
        }
    }
}

/// What a hero argument reads as, given its lowercase form: the input
/// itself where it is the word for all heroes, a mask in range or a known
/// name, and the reason for refusing it otherwise.
pub open spec fn hero_item_reading(s: Seq<char>, lowered: Seq<char>) -> Result<Seq<char>, Seq<char>> {
    if lowered == "all"@ || s == "全部"@ {
        Ok(s)
    } else {
        match unsigned_within(s, u32::MAX as nat) {
            Some(m) => if m > MAX_HERO_MASK || m == 0 {
                Err(hero_mask_error(m))
            } else {
                Ok(s)
            },
            None => if hero_position(s) is Some {
                Ok(s)
            } else {
                Err(hero_name_error(s))
            },
        }
    }
}

/// The characters of a result's text, on either side.
pub open spec fn text_result(r: Result<String, String>) -> Result<Seq<char>, Seq<char>> {
    match r {
        Ok(t) => Ok(t@),
        Err(e) => Err(e@),
    }
}

/// Accepts an order id: one digit or more, and nothing but digits.
pub fn parse_order_id(s: &str) -> (r: Result<String, String>)
    ensures
        text_result(r) == if s@.len() > 0 && all_digits(s@) {
            Ok::<Seq<char>, Seq<char>>(s@)
        } else {
            Err(order_id_error())
        },
{
    let chars = chars_of(s);
    if chars.len() == 0 {
        return Err(String::from_str("订单号必须为纯数字"));
    }
    let mut i: usize = 0;
    while i < chars.len()
        invariant
            i <= chars.len(),
            chars@ == s@,
            forall|j: int| 0 <= j < i ==> is_digit(#[trigger] chars@[j]),
        decreases chars.len() - i,
    {
        let c = chars[i];
        if !(c >= '0' && c <= '9') {
            return Err(String::from_str("订单号必须为纯数字"));
        }
        i = i + 1;
    }
    Ok(String::from_str(s))
}

/// Reads a table size whose lowercase form is given beside it.
pub fn table_size_from(s: &str, lowered: &str) -> (r: Result<usize, String>)
    ensures
        match r {
            Ok(n) => table_size_reading(s@, lowered@) == Ok::<nat, Seq<char>>(n as nat),
            Err(e) => table_size_reading(s@, lowered@) == Err::<nat, Seq<char>>(e@),
        },
{
    if text_eq(lowered, "all") {
        Ok(usize::MAX)
    } else {
        match parse_unsigned(s, usize::MAX as u64) {
            Some(n) => Ok(n as usize),
            None => Err(String::from_str("游戏数据统计表格显示的最大记录条数必须为整数或ALL")),
        }
    }
}

/// Reads the largest number of records a table shows: an unsigned number, or
/// the word for all in any letter case, which lifts the limit.
pub fn parse_table_size(s: &str) -> (r: Result<usize, String>)
    ensures
        match r {
            Ok(n) => table_size_reading(s@, lowercase(s@)) == Ok::<nat, Seq<char>>(n as nat),
            Err(e) => table_size_reading(s@, lowercase(s@)) == Err::<nat, Seq<char>>(e@),
        },
{
    let lowered = to_lowercase(s);
    table_size_from(s, lowered.as_str())
}

/// Accepts a password fragment of exactly four characters.
pub fn parse_pwd4(s: &str) -> (r: Result<String, String>)
    ensures
        text_result(r) == if s@.len() == 4 {
            Ok::<Seq<char>, Seq<char>>(s@)
        } else {
            Err(pwd4_error())
        },
{
    if s.unicode_len() == 4 {
        Ok(String::from_str(s))
    } else {
        Err(String::from_str("战网密码前4位必须为4个字符"))
    }
}

/// Checks a hero argument whose lowercase form is given beside it.
pub fn hero_item_from(s: &str, lowered: &str) -> (r: Result<String, String>)
    ensures
        text_result(r) == hero_item_reading(s@, lowered@),
{
    if text_eq(lowered, "all") || text_eq(s, "全部") {
        return Ok(String::from_str(s));
    }
    match parse_unsigned(s, 0xffff_ffff) {
        Some(m) => {
            if m > MAX_HERO_MASK as u64 || m == 0 {
                let mut e = String::from_str("英雄掩码超出范围(1-");
                append_decimal(&mut e, MAX_HERO_MASK as u128);
                e.append("): ");
                append_decimal(&mut e, m as u128);
                Err(e)
            } else {
                Ok(String::from_str(s))
            }
        },
        None => {
            match hero_index(s) {
                Some(_) => Ok(String::from_str(s)),
                None => {
                    let mut e = String::from_str("未知英雄名称: ");
                    e.append(s);
                    Err(e)
                },
            }
        },
    }
}

/// Checks one hero argument: the word for all heroes, a written mask from 1
/// to the full mask, or the exact name of a hero.
pub fn parse_hero_item(s: &str) -> (r: Result<String, String>)
    ensures
        text_result(r) == hero_item_reading(s@, lowercase(s@)),
{
    let lowered = to_lowercase(s);
    hero_item_from(s, lowered.as_str())
}

/// A battle mode that an order can be set to.
#[derive(Clone, Copy, Debug, PartialEq, Eq)]
pub enum BattleMode {
    Casual,
    Standard,
    Wild,
    Twist,
    Battlegrounds,
}

/// The mode that an argument names, by its English name, its code, its
/// initial or its Chinese name.
pub open spec fn mode_of_word(s: Seq<char>) -> Option<BattleMode> {
    if s == "casual"@ || s == "1"@ || s == "c"@ || s == "休闲"@ {
        Some(BattleMode::Casual)
    } else if s == "standard"@ || s == "2"@ || s == "s"@ || s == "标准"@ {
        Some(BattleMode::Standard)
    } else if s == "wild"@ || s == "3"@ || s == "w"@ || s == "狂野"@ {
        Some(BattleMode::Wild)
    } else if s == "twist"@ || s == "4"@ || s == "t"@ || s == "幻变"@ {
        Some(BattleMode::Twist)
    } else if s == "battlegrounds"@ || s == "5"@ || s == "b"@ || s == "酒馆"@ || s == "战棋"@ || s
        == "酒馆战棋"@ {
        Some(BattleMode::Battlegrounds)
    } else {
        None
    }
}

impl BattleMode {
    /// The code that the service knows the mode by.
    pub open spec fn code_text(self) -> Seq<char> {
        match self {
            BattleMode::Casual => MODE_CASUAL@,
            BattleMode::Standard => MODE_STANDARD@,
            BattleMode::Wild => MODE_WILD@,
            BattleMode::Twist => MODE_TWIST@,
            BattleMode::Battlegrounds => MODE_BATTLEGROUNDS@,
        }
    }

    /// The name that the mode is shown under.
    pub open spec fn name_text(self) -> Seq<char> {
        match self {
            BattleMode::Casual => "休闲模式"@,
            BattleMode::Standard => "标准模式"@,
            BattleMode::Wild => "狂野模式"@,
            BattleMode::Twist => "幻变模式"@,
            BattleMode::Battlegrounds => "酒馆战棋"@,
        }
    }

    /// The code that the service knows the mode by.
    pub fn code(self) -> (text: &'static str)
        ensures
            text@ == self.code_text(),
    {
        match self {
            BattleMode::Casual => MODE_CASUAL,
            BattleMode::Standard => MODE_STANDARD,
            BattleMode::Wild => MODE_WILD,
            BattleMode::Twist => MODE_TWIST,
            BattleMode::Battlegrounds => MODE_BATTLEGROUNDS,
        }
    }

    /// The name that the mode is shown under.
    pub fn display_name(self) -> (text: &'static str)
        ensures
            text@ == self.name_text(),
    {
        match self {
            BattleMode::Casual => "休闲模式",
            BattleMode::Standard => "标准模式",
            BattleMode::Wild => "狂野模式",
            BattleMode::Twist => "幻变模式",
            BattleMode::Battlegrounds => "酒馆战棋",
        }
    }

    /// Reads a mode argument; the match is exact.
    pub fn from_word(s: &str) -> (mode: Option<BattleMode>)
        ensures
            mode == mode_of_word(s@),
    {
        if text_eq(s, "casual") || text_eq(s, "1") || text_eq(s, "c") || text_eq(s, "休闲") {
            Some(BattleMode::Casual)
        } else if text_eq(s, "standard") || text_eq(s, "2") || text_eq(s, "s") || text_eq(s, "标准") {
            Some(BattleMode::Standard)
        } else if text_eq(s, "wild") || text_eq(s, "3") || text_eq(s, "w") || text_eq(s, "狂野") {
            Some(BattleMode::Wild)
        } else if text_eq(s, "twist") || text_eq(s, "4") || text_eq(s, "t") || text_eq(s, "幻变") {
            Some(BattleMode::Twist)
        } else if text_eq(s, "battlegrounds") || text_eq(s, "5") || text_eq(s, "b") || text_eq(
            s,
            "酒馆",
        ) || text_eq(s, "战棋") || text_eq(s, "酒馆战棋") {
            Some(BattleMode::Battlegrounds)
        } else {
            None
        }
    }
}

/// Whether rewards are claimed automatically.
#[derive(Clone, Copy, Debug, PartialEq, Eq)]
pub enum AutoClaim {
    On,
    Off,
}

/// The setting that an argument names.
pub open spec fn auto_of_word(s: Seq<char>) -> Option<AutoClaim> {
    if s == "on"@ || s == "1"@ || s == "true"@ {
        Some(AutoClaim::On)
    } else if s == "off"@ || s == "0"@ || s == "false"@ {
        Some(AutoClaim::Off)
    } else {
        None
    }
}

impl AutoClaim {
    /// The code that the service knows the setting by.
    pub open spec fn code_text(self) -> Seq<char> {
        match self {
            AutoClaim::On => "1"@,
            AutoClaim::Off => "0"@,
        }
    }

    /// The word that the setting is shown under.
    pub open spec fn name_text(self) -> Seq<char> {
        match self {
            AutoClaim::On => "开启"@,
            AutoClaim::Off => "关闭"@,
        }
    }

    /// The code that the service knows the setting by.
    pub fn code(self) -> (text: &'static str)
        ensures
            text@ == self.code_text(),
    {
        match self {
            AutoClaim::On => "1",
            AutoClaim::Off => "0",
        }
    }

    /// The word that the setting is shown under.
    pub fn display_name(self) -> (text: &'static str)
        ensures
            text@ == self.name_text(),
    {
        match self {
            AutoClaim::On => "开启",
            AutoClaim::Off => "关闭",
        }
    }

    /// Reads an auto-claim argument; the match is exact.
    pub fn from_word(s: &str) -> (setting: Option<AutoClaim>)
        ensures
            setting == auto_of_word(s@),
    {
        if text_eq(s, "on") || text_eq(s, "1") || text_eq(s, "true") {
            Some(AutoClaim::On)
        } else if text_eq(s, "off") || text_eq(s, "0") || text_eq(s, "false") {
            Some(AutoClaim::Off)
        } else {
            None
        }
    }
}

/// Decides where the internal order identifier comes from: with
/// `skip_query` the given id is the identifier; without it the order has to
/// be fetched first, and `None` says so.
pub fn resolve_oid(order_id: &str, skip_query: bool) -> (oid: Option<String>)
    ensures
        oid.deep_view() == if skip_query {
            Some(order_id@)
        } else {
            None::<Seq<char>>
        },
{
    if skip_query {
        Some(String::from_str(order_id))
    } else {
        None
    }
}

} // verus!
