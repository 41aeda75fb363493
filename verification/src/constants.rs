//! The fixed values of the service and of the statistics layout.

use vstd::prelude::*;

verus! {

/// The address that every request goes to.
pub const API_URL: &'static str = "http://139.155.71.163:1000/training/hs.php";

/// The `Host` header.
pub const HEADER_HOST: &'static str = "139.155.71.163:1000";

/// The `Origin` header.
pub const HEADER_ORIGIN: &'static str = "http://139.155.71.163:1000";

/// Seconds allowed for establishing a connection.
pub const CONNECT_TIMEOUT_SECS: u64 = 3;

/// Seconds allowed for a whole request.
pub const TIMEOUT_SECS: u64 = 5;

/// The user agents that a client may present itself as.
pub const UA_LIST: [&'static str; 6] = [
    "Mozilla/5.0 (Windows NT 10.0; Win64; x64) AppleWebKit/537.36 (KHTML, like Gecko) Chrome/142.0.0.0 Safari/537.36",
    "Mozilla/5.0 (Windows NT 10.0; Win64; x64) AppleWebKit/537.36 (KHTML, like Gecko) Chrome/142.0.0.0 Safari/537.36 Edg/142.0.0.0",
    "Mozilla/5.0 (Windows NT 10.0; Win64; x64; rv:132.0) Gecko/20100101 Firefox/132.0",
    "Mozilla/5.0 (Macintosh; Intel Mac OS X 10_15_7) AppleWebKit/605.1.15 (KHTML, like Gecko) Version/17.0 Safari/605.1.15",
    "Mozilla/5.0 (X11; Linux x86_64) AppleWebKit/537.36 (KHTML, like Gecko) Chrome/142.0.0.0 Safari/537.36",
    "Mozilla/5.0 (X11; Linux x86_64; rv:132.0) Gecko/20100101 Firefox/132.0",
];

/// How a date and time of day is written.
pub const CLOCK_FORMAT: &'static str = "%Y-%m-%d %H:%M:%S";

/// How the day of the statistics is written.
pub const DAY_FORMAT: &'static str = "%Y%m%d";

/// The time zone whose calendar decides what today is.
pub const DAY_ZONE: &'static str = "Asia/Shanghai";

/// How many times a failed request is tried again.
pub const MAX_RETRIES: u32 = 2;

/// The delay before the first retry, in milliseconds; it doubles with every further retry.
pub const RETRY_BASE_MS: u64 = 200;

/// The code of a response that reports success.
pub const SUCCESS_CODE: i32 = 1;

/// How many records a table shows unless told otherwise.
pub const MAX_DISPLAY_RECORDS: usize = 10;

/// How many leading elements of the statistics array are basic information.
pub const BASIC_INFO_SIZE: usize = 10;

/// Where the gold records stand in the statistics array.
pub const GOLD_RECORDS_INDEX: usize = 10;

/// Where the experience records stand in the statistics array.
pub const EXP_RECORDS_INDEX: usize = 11;

/// Where the battle records stand in the statistics array.
pub const BATTLE_RECORDS_INDEX: usize = 12;

/// Where the day of the last session stands in the statistics array.
pub const DATE_INDEX: usize = 3;

/// Where the wins of that day stand in the statistics array.
pub const WINS_INDEX: usize = 4;

/// Where the losses of that day stand in the statistics array.
pub const LOSSES_INDEX: usize = 5;

/// How many hero classes there are.
pub const HERO_COUNT: usize = 11;

/// The mask that selects every hero.
pub const MAX_HERO_MASK: u32 = 2047;

/// The hero classes, in mask order.
pub const HERO_NAMES: [&'static str; 11] = [
    "战士",
    "萨满祭司",
    "潜行者",
    "圣骑士",
    "猎人",
    "德鲁伊",
    "术士",
    "法师",
    "牧师",
    "恶魔猎手",
    "死亡骑士",
];

/// The finish flag of an order that is done.
pub const STATUS_FINISHED: &'static str = "1";

/// The flag, finish or banned, of an order that is running.
pub const STATUS_RUNNING: &'static str = "0";

/// The banned flag of an order that was ended.
pub const STATUS_BANNED: &'static str = "1";

/// The code of the casual mode.
pub const MODE_CASUAL: &'static str = "1";

/// The code of the standard mode.
pub const MODE_STANDARD: &'static str = "2";

/// The code of the wild mode.
pub const MODE_WILD: &'static str = "3";

/// The code of the twist mode.
pub const MODE_TWIST: &'static str = "4";

/// The code of the battlegrounds mode.
pub const MODE_BATTLEGROUNDS: &'static str = "5";

/// The result code of a battle that was won.
pub const BATTLE_WIN: i64 = 1;

/// The result code of a battle that was lost.
pub const BATTLE_LOSS: i64 = -1;

/// The result code of a battle whose outcome is not known.
pub const BATTLE_UNKNOWN: i64 = 0;

} // verus!
