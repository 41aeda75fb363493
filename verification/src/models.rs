//! The records of an order as the service reports them, each with its
//! mathematical content.

use vstd::prelude::*;
use crate::json::{models, Json, JsonModel};

verus! {

/// The envelope around every response of the service.
#[derive(Debug)]
pub struct ApiResponse {
    pub code: i32,
    pub error: String,
    pub count: Option<i32>,
    pub data: Option<Vec<OrderData>>,
}

/// One order, as the service reports it.
#[derive(Debug)]
pub struct OrderData {
    pub am: String,
    pub oid: String,
    pub edate: String,
    pub config: String,
    pub details: String,
    pub finish: String,
    pub banned: String,
    pub dltype: String,
    pub num1: String,
    pub num2: String,
    pub num3: String,
    pub num7: String,
    pub num8: String,
    pub dldata: String,
    pub remark: String,
}

/// The settings of an order. A field that is absent stands for the
/// service's default.
#[derive(Debug)]
pub struct OrderConfig {
    pub battlemode: Option<String>,
    pub region: Option<String>,
    pub pause: Option<String>,
    pub battleheroes: Option<String>,
    pub auto: Option<String>,
}

/// The statistics of an order, decoded.
#[derive(Debug)]
pub struct DlData {
    pub basic_info: Vec<Json>,
    pub gold_records: Vec<GoldRecord>,
    pub exp_records: Vec<ExpRecord>,
    pub battle_records: Vec<BattleRecord>,
    pub today_battles: u64,
}

/// One change of gold and card packs.
#[derive(Debug)]
pub struct GoldRecord {
    pub time: String,
    pub gold_change: String,
    pub pack_change: String,
}

/// One gain of experience.
#[derive(Debug)]
pub struct ExpRecord {
    pub time: String,
    pub exp_change: String,
    pub level: String,
    pub total_exp: String,
    pub current_level_exp: String,
}

/// One battle.
#[derive(Debug)]
pub struct BattleRecord {
    pub time: String,
    pub result: String,
    pub exp: String,
}

/// The content of an [`ApiResponse`].
pub ghost struct ApiResponseView {
    pub code: i32,
    pub error: Seq<char>,
    pub count: Option<i32>,
    pub data: Option<Seq<OrderDataView>>,
}

/// The content of an [`OrderData`].
pub ghost struct OrderDataView {
    pub am: Seq<char>,
    pub oid: Seq<char>,
    pub edate: Seq<char>,
    pub config: Seq<char>,
    pub details: Seq<char>,
    pub finish: Seq<char>,
    pub banned: Seq<char>,
    pub dltype: Seq<char>,
    pub num1: Seq<char>,
    pub num2: Seq<char>,
    pub num3: Seq<char>,
    pub num7: Seq<char>,
    pub num8: Seq<char>,
    pub dldata: Seq<char>,
    pub remark: Seq<char>,
}

/// The content of an [`OrderConfig`].
pub ghost struct OrderConfigView {
    pub battlemode: Option<Seq<char>>,
    pub region: Option<Seq<char>>,
    pub pause: Option<Seq<char>>,
    pub battleheroes: Option<Seq<char>>,
    pub auto: Option<Seq<char>>,
}

/// The content of a [`DlData`].
pub ghost struct DlDataView {
    pub basic_info: Seq<JsonModel>,
    pub gold_records: Seq<GoldRecordView>,
    pub exp_records: Seq<ExpRecordView>,
    pub battle_records: Seq<BattleRecordView>,
    pub today_battles: nat,
}

/// The content of a [`GoldRecord`].
pub ghost struct GoldRecordView {
    pub time: Seq<char>,
    pub gold_change: Seq<char>,
    pub pack_change: Seq<char>,
}

/// The content of an [`ExpRecord`].
pub ghost struct ExpRecordView {
    pub time: Seq<char>,
    pub exp_change: Seq<char>,
    pub level: Seq<char>,
    pub total_exp: Seq<char>,
    pub current_level_exp: Seq<char>,
}

/// The content of a [`BattleRecord`].
pub ghost struct BattleRecordView {
    pub time: Seq<char>,
    pub result: Seq<char>,
    pub exp: Seq<char>,
}

impl View for OrderData {
    type V = OrderDataView;

    open spec fn view(&self) -> OrderDataView {
        OrderDataView {
            am: self.am@,
            oid: self.oid@,
            edate: self.edate@,
            config: self.config@,
            details: self.details@,
            finish: self.finish@,
            banned: self.banned@,
            dltype: self.dltype@,
            num1: self.num1@,
            num2: self.num2@,
            num3: self.num3@,
            num7: self.num7@,
            num8: self.num8@,
            dldata: self.dldata@,
            remark: self.remark@,
        }
    }
}

impl DeepView for OrderData {
    type V = OrderDataView;

    open spec fn deep_view(&self) -> OrderDataView {
        self@
    }
}

impl View for ApiResponse {
    type V = ApiResponseView;

    open spec fn view(&self) -> ApiResponseView {
        ApiResponseView {
            code: self.code,
            error: self.error@,
            count: self.count,
            data: self.data.deep_view(),
        }
    }
}

impl View for OrderConfig {
    type V = OrderConfigView;

    open spec fn view(&self) -> OrderConfigView {
        OrderConfigView {
            battlemode: self.battlemode.deep_view(),
            region: self.region.deep_view(),
            pause: self.pause.deep_view(),
            battleheroes: self.battleheroes.deep_view(),
            auto: self.auto.deep_view(),
        }
    }
}

impl View for GoldRecord {
    type V = GoldRecordView;

    open spec fn view(&self) -> GoldRecordView {
        GoldRecordView {
            time: self.time@,
            gold_change: self.gold_change@,
            pack_change: self.pack_change@,
        }
    }
}

impl DeepView for GoldRecord {
    type V = GoldRecordView;

    open spec fn deep_view(&self) -> GoldRecordView {
        self@
    }
}

impl View for ExpRecord {
    type V = ExpRecordView;

    open spec fn view(&self) -> ExpRecordView {
        ExpRecordView {
            time: self.time@,
            exp_change: self.exp_change@,
            level: self.level@,
            total_exp: self.total_exp@,
            current_level_exp: self.current_level_exp@,
        }
    }
}

impl DeepView for ExpRecord {
    type V = ExpRecordView;

    open spec fn deep_view(&self) -> ExpRecordView {
        self@
    }
}

impl View for BattleRecord {
    type V = BattleRecordView;

    open spec fn view(&self) -> BattleRecordView {
        BattleRecordView { time: self.time@, result: self.result@, exp: self.exp@ }
    }
}

impl DeepView for BattleRecord {
    type V = BattleRecordView;

    open spec fn deep_view(&self) -> BattleRecordView {
        self@
    }
}

impl View for DlData {
    type V = DlDataView;

    open spec fn view(&self) -> DlDataView {
        DlDataView {
            basic_info: models(self.basic_info@),
            gold_records: self.gold_records.deep_view(),
            exp_records: self.exp_records.deep_view(),
            battle_records: self.battle_records.deep_view(),
            today_battles: self.today_battles as nat,
        }
    }
}

impl Default for OrderConfig {
    fn default() -> (config: OrderConfig)
        ensures
            config@ == (OrderConfigView {
                battlemode: None,
                region: None,
                pause: None,
                battleheroes: None,
                auto: None,
            }),
    {
        OrderConfig { battlemode: None, region: None, pause: None, battleheroes: None, auto: None }
    }
}

} // verus!
