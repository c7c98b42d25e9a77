//! Subscription registry.
//!
//! Each `subscribe_*` call registers a numbered subscription here.  When an
//! update frame arrives with a matching item index, the registry merges the
//! frame's fields into that subscription's running field state; the caller
//! then forwards the merged state to the subscriber.

use std::collections::HashMap;

use vstd::prelude::*;

use crate::streaming::events::{
    account_fields, account_fields_spec, chart_candle_fields, chart_candle_fields_spec,
    chart_tick_fields, chart_tick_fields_spec, market_fields, market_fields_spec, scale_str,
    trade_fields, trade_fields_spec, CandleScale,
};
use crate::streaming::protocol::{
    fields_model, merge_fields, merge_spec, state_model, FieldValue,
};
use crate::text::{chars_of, concat_chars, join, join_strs, string_of};

verus! {

broadcast use vstd::std_specs::hash::group_hash_axioms;

/// What a subscription carries: its kind and the item it names.
#[derive(Debug)]
pub enum SubscriptionKind {
    Market { epic: String },
    ChartTick { epic: String },
    ChartCandle { epic: String, scale: CandleScale },
    Account { account_id: String },
    Trade { account_id: String },
}

/// Mathematical model of a [`SubscriptionKind`].
pub enum KindModel {
    Market { epic: Seq<char> },
    ChartTick { epic: Seq<char> },
    ChartCandle { epic: Seq<char>, scale: CandleScale },
    Account { account_id: Seq<char> },
    Trade { account_id: Seq<char> },
}

impl View for SubscriptionKind {
    type V = KindModel;

    open spec fn view(&self) -> KindModel {
        match self {
            SubscriptionKind::Market { epic } => KindModel::Market { epic: epic@ },
            SubscriptionKind::ChartTick { epic } => KindModel::ChartTick { epic: epic@ },
            SubscriptionKind::ChartCandle { epic, scale } => KindModel::ChartCandle {
                epic: epic@,
                scale: *scale,
            },
            SubscriptionKind::Account { account_id } => KindModel::Account {
                account_id: account_id@,
            },
            SubscriptionKind::Trade { account_id } => KindModel::Trade { account_id: account_id@ },
        }
    }
}

/// The field schema of a subscription kind.
pub open spec fn kind_fields(k: KindModel) -> Seq<Seq<char>> {
    match k {
        KindModel::Market { .. } => market_fields_spec(),
        KindModel::ChartTick { .. } => chart_tick_fields_spec(),
        KindModel::ChartCandle { .. } => chart_candle_fields_spec(),
        KindModel::Account { .. } => account_fields_spec(),
        KindModel::Trade { .. } => trade_fields_spec(),
    }
}

/// The Lightstreamer item name of a subscription.
pub open spec fn item_name(k: KindModel) -> Seq<char> {
    match k {
        KindModel::Market { epic } => "MARKET:"@ + epic,
        KindModel::ChartTick { epic } => "CHART:"@ + epic + ":TICK"@,
        KindModel::ChartCandle { epic, scale } => "CHART:"@ + epic + ":"@ + scale_str(scale),
        KindModel::Account { account_id } => "ACCOUNT:"@ + account_id,
        KindModel::Trade { account_id } => "TRADE:"@ + account_id,
    }
}

/// The subscription mode: chart ticks and trades are `DISTINCT`, the rest
/// `MERGE`.
pub open spec fn mode_of(k: KindModel) -> Seq<char> {
    match k {
        KindModel::ChartTick { .. } => "DISTINCT"@,
        KindModel::Trade { .. } => "DISTINCT"@,
        _ => "MERGE"@,
    }
}

/// The space-separated field schema sent on subscription.
pub open spec fn fields_csv(k: KindModel) -> Seq<char> {
    join(kind_fields(k), " "@)
}

impl SubscriptionKind {
    /// A copy with the same model.
    pub fn duplicate(&self) -> (r: SubscriptionKind)
        ensures
            r@ == self@,
    {
        match self {
            SubscriptionKind::Market { epic } => SubscriptionKind::Market { epic: epic.clone() },
            SubscriptionKind::ChartTick { epic } => SubscriptionKind::ChartTick {
                epic: epic.clone(),
            },
            SubscriptionKind::ChartCandle { epic, scale } => SubscriptionKind::ChartCandle {
                epic: epic.clone(),
                scale: *scale,
            },
            SubscriptionKind::Account { account_id } => SubscriptionKind::Account {
                account_id: account_id.clone(),
            },
            SubscriptionKind::Trade { account_id } => SubscriptionKind::Trade {
                account_id: account_id.clone(),
            },
        }
    }
}

/// How many fields a subscription kind declares.
pub fn kind_field_count(kind: &SubscriptionKind) -> (r: usize)
    ensures
        r == kind_fields(kind@).len(),
{
    match kind {
        SubscriptionKind::Market { .. } => market_fields().len(),
        SubscriptionKind::ChartTick { .. } => chart_tick_fields().len(),
        SubscriptionKind::ChartCandle { .. } => chart_candle_fields().len(),
        SubscriptionKind::Account { .. } => account_fields().len(),
        SubscriptionKind::Trade { .. } => trade_fields().len(),
    }
}

/// `(item_name, fields_csv, mode)` for the wire protocol.
pub fn kind_wire_params(kind: &SubscriptionKind) -> (r: (String, String, &'static str))
    ensures
        r.0@ == item_name(kind@),
        r.1@ == fields_csv(kind@),
        r.2@ == mode_of(kind@),
{
    let space = chars_of(" ");
    match kind {
        SubscriptionKind::Market { epic } => {
            let name = concat_chars(&chars_of("MARKET:"), &chars_of(epic.as_str()));
            let fields = join_strs(&market_fields(), &space);
            (string_of(&name), string_of(&fields), "MERGE")
        },
        SubscriptionKind::ChartTick { epic } => {
            let a = concat_chars(&chars_of("CHART:"), &chars_of(epic.as_str()));
            let name = concat_chars(&a, &chars_of(":TICK"));
            let fields = join_strs(&chart_tick_fields(), &space);
            (string_of(&name), string_of(&fields), "DISTINCT")
        },
        SubscriptionKind::ChartCandle { epic, scale } => {
            let a = concat_chars(&chars_of("CHART:"), &chars_of(epic.as_str()));
            let b = concat_chars(&a, &chars_of(":"));
            let name = concat_chars(&b, &chars_of(scale.as_str()));
            let fields = join_strs(&chart_candle_fields(), &space);
            (string_of(&name), string_of(&fields), "MERGE")
        },
        SubscriptionKind::Account { account_id } => {
            let name = concat_chars(&chars_of("ACCOUNT:"), &chars_of(account_id.as_str()));
            let fields = join_strs(&account_fields(), &space);
            (string_of(&name), string_of(&fields), "MERGE")
        },
        SubscriptionKind::Trade { account_id } => {
            let name = concat_chars(&chars_of("TRADE:"), &chars_of(account_id.as_str()));
            let fields = join_strs(&trade_fields(), &space);
            (string_of(&name), string_of(&fields), "DISTINCT")
        },
    }
}

/// A market subscription: item `MARKET:<epic>`, `MERGE` mode, and the schema
/// BID, OFFER, HIGH, LOW, MID_OPEN, CHANGE, CHANGE_PCT, UPDATE_TIME,
/// MARKET_DELAY, MARKET_STATE in that order (bid in slot 0, offer in slot 1).
pub proof fn lemma_market_wire_params(id: Seq<char>)
    ensures
        item_name(KindModel::Market { epic: id }) == "MARKET:"@ + id,
        mode_of(KindModel::Market { epic: id }) == "MERGE"@,
        fields_csv(KindModel::Market { epic: id }) == "BID OFFER HIGH LOW MID_OPEN CHANGE CHANGE_PCT UPDATE_TIME MARKET_DELAY MARKET_STATE"@,
{
    reveal_strlit("BID");
    reveal_strlit("OFFER");
    reveal_strlit("HIGH");
    reveal_strlit("LOW");
    reveal_strlit("MID_OPEN");
    reveal_strlit("CHANGE");
    reveal_strlit("CHANGE_PCT");
    reveal_strlit("UPDATE_TIME");
    reveal_strlit("MARKET_DELAY");
    reveal_strlit("MARKET_STATE");
    reveal_strlit("BID OFFER HIGH LOW MID_OPEN CHANGE CHANGE_PCT UPDATE_TIME MARKET_DELAY MARKET_STATE");
    reveal_strlit(" ");
    reveal_with_fuel(join, 11);
    assert(fields_csv(KindModel::Market { epic: id }) =~= "BID OFFER HIGH LOW MID_OPEN CHANGE CHANGE_PCT UPDATE_TIME MARKET_DELAY MARKET_STATE"@);
}

/// A chart-tick subscription: item `CHART:<epic>:TICK`, `DISTINCT` mode, and
/// the schema BID, OFR, LTP, LTV, TTV, UTM, DAY_OPEN_MID, DAY_NET_CHG_MID,
/// DAY_PERC_CHG_MID, DAY_HIGH, DAY_LOW in that order.
pub proof fn lemma_chart_tick_wire_params(id: Seq<char>)
    ensures
        item_name(KindModel::ChartTick { epic: id }) == "CHART:"@ + id + ":TICK"@,
        mode_of(KindModel::ChartTick { epic: id }) == "DISTINCT"@,
        fields_csv(KindModel::ChartTick { epic: id }) == "BID OFR LTP LTV TTV UTM DAY_OPEN_MID DAY_NET_CHG_MID DAY_PERC_CHG_MID DAY_HIGH DAY_LOW"@,
{
    reveal_strlit("BID");
    reveal_strlit("OFR");
    reveal_strlit("LTP");
    reveal_strlit("LTV");
    reveal_strlit("TTV");
    reveal_strlit("UTM");
    reveal_strlit("DAY_OPEN_MID");
    reveal_strlit("DAY_NET_CHG_MID");
    reveal_strlit("DAY_PERC_CHG_MID");
    reveal_strlit("DAY_HIGH");
    reveal_strlit("DAY_LOW");
    reveal_strlit("BID OFR LTP LTV TTV UTM DAY_OPEN_MID DAY_NET_CHG_MID DAY_PERC_CHG_MID DAY_HIGH DAY_LOW");
    reveal_strlit(" ");
    reveal_with_fuel(join, 12);
    assert(fields_csv(KindModel::ChartTick { epic: id }) =~= "BID OFR LTP LTV TTV UTM DAY_OPEN_MID DAY_NET_CHG_MID DAY_PERC_CHG_MID DAY_HIGH DAY_LOW"@);
}

/// An account subscription: item `ACCOUNT:<accountId>`, `MERGE` mode, and the
/// schema PNL, DEPOSIT, AVAILABLE_CASH, FUNDS, MARGIN, MARGIN_LR, MARGIN_NLR,
/// AVAILABLE_TO_DEAL, EQUITY, EQUITY_USED in that order.
pub proof fn lemma_account_wire_params(id: Seq<char>)
    ensures
        item_name(KindModel::Account { account_id: id }) == "ACCOUNT:"@ + id,
        mode_of(KindModel::Account { account_id: id }) == "MERGE"@,
        fields_csv(KindModel::Account { account_id: id }) == "PNL DEPOSIT AVAILABLE_CASH FUNDS MARGIN MARGIN_LR MARGIN_NLR AVAILABLE_TO_DEAL EQUITY EQUITY_USED"@,
{
    reveal_strlit("PNL");
    reveal_strlit("DEPOSIT");
    reveal_strlit("AVAILABLE_CASH");
    reveal_strlit("FUNDS");
    reveal_strlit("MARGIN");
    reveal_strlit("MARGIN_LR");
    reveal_strlit("MARGIN_NLR");
    reveal_strlit("AVAILABLE_TO_DEAL");
    reveal_strlit("EQUITY");
    reveal_strlit("EQUITY_USED");
    reveal_strlit("PNL DEPOSIT AVAILABLE_CASH FUNDS MARGIN MARGIN_LR MARGIN_NLR AVAILABLE_TO_DEAL EQUITY EQUITY_USED");
    reveal_strlit(" ");
    reveal_with_fuel(join, 11);
    assert(fields_csv(KindModel::Account { account_id: id }) =~= "PNL DEPOSIT AVAILABLE_CASH FUNDS MARGIN MARGIN_LR MARGIN_NLR AVAILABLE_TO_DEAL EQUITY EQUITY_USED"@);
}

/// A trade subscription: item `TRADE:<accountId>`, `DISTINCT` mode, and the
/// schema CONFIRMS, OPU, WOU in that order.
pub proof fn lemma_trade_wire_params(id: Seq<char>)
    ensures
        item_name(KindModel::Trade { account_id: id }) == "TRADE:"@ + id,
        mode_of(KindModel::Trade { account_id: id }) == "DISTINCT"@,
        fields_csv(KindModel::Trade { account_id: id }) == "CONFIRMS OPU WOU"@,
{
    reveal_strlit("CONFIRMS");
    reveal_strlit("OPU");
    reveal_strlit("WOU");
    reveal_strlit("CONFIRMS OPU WOU");
    reveal_strlit(" ");
    reveal_with_fuel(join, 4);
    assert(fields_csv(KindModel::Trade { account_id: id }) =~= "CONFIRMS OPU WOU"@);
}

/// A candle subscription: item `CHART:<epic>:<scale>`, `MERGE` mode, and the
/// schema OFR_OPEN, OFR_HIGH, OFR_LOW, OFR_CLOSE, BID_OPEN, BID_HIGH, BID_LOW,
/// BID_CLOSE, LTP_OPEN, LTP_HIGH, LTP_LOW, LTP_CLOSE, CONS_END,
/// CONS_TICK_COUNT, UTM in that order.
pub proof fn lemma_chart_candle_wire_params(id: Seq<char>, scale: CandleScale)
    ensures
        item_name(KindModel::ChartCandle { epic: id, scale }) == "CHART:"@ + id + ":"@ + scale_str(scale),
        mode_of(KindModel::ChartCandle { epic: id, scale }) == "MERGE"@,
        fields_csv(KindModel::ChartCandle { epic: id, scale }) == "OFR_OPEN OFR_HIGH OFR_LOW OFR_CLOSE BID_OPEN BID_HIGH BID_LOW BID_CLOSE LTP_OPEN LTP_HIGH LTP_LOW LTP_CLOSE CONS_END CONS_TICK_COUNT UTM"@,
{
    reveal_strlit("OFR_OPEN");
    reveal_strlit("OFR_HIGH");
    reveal_strlit("OFR_LOW");
    reveal_strlit("OFR_CLOSE");
    reveal_strlit("BID_OPEN");
    reveal_strlit("BID_HIGH");
    reveal_strlit("BID_LOW");
    reveal_strlit("BID_CLOSE");
    reveal_strlit("LTP_OPEN");
    reveal_strlit("LTP_HIGH");
    reveal_strlit("LTP_LOW");
    reveal_strlit("LTP_CLOSE");
    reveal_strlit("CONS_END");
    reveal_strlit("CONS_TICK_COUNT");
    reveal_strlit("UTM");
    reveal_strlit("OFR_OPEN OFR_HIGH OFR_LOW OFR_CLOSE BID_OPEN BID_HIGH BID_LOW BID_CLOSE LTP_OPEN LTP_HIGH LTP_LOW LTP_CLOSE CONS_END CONS_TICK_COUNT UTM");
    reveal_strlit(" ");
    reveal_with_fuel(join, 16);
    assert(fields_csv(KindModel::ChartCandle { epic: id, scale }) =~= "OFR_OPEN OFR_HIGH OFR_LOW OFR_CLOSE BID_OPEN BID_HIGH BID_LOW BID_CLOSE LTP_OPEN LTP_HIGH LTP_LOW LTP_CLOSE CONS_END CONS_TICK_COUNT UTM"@);
}

/// One registered subscription.
#[derive(Debug)]
pub struct Entry {
    pub kind: SubscriptionKind,
    /// Running field state — one slot per field declared at subscription time.
    pub field_state: Vec<Option<String>>,
    /// Lightstreamer 1-based item number.
    pub item_index: usize,
}

/// Model of an [`Entry`].
pub struct EntryModel {
    pub kind: KindModel,
    pub field_state: Seq<Option<Seq<char>>>,
    pub item_index: usize,
}

impl View for Entry {
    type V = EntryModel;

    open spec fn view(&self) -> EntryModel {
        EntryModel {
            kind: self.kind@,
            field_state: state_model(self.field_state@),
            item_index: self.item_index,
        }
    }
}

/// Shared subscription registry state: the registered entries, keyed by
/// item index, and the next item index to hand out.
#[derive(Debug)]
pub struct Registry {
    entries: HashMap<usize, Entry>,
    next_index: usize,
}

/// Model of a [`Registry`].
pub struct RegistryModel {
    /// Item index → subscription.
    pub entries: Map<usize, EntryModel>,
    /// The index the next registration receives.
    pub next_index: usize,
}

impl View for Registry {
    type V = RegistryModel;

    closed spec fn view(&self) -> RegistryModel {
        RegistryModel {
            entries: self.entries@.map_values(|e: Entry| e@),
            next_index: self.next_index,
        }
    }
}

/// A fresh field state of `n` empty slots.
pub open spec fn empty_state(n: nat) -> Seq<Option<Seq<char>>> {
    Seq::new(n, |i: int| None)
}

/// Copy of a field state with the same model.
pub fn clone_state(v: &Vec<Option<String>>) -> (r: Vec<Option<String>>)
    ensures
        state_model(r@) == state_model(v@),
{
    let mut r: Vec<Option<String>> = Vec::new();
    let mut i: usize = 0;
    while i < v.len()
        invariant
            i <= v@.len(),
            r@.len() == i,
            state_model(r@) == state_model(v@.take(i as int)),
        decreases v.len() - i,
    {
        let x = match &v[i] {
            Some(s) => Some(s.clone()),
            None => None,
        };
        let ghost before = r@;
        r.push(x);
        proof {
            let t = v@.take(i + 1);
            assert forall|k: int| 0 <= k < r@.len() implies state_model(r@)[k] == state_model(
                t,
            )[k] by {
                if k < i {
                    assert(r@[k] == before[k]);
                    assert(t[k] == v@.take(i as int)[k]);
                    assert(state_model(before)[k] == state_model(v@.take(i as int))[k]);
                }
            }
            assert(state_model(r@) =~= state_model(t));
        }
        i = i + 1;
    }
    assert(v@.take(v@.len() as int) =~= v@);
    r
}

impl Registry {
    /// Well-formedness: every entry is filed under its own item index, which
    /// lies in `1..next_index`.
    pub closed spec fn wf(&self) -> bool {
        &&& self.next_index >= 1
        &&& forall|k: usize|
            #[trigger] self.entries@.contains_key(k) ==> 1 <= k < self.next_index
                && self.entries@[k].item_index == k
    }

    /// An empty registry whose first subscription gets index 1.
    pub fn new() -> (r: Registry)
        ensures
            r.wf(),
            r@.entries == Map::<usize, EntryModel>::empty(),
            r@.next_index == 1,
    {
        let r = Registry { entries: HashMap::new(), next_index: 1 };
        assert(r@.entries =~= Map::<usize, EntryModel>::empty());
        r
    }

    /// The index the next registration receives.
    pub fn next_index(&self) -> (r: usize)
        ensures
            r == self@.next_index,
    {
        self.next_index
    }

    /// Register a new subscription and return the assigned item index: the
    /// next index in sequence, filed with an empty field state sized to the
    /// kind's schema.
    pub fn register(&mut self, kind: SubscriptionKind) -> (idx: usize)
        requires
            old(self).wf(),
            old(self)@.next_index < usize::MAX,
        ensures
            final(self).wf(),
            idx == old(self)@.next_index,
            final(self)@.next_index == idx + 1,
            final(self)@.entries == old(self)@.entries.insert(
                idx,
                EntryModel {
                    kind: kind@,
                    field_state: empty_state(kind_fields(kind@).len()),
                    item_index: idx,
                },
            ),
    {
        let idx = self.next_index;
        let n = kind_field_count(&kind);
        let mut state: Vec<Option<String>> = Vec::new();
        let mut i: usize = 0;
        while i < n
            invariant
                i <= n,
                state@.len() == i,
                state_model(state@) == empty_state(i as nat),
            decreases n - i,
        {
            let ghost before = state@;
            state.push(None);
            i = i + 1;
            proof {
                assert forall|k: int| 0 <= k < state@.len() implies state_model(state@)[k]
                    == empty_state(i as nat)[k] by {
                    if k < i - 1 {
                        assert(state@[k] == before[k]);
                        assert(state_model(before)[k] == empty_state((i - 1) as nat)[k]);
                    }
                }
                assert(state_model(state@) =~= empty_state(i as nat));
            }
        }
        let ghost old_view = self@.entries;
        let e = Entry { kind, field_state: state, item_index: idx };
        let ghost em = e@;
        self.entries.insert(idx, e);
        self.next_index = idx + 1;
        assert(self@.entries =~= old_view.insert(idx, em));
        idx
    }

    /// Apply an incoming update frame to the matching subscription: its field
    /// state becomes the merge of the frame onto it, and the merged state is
    /// returned.  An unknown index leaves the registry as it is and gives
    /// `None`.
    pub fn apply_update(&mut self, item_index: usize, fields: &[FieldValue]) -> (r: Option<
        Vec<Option<String>>,
    >)
        requires
            old(self).wf(),
        ensures
            final(self).wf(),
            final(self)@.next_index == old(self)@.next_index,
            match r {
                Some(state) => {
                    &&& old(self)@.entries.dom().contains(item_index)
                    &&& state_model(state@) == merge_spec(
                        old(self)@.entries[item_index].field_state,
                        fields_model(fields@),
                    )
                    &&& final(self)@.entries == old(self)@.entries.insert(
                        item_index,
                        EntryModel {
                            field_state: state_model(state@),
                            ..old(self)@.entries[item_index]
                        },
                    )
                },
                None => {
                    &&& !old(self)@.entries.dom().contains(item_index)
                    &&& final(self)@.entries == old(self)@.entries
                },
            },
    {
        let (kind, mut state) = match self.entries.get(&item_index) {
            None => return None,
            Some(e) => (e.kind.duplicate(), clone_state(&e.field_state)),
        };
        merge_fields(&mut state, fields);
        let out = clone_state(&state);
        let ghost old_view = self@.entries;
        let e = Entry { kind, field_state: state, item_index };
        let ghost em = e@;
        self.entries.insert(item_index, e);
        assert(self@.entries =~= old_view.insert(item_index, em));
        Some(out)
    }

    /// Remove a subscription from the registry (a no-op for an unknown index).
    pub fn remove(&mut self, item_index: usize)
        requires
            old(self).wf(),
        ensures
            final(self).wf(),
            final(self)@.next_index == old(self)@.next_index,
            final(self)@.entries == old(self)@.entries.remove(item_index),
    {
        let ghost old_view = self@.entries;
        self.entries.remove(&item_index);
        assert(self@.entries =~= old_view.remove(item_index));
    }

    /// Snapshot all entries for re-subscription after a reconnect:
    /// `(item_index, item_name, fields_csv, mode)` for every registered
    /// subscription, each exactly once, in increasing index order.
    pub fn snapshot_for_resubscribe(&self) -> (r: Vec<(usize, String, String, &'static str)>)
        requires
            self.wf(),
        ensures
            forall|j: int|
                #![trigger r@[j]]
                0 <= j < r@.len() ==> {
                    &&& self@.entries.dom().contains(r@[j].0)
                    &&& r@[j].1@ == item_name(self@.entries[r@[j].0].kind)
                    &&& r@[j].2@ == fields_csv(self@.entries[r@[j].0].kind)
                    &&& r@[j].3@ == mode_of(self@.entries[r@[j].0].kind)
                },
            forall|k: usize|
                self@.entries.dom().contains(k) ==> exists|j: int|
                    0 <= j < r@.len() && #[trigger] r@[j].0 == k,
            forall|a: int, b: int| 0 <= a < b < r@.len() ==> r@[a].0 < r@[b].0,
    {
        let mut r: Vec<(usize, String, String, &'static str)> = Vec::new();
        let mut k: usize = 1;
        while k < self.next_index
            invariant
                self.wf(),
                1 <= k <= self.next_index,
                forall|j: int|
                    #![trigger r@[j]]
                    0 <= j < r@.len() ==> {
                        &&& r@[j].0 < k
                        &&& self@.entries.dom().contains(r@[j].0)
                        &&& r@[j].1@ == item_name(self@.entries[r@[j].0].kind)
                        &&& r@[j].2@ == fields_csv(self@.entries[r@[j].0].kind)
                        &&& r@[j].3@ == mode_of(self@.entries[r@[j].0].kind)
                    },
                forall|q: usize|
                    q < k && self@.entries.dom().contains(q) ==> exists|j: int|
                        0 <= j < r@.len() && #[trigger] r@[j].0 == q,
                forall|a: int, b: int| 0 <= a < b < r@.len() ==> r@[a].0 < r@[b].0,
            decreases self.next_index - k,
        {
            match self.entries.get(&k) {
                Some(e) => {
                    let (name, fields, mode) = kind_wire_params(&e.kind);
                    let ghost before = r@;
                    r.push((k, name, fields, mode));
                    proof {
                        assert(self@.entries.dom().contains(k));
                        assert(self@.entries[k] == e@);
                        assert forall|q: usize|
                            q < k + 1 && self@.entries.dom().contains(q) implies exists|j: int|
                            0 <= j < r@.len() && #[trigger] r@[j].0 == q by {
                            if q < k {
                                let j = choose|j: int| 0 <= j < before.len() && before[j].0 == q;
                                assert(r@[j] == before[j]);
                            } else {
                                assert(r@[before.len() as int].0 == q);
                            }
                        }
                        assert forall|a: int, b: int| 0 <= a < b < r@.len() implies r@[a].0
                            < r@[b].0 by {
                            assert(r@[a] == before[a]);
                            if b < before.len() {
                                assert(r@[b] == before[b]);
                            }
                        }
                        assert forall|j: int| 0 <= j < before.len() implies #[trigger] r@[j]
                            == before[j] by {}
                    }
                },
                None => {
                    proof {
                        assert(!self@.entries.dom().contains(k));
                    }
                },
            }
            k = k + 1;
        }
        proof {
            assert forall|q: usize| self@.entries.dom().contains(q) implies exists|j: int|
                0 <= j < r@.len() && #[trigger] r@[j].0 == q by {
                assert(self.entries@.contains_key(q));
            }
        }
        r
    }
}

/// A removed subscription is unknown afterwards: an update for it is
/// ignored, and the other subscriptions stay as they were.
pub proof fn lemma_removed_is_unknown(m: RegistryModel, item_index: usize, other: usize)
    requires
        other != item_index,
    ensures
        !m.entries.remove(item_index).dom().contains(item_index),
        m.entries.dom().contains(other) ==> m.entries.remove(item_index).dom().contains(other)
            && m.entries.remove(item_index)[other] == m.entries[other],
{
}

/// Registrations receive consecutive indices, and a registration never
/// reuses the index of an entry that is still registered.
pub proof fn lemma_register_fresh(m: RegistryModel)
    requires
        forall|k: usize| m.entries.dom().contains(k) ==> k < m.next_index,
    ensures
        !m.entries.dom().contains(m.next_index),
{
}

/// Removing a subscription right after registering it gives the
/// registry's entries back as they were.
pub proof fn lemma_register_then_remove(m: RegistryModel, e: EntryModel)
    requires
        forall|k: usize| m.entries.dom().contains(k) ==> k < m.next_index,
    ensures
        m.entries.insert(m.next_index, e).remove(m.next_index) == m.entries,
{
    assert(m.entries.insert(m.next_index, e).remove(m.next_index) =~= m.entries);
}

impl Registry {
    /// Every registered index lies in `1..next_index`, and each entry
    /// carries the index it is filed under.
    pub proof fn lemma_indices_below_next(&self)
        requires
            self.wf(),
        ensures
            forall|k: usize|
                #[trigger] self@.entries.dom().contains(k) ==> 1 <= k < self@.next_index
                    && self@.entries[k].item_index == k,
    {
        assert forall|k: usize| #[trigger] self@.entries.dom().contains(k) implies 1 <= k
            < self@.next_index && self@.entries[k].item_index == k by {
            assert(self.entries@.contains_key(k));
        }
    }
}

} // verus!
