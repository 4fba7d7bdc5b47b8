//! The application core: a state machine owned by the UI thread. It decides
//! what a dispatched operation must do, folds the single result of each
//! operation back into the visible state, derives the DNS status from the
//! most recently queried server list, and manages the latency monitor's
//! bounded sample history.
//!
//! All blocking work (adapter lookup, gateway calls, probing, persistence)
//! happens outside: the core hands out an `OperationPlan`, the outer layer
//! performs the call and feeds the outcome back in.

use vstd::prelude::*;
use vstd::string::{StrSliceExecFns, StringExecFns};

use crate::HISTORY_CAPACITY;
use crate::domain::{AppState, DnsOperation, DnsProvider, DnsState, OperationResult, SavedDnsEntry};
use crate::text::{contains_view, join_view, join_with, str_contains, views_of};

verus! {

/// What the worker spawned for one dispatched operation has to do: either
/// hand back an already-decided result, or make the one gateway call the
/// operation needs and report its outcome.
pub enum OperationPlan {
    Respond(OperationResult),
    ApplyCall { adapter: String, primary: String, secondary: String },
    ClearCall { adapter: String },
    QueryCall { adapter: String },
}

/// The fixed error message for a dispatch that found no active adapter.
pub open spec fn no_adapter_message() -> Seq<char> {
    "No Internet Connection Found"@
}

/// The plan a dispatch must produce: with no adapter, an immediate error
/// response and no gateway call; otherwise the single call that the chosen
/// operation needs, against the resolved adapter.
pub open spec fn plan_matches(plan: OperationPlan, op: DnsOperation, adapter: Option<String>) -> bool {
    match adapter {
        Option::None => plan matches OperationPlan::Respond(r) && r matches OperationResult::Error(m)
            && m@ == no_adapter_message(),
        Option::Some(a) => match op {
            DnsOperation::Apply(p) => plan matches OperationPlan::ApplyCall {
                adapter: pa,
                primary,
                secondary,
            } && pa@ == a@ && primary@ == p.primary_view() && secondary@ == p.secondary_view(),
            DnsOperation::Clear => plan matches OperationPlan::ClearCall { adapter: pa } && pa@
                == a@,
            DnsOperation::Test => plan matches OperationPlan::QueryCall { adapter: pa } && pa@
                == a@,
        },
    }
}

/// A single server entry that marks a DHCP-assigned configuration.
pub open spec fn dhcp_marked(dns: Seq<String>) -> bool {
    dns.len() == 1 && contains_view(dns[0]@, "dhcp"@)
}

/// The derivation of the displayed DNS status from a queried server list:
/// no servers at all, the DHCP marker alone, or the static list itself.
pub open spec fn dns_state_matches(state: DnsState, dns: Seq<String>) -> bool {
    match state {
        DnsState::Unconfigured => dns.len() == 0,
        DnsState::Dhcp => dhcp_marked(dns),
        DnsState::Static(list) => dns.len() > 0 && !dhcp_marked(dns) && list@ == dns,
    }
}

/// Derives the DNS status from a queried server list.
pub fn derive_dns_state(dns: &Vec<String>) -> (r: DnsState)
    ensures
        dns_state_matches(r, dns@),
{
    if dns.len() == 0 {
        DnsState::Unconfigured
    } else if dns.len() == 1 && str_contains(dns[0].as_str(), "dhcp") {
        DnsState::Dhcp
    } else {
        let mut list: Vec<String> = Vec::new();
        let mut i: usize = 0;
        while i < dns.len()
            invariant
                0 <= i <= dns@.len(),
                list@ == dns@.take(i as int),
            decreases dns@.len() - i,
        {
            list.push(dns[i].clone());
            proof {
                assert(dns@.take(i + 1) =~= dns@.take(i as int).push(dns@[i as int]));
            }
            i = i + 1;
        }
        proof {
            assert(dns@.take(dns@.len() as int) =~= dns@);
        }
        DnsState::Static(list)
    }
}

/// The derivation is a function: any two states matching the same list agree
/// (a `Static` payload is compared by its contents).
pub proof fn lemma_dns_state_determined(a: DnsState, b: DnsState, dns: Seq<String>)
    requires
        dns_state_matches(a, dns),
        dns_state_matches(b, dns),
    ensures
        match (a, b) {
            (DnsState::Unconfigured, DnsState::Unconfigured) => true,
            (DnsState::Dhcp, DnsState::Dhcp) => true,
            (DnsState::Static(la), DnsState::Static(lb)) => la@ == lb@,
            _ => false,
        },
{
}

/// The state owned by the UI thread. An operation in flight occupies the
/// `pending` slot; it is set on dispatch and cleared when the one result is
/// folded, so results of two dispatches can never land in one cycle.
pub struct DnsCore {
    pub adapter: Option<String>,
    pub dns: Vec<String>,
    pub app_state: AppState,
    pub selected_provider: DnsProvider,
    pub dns_state: DnsState,
    pub custom_primary: String,
    pub custom_secondary: String,
    pub pending: bool,
    pub monitor_active: bool,
    pub ping_history: Vec<u64>,
    pub saved_entries: Vec<SavedDnsEntry>,
    pub new_name: String,
    pub new_primary: String,
    pub new_secondary: String,
    pub add_error: Option<String>,
}

/// The display state carrying an operation's result.
pub open spec fn result_state(result: OperationResult) -> AppState {
    match result {
        OperationResult::Success(m) => AppState::Success(m),
        OperationResult::Error(m) => AppState::Error(m),
        OperationResult::Warning(m) => AppState::Warning(m),
    }
}

/// The state after a dispatch: processing, with the in-flight slot occupied
/// and the freshly resolved adapter recorded.
pub open spec fn spec_dispatched(s: DnsCore, adapter: Option<String>) -> DnsCore {
    DnsCore { app_state: AppState::Processing, pending: true, adapter: adapter, ..s }
}

/// The state after draining one result: if an operation was in flight, its
/// result becomes the display state and the slot empties; otherwise nothing
/// changes.
pub open spec fn spec_folded(s: DnsCore, result: OperationResult) -> DnsCore {
    if s.pending {
        DnsCore { app_state: result_state(result), pending: false, ..s }
    } else {
        s
    }
}

impl DnsCore {
    /// The internal invariant: the derived status always matches the last
    /// queried server list, the sample history is bounded, the history is
    /// empty while the monitor is off, and `Processing` shows only while an
    /// operation is in flight.
    pub open spec fn wf(self) -> bool {
        &&& dns_state_matches(self.dns_state, self.dns@)
        &&& self.ping_history@.len() <= HISTORY_CAPACITY
        &&& (!self.monitor_active ==> self.ping_history@.len() == 0)
        &&& (self.app_state == AppState::Processing ==> self.pending)
    }

    /// A fresh core around the entries loaded from the store: idle, nothing
    /// in flight, no monitor, the default provider selected.
    pub fn new(saved_entries: Vec<SavedDnsEntry>) -> (r: DnsCore)
        ensures
            r.wf(),
            r.adapter matches Option::None,
            r.dns@.len() == 0,
            r.app_state == AppState::Idle,
            r.selected_provider matches DnsProvider::Electro { primary, secondary } && primary@
                == "78.157.42.100"@ && secondary@ == "78.157.42.101"@,
            r.dns_state == DnsState::Unconfigured,
            r.custom_primary@.len() == 0,
            r.custom_secondary@.len() == 0,
            !r.pending,
            !r.monitor_active,
            r.ping_history@.len() == 0,
            r.saved_entries == saved_entries,
            r.new_name@.len() == 0,
            r.new_primary@.len() == 0,
            r.new_secondary@.len() == 0,
            r.add_error matches Option::None,
    {
        DnsCore {
            adapter: None,
            dns: Vec::new(),
            app_state: AppState::Idle,
            selected_provider: DnsProvider::electro(),
            dns_state: DnsState::Unconfigured,
            custom_primary: String::new(),
            custom_secondary: String::new(),
            pending: false,
            monitor_active: false,
            ping_history: Vec::new(),
            saved_entries,
            new_name: String::new(),
            new_primary: String::new(),
            new_secondary: String::new(),
            add_error: None,
        }
    }

    /// Starts one operation: the state shows `Processing`, the in-flight
    /// slot is occupied (replacing any stale one), the freshly resolved
    /// adapter is recorded, and the returned plan says what the worker must
    /// do — with no adapter, an immediate error and no gateway call.
    pub fn dispatch(&mut self, op: DnsOperation, adapter: Option<String>) -> (plan: OperationPlan)
        ensures
            *final(self) == spec_dispatched(*old(self), adapter),
            plan_matches(plan, op, adapter),
            old(self).wf() ==> final(self).wf(),
    {
        self.app_state = AppState::Processing;
        self.pending = true;
        let plan = match &adapter {
            Some(a) => match op {
                DnsOperation::Apply(provider) => {
                    let (primary, secondary) = provider.get_servers();
                    OperationPlan::ApplyCall { adapter: a.clone(), primary, secondary }
                },
                DnsOperation::Clear => OperationPlan::ClearCall { adapter: a.clone() },
                DnsOperation::Test => OperationPlan::QueryCall { adapter: a.clone() },
            },
            None => OperationPlan::Respond(
                OperationResult::Error("No Internet Connection Found".to_owned()),
            ),
        };
        self.adapter = adapter;
        plan
    }

    /// Folds a drained result: the display state becomes the result and the
    /// in-flight slot empties; with nothing in flight the result is ignored.
    /// Returns whether the outer layer should re-query the adapter's servers
    /// (a success refreshes the derived status when an adapter is known).
    pub fn fold_result(&mut self, result: OperationResult) -> (refresh: bool)
        ensures
            *final(self) == spec_folded(*old(self), result),
            refresh == (old(self).pending && (result matches OperationResult::Success(_)) && (
            old(self).adapter matches Option::Some(_))),
            old(self).wf() ==> final(self).wf(),
    {
        if !self.pending {
            return false;
        }
        self.pending = false;
        let refresh = match (&result, &self.adapter) {
            (OperationResult::Success(_), Some(_)) => true,
            _ => false,
        };
        self.app_state = match result {
            OperationResult::Success(m) => AppState::Success(m),
            OperationResult::Error(m) => AppState::Error(m),
            OperationResult::Warning(m) => AppState::Warning(m),
        };
        refresh
    }

    /// Stores a freshly queried server list and re-derives the displayed
    /// status from it; nothing else changes.
    pub fn refresh_dns(&mut self, dns: Vec<String>)
        ensures
            *final(self) == (DnsCore {
                dns: dns,
                dns_state: final(self).dns_state,
                ..*old(self)
            }),
            dns_state_matches(final(self).dns_state, dns@),
            old(self).wf() ==> final(self).wf(),
    {
        self.dns_state = derive_dns_state(&dns);
        self.dns = dns;
    }
}

/// Exactly one result is folded per dispatch: after a dispatch, folding one
/// result reaches a terminal display state and empties the in-flight slot,
/// and folding any further result leaves the state untouched.
pub proof fn lemma_one_fold_per_dispatch(
    s: DnsCore,
    adapter: Option<String>,
    r1: OperationResult,
    r2: OperationResult,
)
    ensures
        spec_folded(spec_dispatched(s, adapter), r1).app_state == result_state(r1),
        !spec_folded(spec_dispatched(s, adapter), r1).pending,
        spec_folded(spec_folded(spec_dispatched(s, adapter), r1), r2) == spec_folded(
            spec_dispatched(s, adapter),
            r1,
        ),
{
}

/// With no adapter resolved, every operation's plan is the immediate
/// connection error: no gateway call is planned.
pub proof fn lemma_no_adapter_short_circuit(plan: OperationPlan, op: DnsOperation)
    requires
        plan_matches(plan, op, Option::None),
    ensures
        plan matches OperationPlan::Respond(r) && r matches OperationResult::Error(m) && m@
            == no_adapter_message(),
{
}

/// One sample folded into a bounded history: the oldest entry is evicted
/// once the capacity is reached.
pub open spec fn history_pushed(h: Seq<u64>, ms: u64) -> Seq<u64> {
    if h.len() >= HISTORY_CAPACITY {
        h.drop_first().push(ms)
    } else {
        h.push(ms)
    }
}

/// A run of samples folded into a history one by one, in arrival order.
pub open spec fn history_after(h: Seq<u64>, samples: Seq<u64>) -> Seq<u64>
    decreases samples.len(),
{
    if samples.len() == 0 {
        h
    } else {
        history_after(history_pushed(h, samples[0]), samples.drop_first())
    }
}

/// The bounded history keeps exactly the newest samples: folding a run into
/// a history within capacity keeps everything while it fits, and otherwise
/// exactly the newest `HISTORY_CAPACITY` elements, in arrival order.
pub proof fn lemma_history_keeps_last(h: Seq<u64>, samples: Seq<u64>)
    requires
        h.len() <= HISTORY_CAPACITY,
    ensures
        h.len() + samples.len() <= HISTORY_CAPACITY ==> history_after(h, samples) == h + samples,
        h.len() + samples.len() > HISTORY_CAPACITY ==> history_after(h, samples) == (h
            + samples).skip(h.len() + samples.len() - (HISTORY_CAPACITY as int)),
    decreases samples.len(),
{
    if samples.len() == 0 {
        assert(h + samples =~= h);
    } else {
        let s0 = samples[0];
        let rest = samples.drop_first();
        let h2 = history_pushed(h, s0);
        if h.len() < HISTORY_CAPACITY {
            lemma_history_keeps_last(h2, rest);
            assert(h2 + rest =~= h + samples);
        } else {
            lemma_history_keeps_last(h2, rest);
            assert(h2 + rest =~= (h + samples).skip(1));
            if h2.len() + rest.len() <= HISTORY_CAPACITY {
                assert(rest.len() == 0);
                assert(history_after(h, samples) == h2);
                assert(h2 =~= (h + samples).skip(
                    h.len() + samples.len() - (HISTORY_CAPACITY as int),
                ));
            } else {
                assert(history_after(h, samples) == (h2 + rest).skip(
                    h2.len() + rest.len() - (HISTORY_CAPACITY as int),
                ));
                assert((h + samples).skip(1).skip(
                    h2.len() + rest.len() - (HISTORY_CAPACITY as int),
                ) =~= (h + samples).skip(h.len() + samples.len() - (HISTORY_CAPACITY as int)));
            }
        }
    }
}

/// Feeding at least `HISTORY_CAPACITY` samples into an empty history leaves
/// exactly the last `HISTORY_CAPACITY` of them, in arrival order.
pub proof fn lemma_history_bounded(samples: Seq<u64>)
    requires
        samples.len() >= HISTORY_CAPACITY,
    ensures
        history_after(Seq::empty(), samples) == samples.skip(
            samples.len() - (HISTORY_CAPACITY as int),
        ),
        history_after(Seq::empty(), samples).len() == HISTORY_CAPACITY,
{
    let h = Seq::<u64>::empty();
    lemma_history_keeps_last(h, samples);
    if samples.len() > HISTORY_CAPACITY {
        assert((h + samples).skip(samples.len() - (HISTORY_CAPACITY as int)) =~= samples.skip(
            samples.len() - (HISTORY_CAPACITY as int),
        ));
    } else {
        assert(h + samples =~= samples);
        assert(samples.skip(0) =~= samples);
    }
}

impl DnsCore {
    /// Opens a monitoring session if none is running; idempotent. Returns
    /// whether a new probing task has to be started.
    pub fn start_monitor(&mut self) -> (started: bool)
        ensures
            started == !old(self).monitor_active,
            *final(self) == (DnsCore { monitor_active: true, ..*old(self) }),
            old(self).wf() ==> final(self).wf(),
    {
        let started = !self.monitor_active;
        self.monitor_active = true;
        started
    }

    /// Closes the monitoring session and clears the sample history; further
    /// samples are ignored until the monitor is started again.
    pub fn stop_monitor(&mut self)
        ensures
            *final(self) == (DnsCore {
                monitor_active: false,
                ping_history: final(self).ping_history,
                ..*old(self)
            }),
            final(self).ping_history@ == Seq::<u64>::empty(),
            old(self).wf() ==> final(self).wf(),
    {
        self.monitor_active = false;
        self.ping_history = Vec::new();
        proof {
            assert(self.ping_history@ =~= Seq::<u64>::empty());
        }
    }

    /// Folds one latency sample (milliseconds; zero is the no-reading
    /// sentinel) into the bounded history, evicting the oldest entry at
    /// capacity. A sample arriving while the monitor is off is dropped.
    pub fn record_sample(&mut self, ms: u64)
        ensures
            old(self).monitor_active ==> (*final(self) == (DnsCore {
                ping_history: final(self).ping_history,
                ..*old(self)
            }) && final(self).ping_history@ == history_pushed(old(self).ping_history@, ms)),
            !old(self).monitor_active ==> *final(self) == *old(self),
            old(self).wf() ==> final(self).wf(),
    {
        if !self.monitor_active {
            return;
        }
        if self.ping_history.len() >= HISTORY_CAPACITY {
            self.ping_history.remove(0);
            proof {
                assert(self.ping_history@ =~= old(self).ping_history@.drop_first());
            }
        }
        self.ping_history.push(ms);
    }
}

impl DnsCore {
    /// Records a provider picked in the selection list.
    pub fn select_provider(&mut self, provider: DnsProvider)
        ensures
            *final(self) == (DnsCore { selected_provider: provider, ..*old(self) }),
            old(self).wf() ==> final(self).wf(),
    {
        self.selected_provider = provider;
    }

    /// Stores the user-typed custom addresses.
    pub fn set_custom_input(&mut self, primary: String, secondary: String)
        ensures
            *final(self) == (DnsCore {
                custom_primary: primary,
                custom_secondary: secondary,
                ..*old(self)
            }),
            old(self).wf() ==> final(self).wf(),
    {
        self.custom_primary = primary;
        self.custom_secondary = secondary;
    }

    /// While the custom option is selected, keeps the selection's addresses
    /// in step with the edited custom fields; any other selection is left
    /// alone.
    pub fn sync_custom_selection(&mut self)
        ensures
            (old(self).selected_provider matches DnsProvider::Custom { .. }) ==> *final(self)
                == (DnsCore {
                selected_provider: DnsProvider::Custom {
                    primary: old(self).custom_primary,
                    secondary: old(self).custom_secondary,
                },
                ..*old(self)
            }),
            !(old(self).selected_provider matches DnsProvider::Custom { .. }) ==> *final(self)
                == *old(self),
            old(self).wf() ==> final(self).wf(),
    {
        match &self.selected_provider {
            DnsProvider::Custom { .. } => {
                self.selected_provider = DnsProvider::Custom {
                    primary: self.custom_primary.clone(),
                    secondary: self.custom_secondary.clone(),
                };
            },
            _ => {},
        }
    }

    /// Stores the three input fields of the add-entry form.
    pub fn set_add_inputs(&mut self, name: String, primary: String, secondary: String)
        ensures
            *final(self) == (DnsCore {
                new_name: name,
                new_primary: primary,
                new_secondary: secondary,
                ..*old(self)
            }),
            old(self).wf() ==> final(self).wf(),
    {
        self.new_name = name;
        self.new_primary = primary;
        self.new_secondary = secondary;
    }

    /// Resets the add-entry form, as when its window closes.
    pub fn clear_add_inputs(&mut self)
        ensures
            *final(self) == (DnsCore {
                new_name: final(self).new_name,
                new_primary: final(self).new_primary,
                new_secondary: final(self).new_secondary,
                add_error: Option::None,
                ..*old(self)
            }),
            final(self).new_name@.len() == 0,
            final(self).new_primary@.len() == 0,
            final(self).new_secondary@.len() == 0,
            old(self).wf() ==> final(self).wf(),
    {
        self.new_name = String::new();
        self.new_primary = String::new();
        self.new_secondary = String::new();
        self.add_error = None;
    }

    /// Validates the add-entry form against the current entries. On failure
    /// the inline error is set and nothing may be persisted; on success the
    /// validated (trimmed) entry is handed out for persistence and the
    /// inline error clears. The entry list itself never changes here.
    pub fn request_add(&mut self) -> (r: Option<SavedDnsEntry>)
        ensures
            *final(self) == (DnsCore { add_error: final(self).add_error, ..*old(self) }),
            match r {
                Option::Some(entry) => !crate::validate::name_taken(
                    old(self).saved_entries@,
                    crate::text::trimmed_view(old(self).new_name@),
                ) && crate::validate::new_entry_fields_ok(
                    old(self).new_name@,
                    old(self).new_primary@,
                    old(self).new_secondary@,
                ) && entry.name@ == crate::text::trimmed_view(old(self).new_name@)
                    && entry.primary@ == crate::text::trimmed_view(old(self).new_primary@)
                    && entry.secondary@ == crate::text::trimmed_view(old(self).new_secondary@)
                    && final(self).add_error matches Option::None,
                Option::None => {
                    let taken = crate::validate::name_taken(
                        old(self).saved_entries@,
                        crate::text::trimmed_view(old(self).new_name@),
                    );
                    &&& taken || !crate::validate::new_entry_fields_ok(
                        old(self).new_name@,
                        old(self).new_primary@,
                        old(self).new_secondary@,
                    )
                    &&& final(self).add_error matches Option::Some(m) && (taken ==> m@
                        == crate::validate::duplicate_name_message(
                        crate::text::trimmed_view(old(self).new_name@),
                    )) && (!taken ==> m@ == crate::validate::invalid_fields_message())
                },
            },
            old(self).wf() ==> final(self).wf(),
    {
        let outcome = crate::validate::validate_new_entry(
            self.new_name.as_str(),
            self.new_primary.as_str(),
            self.new_secondary.as_str(),
            &self.saved_entries,
        );
        match outcome {
            Ok(entry) => {
                self.add_error = None;
                Some(entry)
            },
            Err(m) => {
                self.add_error = Some(m);
                None
            },
        }
    }

    /// Folds the persistence outcome of a validated entry back in. Failure
    /// surfaces inline and leaves the in-memory list untouched; only a
    /// successful persist appends the entry, selects it, reports success,
    /// and resets the form.
    pub fn complete_add(&mut self, entry: SavedDnsEntry, persisted: Result<(), String>)
        ensures
            persisted matches Result::Err(e) ==> (*final(self) == (DnsCore {
                add_error: final(self).add_error,
                ..*old(self)
            }) && (final(self).add_error matches Option::Some(m) && m@ == "Failed to save DNS: "@
                + e@)),
            persisted matches Result::Ok(_) ==> (*final(self) == (DnsCore {
                saved_entries: final(self).saved_entries,
                selected_provider: final(self).selected_provider,
                app_state: final(self).app_state,
                new_name: final(self).new_name,
                new_primary: final(self).new_primary,
                new_secondary: final(self).new_secondary,
                add_error: Option::None,
                ..*old(self)
            }) && final(self).saved_entries@ == old(self).saved_entries@.push(entry)
                && final(self).selected_provider == (DnsProvider::Saved {
                name: entry.name,
                primary: entry.primary,
                secondary: entry.secondary,
            }) && (final(self).app_state matches AppState::Success(m) && m@
                == "DNS saved successfully!"@) && final(self).new_name@.len() == 0
                && final(self).new_primary@.len() == 0 && final(self).new_secondary@.len() == 0),
            old(self).wf() ==> final(self).wf(),
            crate::store::names_unique(old(self).saved_entries@) && !crate::validate::name_taken(
                old(self).saved_entries@,
                crate::text::trimmed_view(entry.name@),
            ) ==> crate::store::names_unique(final(self).saved_entries@),
    {
        proof {
            if crate::store::names_unique(self.saved_entries@) && !crate::validate::name_taken(
                self.saved_entries@,
                crate::text::trimmed_view(entry.name@),
            ) {
                crate::store::lemma_add_keeps_names_unique(self.saved_entries@, entry);
            }
        }
        match persisted {
            Ok(_) => {
                self.saved_entries.push(entry.duplicate());
                self.selected_provider = DnsProvider::Saved {
                    name: entry.name,
                    primary: entry.primary,
                    secondary: entry.secondary,
                };
                self.app_state = AppState::Success("DNS saved successfully!".to_owned());
                self.new_name = String::new();
                self.new_primary = String::new();
                self.new_secondary = String::new();
                self.add_error = None;
            },
            Err(e) => {
                let mut m = "Failed to save DNS: ".to_owned();
                m.append(e.as_str());
                self.add_error = Some(m);
            },
        }
    }

    /// Folds the persistence outcome of a deletion back in. Failure surfaces
    /// as an error and leaves the in-memory list untouched, so store and
    /// memory never diverge; success removes the entry, reports it, and
    /// falls back to the default provider when the deleted entry was the
    /// selected one.
    pub fn complete_delete(&mut self, name: &str, persisted: Result<(), String>)
        ensures
            persisted matches Result::Err(e) ==> (*final(self) == (DnsCore {
                app_state: final(self).app_state,
                ..*old(self)
            }) && (final(self).app_state matches AppState::Error(m) && m@
                == "Failed to delete DNS: "@ + e@)),
            persisted matches Result::Ok(_) ==> (*final(self) == (DnsCore {
                saved_entries: final(self).saved_entries,
                selected_provider: final(self).selected_provider,
                app_state: final(self).app_state,
                ..*old(self)
            }) && final(self).saved_entries@ == crate::store::without_name(
                old(self).saved_entries@,
                name@,
            ) && (final(self).app_state matches AppState::Success(m) && m@
                == "DNS entry deleted"@) && (if selected_named(old(self).selected_provider, name@) {
                final(self).selected_provider matches DnsProvider::Electro { primary, secondary }
                    && primary@ == "78.157.42.100"@ && secondary@ == "78.157.42.101"@
            } else {
                final(self).selected_provider == old(self).selected_provider
            })),
            old(self).wf() ==> final(self).wf(),
            crate::store::names_unique(old(self).saved_entries@) ==> crate::store::names_unique(
                final(self).saved_entries@,
            ),
    {
        proof {
            if crate::store::names_unique(self.saved_entries@) {
                crate::store::lemma_delete_keeps_names_unique(self.saved_entries@, name@);
            }
        }
        match persisted {
            Ok(_) => {
                crate::store::delete_saved_dns(&mut self.saved_entries, name);
                let fall_back = match &self.selected_provider {
                    DnsProvider::Saved { name: sel, .. } => crate::text::str_eq(
                        sel.as_str(),
                        name,
                    ),
                    _ => false,
                };
                if fall_back {
                    self.selected_provider = DnsProvider::electro();
                }
                self.app_state = AppState::Success("DNS entry deleted".to_owned());
            },
            Err(e) => {
                let mut m = "Failed to delete DNS: ".to_owned();
                m.append(e.as_str());
                self.app_state = AppState::Error(m);
            },
        }
    }
}

/// Whether the provider is a saved entry with exactly this name.
pub open spec fn selected_named(provider: DnsProvider, name: Seq<char>) -> bool {
    provider matches DnsProvider::Saved { name: sel, .. } && sel@ == name
}

/// The outcome of an apply call: the gateway's error verbatim, or a fixed
/// confirmation.
pub fn apply_outcome(result: Result<(), String>) -> (r: OperationResult)
    ensures
        match result {
            Result::Ok(_) => r matches OperationResult::Success(m) && m@
                == "DNS applied successfully"@,
            Result::Err(e) => r == OperationResult::Error(e),
        },
{
    match result {
        Ok(_) => OperationResult::Success("DNS applied successfully".to_owned()),
        Err(e) => OperationResult::Error(e),
    }
}

/// The outcome of a clear call: the gateway's error verbatim, or a fixed
/// confirmation.
pub fn clear_outcome(result: Result<(), String>) -> (r: OperationResult)
    ensures
        match result {
            Result::Ok(_) => r matches OperationResult::Success(m) && m@
                == "DNS cleared successfully"@,
            Result::Err(e) => r == OperationResult::Error(e),
        },
{
    match result {
        Ok(_) => OperationResult::Success("DNS cleared successfully".to_owned()),
        Err(e) => OperationResult::Error(e),
    }
}

/// The outcome of a query: an empty list is a warning, never an error; a
/// non-empty list succeeds, naming the servers comma-joined.
pub fn test_outcome(dns: &Vec<String>) -> (r: OperationResult)
    ensures
        dns@.len() == 0 ==> (r matches OperationResult::Warning(m) && m@
            == "No DNS servers configured"@),
        dns@.len() > 0 ==> (r matches OperationResult::Success(m) && m@
            == "DNS test successful: "@ + join_view(views_of(dns@), ", "@)),
{
    if dns.len() == 0 {
        OperationResult::Warning("No DNS servers configured".to_owned())
    } else {
        let mut m = "DNS test successful: ".to_owned();
        let joined = join_with(dns, ", ");
        m.append(joined.as_str());
        OperationResult::Success(m)
    }
}

} // verus!
