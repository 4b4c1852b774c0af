use crate::model::{spec_is_terminal, spec_settlement_ready, settlement_ready, is_terminal_status,
    ChargeRecord, SettlementRecord};
use crate::poller::{run_poll, spec_poll_reaches, spec_poll_stops_at};
use crate::settings::PaymentSettings;
use crate::text::str_eq;
use vstd::prelude::*;

verus! {

/// Terminal-status flags of the phase-one observations: the created
/// charge first, then one refetched copy per attempt.
pub open spec fn spec_phase1_flags(
    initial: ChargeRecord,
    refetched: Seq<ChargeRecord>,
    max: int,
) -> Seq<bool> {
    Seq::new(
        (max + 1) as nat,
        |i: int|
            if i == 0 {
                spec_is_terminal(initial.status@)
            } else {
                spec_is_terminal(refetched[i - 1].status@)
            },
    )
}

/// The status observed at phase-one observation `i`.
pub open spec fn spec_phase1_status(
    initial: ChargeRecord,
    refetched: Seq<ChargeRecord>,
    i: int,
) -> Seq<char> {
    if i == 0 {
        initial.status@
    } else {
        refetched[i - 1].status@
    }
}

/// Readiness flags of the phase-two observations, one per expanded fetch.
pub open spec fn spec_phase2_flags(expanded: Seq<ChargeRecord>, n: int) -> Seq<bool> {
    Seq::new(n as nat, |i: int| spec_settlement_ready(expanded[i]))
}

/// Phase two evaluates one fetch per attempt; its first fetch plays the
/// role of the initial observation, so its refetch budget is one less
/// than `max_attempts`, and never negative.
pub open spec fn spec_phase2_budget(max_attempts: int) -> int {
    if max_attempts == 0 {
        0
    } else {
        max_attempts - 1
    }
}

/// Total seconds slept: one interval per sleep, saturating at the
/// largest representable value.
pub open spec fn spec_wait_seconds(sleeps: nat, interval: nat) -> nat {
    if sleeps * interval <= u64::MAX as nat {
        sleeps * interval
    } else {
        u64::MAX as nat
    }
}

/// Multiplies a sleep count by the per-sleep interval, saturating.
pub fn wait_seconds_of(sleeps: u64, interval: u64) -> (r: u64)
    ensures
        r as nat == spec_wait_seconds(sleeps as nat, interval as nat),
{
    proof {
        assert((sleeps as u128) * (interval as u128) <= u128::MAX) by (nonlinear_arith)
            requires
                sleeps <= u64::MAX,
                interval <= u64::MAX,
        ;
    }
    let p: u128 = (sleeps as u128) * (interval as u128);
    if p > (u64::MAX as u128) {
        u64::MAX
    } else {
        p as u64
    }
}

/// What one whole run of the two-phase flow reported.
#[derive(Debug)]
pub struct FlowReport {
    /// The status of the charge when phase one stopped.
    pub final_status: String,
    /// Sleeps phase one performed, one interval each.
    pub phase1_sleeps: u32,
    /// Seconds phase one slept before the flow went on.
    pub phase1_wait_seconds: u64,
    /// Phase two ran: phase one ended in a confirmed charge.
    pub ran_settlement_wait: bool,
    /// Phase two observed an available settlement.
    pub settlement_found: bool,
    /// The settlement carried by the observation that satisfied the
    /// readiness predicate.
    pub settlement: Option<SettlementRecord>,
    /// Expanded fetches phase two performed.
    pub phase2_fetches: u32,
    /// Sleeps phase two performed.
    pub phase2_sleeps: u32,
    /// Seconds slept over both phases, saturating.
    pub wait_seconds: u64,
}

/// Everything `run_flow` promises of its report, over the given
/// observations.
pub open spec fn spec_flow_report_ok(
    initial: ChargeRecord,
    refetched: Seq<ChargeRecord>,
    expanded: Seq<ChargeRecord>,
    settings: PaymentSettings,
    r: FlowReport,
) -> bool {
    let max = settings.max_attempts as int;
    let flags1 = spec_phase1_flags(initial, refetched, max);
    let budget2 = spec_phase2_budget(max);
    let flags2 = spec_phase2_flags(expanded, budget2 + 1);
    &&& exists|i: int|
        #![auto]
        spec_poll_stops_at(flags1, max, i) && r.final_status@ == spec_phase1_status(
            initial,
            refetched,
            i,
        ) && r.phase1_sleeps == i
    &&& r.ran_settlement_wait == (r.final_status@ == "succeeded"@)
    &&& (if r.ran_settlement_wait {
        &&& r.settlement_found == spec_poll_reaches(flags2, budget2)
        &&& exists|j: int|
            #![auto]
            spec_poll_stops_at(flags2, budget2, j) && r.phase2_sleeps == j && r.phase2_fetches == j
                + 1 && (r.settlement_found ==> spec_settlement_ready(expanded[j]) && r.settlement
                == expanded[j].settlement)
        &&& (!r.settlement_found ==> r.settlement is None)
    } else {
        &&& r.settlement_found == false
        &&& r.settlement is None
        &&& r.phase2_fetches == 0
        &&& r.phase2_sleeps == 0
    })
    &&& r.phase1_wait_seconds as nat == spec_wait_seconds(
        r.phase1_sleeps as nat,
        settings.check_interval as nat,
    )
    &&& r.wait_seconds as nat == spec_wait_seconds(
        (r.phase1_sleeps + r.phase2_sleeps) as nat,
        settings.check_interval as nat,
    )
}

/// Runs the whole two-phase flow over already-given observations: the
/// created charge, the copies phase one would refetch, and the expanded
/// copies phase two would fetch.  Phase one polls until the status is
/// terminal; phase two runs only on a confirmed charge and polls until
/// the settlement is available.  Exhaustion of either budget is a normal
/// reported outcome, not an error.
#[verifier::rlimit(60)]
pub fn run_flow(
    initial: ChargeRecord,
    refetched: Vec<ChargeRecord>,
    mut expanded: Vec<ChargeRecord>,
    settings: &PaymentSettings,
) -> (r: FlowReport)
    requires
        refetched@.len() >= settings.max_attempts,
        expanded@.len() >= 1,
        expanded@.len() >= settings.max_attempts,
    ensures
        spec_flow_report_ok(initial, refetched@, expanded@, *settings, r),
{
    let max = settings.max_attempts;
    let ghost expanded_in = expanded@;
    let ghost flags1_spec = spec_phase1_flags(initial, refetched@, max as int);

    let mut flags1: Vec<bool> = Vec::new();
    flags1.push(is_terminal_status(initial.status.as_str()));
    let mut k: usize = 0;
    while k < max as usize
        invariant
            0 <= k <= max,
            flags1@.len() == k + 1,
            refetched@.len() >= max,
            flags1_spec == spec_phase1_flags(initial, refetched@, max as int),
            forall|i: int| 0 <= i <= k as int ==> flags1@[i] == flags1_spec[i],
        decreases max as int - k as int,
    {
        flags1.push(is_terminal_status(refetched[k].status.as_str()));
        k = k + 1;
    }
    proof {
        assert(flags1@ =~= flags1_spec);
    }

    let p1 = run_poll(&flags1, max);
    let idx = p1.stop_index;
    let final_status: String = if idx == 0 {
        initial.status.clone()
    } else {
        refetched[idx - 1].status.clone()
    };
    let phase1_wait = wait_seconds_of(p1.sleeps as u64, settings.check_interval);

    proof {
        assert(spec_poll_stops_at(flags1_spec, max as int, idx as int) && final_status@
            == spec_phase1_status(initial, refetched@, idx as int) && p1.sleeps == idx as int);
    }
    let confirmed = str_eq(final_status.as_str(), "succeeded");
    if !confirmed {
        let total_wait = phase1_wait;
        let report = FlowReport {
            final_status,
            phase1_sleeps: p1.sleeps,
            phase1_wait_seconds: phase1_wait,
            ran_settlement_wait: false,
            settlement_found: false,
            settlement: None,
            phase2_fetches: 0,
            phase2_sleeps: 0,
            wait_seconds: total_wait,
        };
        proof {
            assert(spec_flow_report_ok(initial, refetched@, expanded@, *settings, report));
        }
        return report;
    }

    let budget2: u32 = if max == 0 {
        0
    } else {
        max - 1
    };
    let n2: usize = budget2 as usize + 1;
    let ghost flags2_spec = spec_phase2_flags(expanded@, budget2 as int + 1);

    let mut flags2: Vec<bool> = Vec::new();
    let mut k2: usize = 0;
    while k2 < n2
        invariant
            0 <= k2 <= n2,
            n2 == budget2 as int + 1,
            flags2@.len() == k2,
            expanded@.len() >= n2,
            flags2_spec == spec_phase2_flags(expanded@, budget2 as int + 1),
            forall|i: int| 0 <= i < k2 as int ==> flags2@[i] == flags2_spec[i],
        decreases n2 - k2,
    {
        flags2.push(settlement_ready(&expanded[k2]));
        k2 = k2 + 1;
    }
    proof {
        assert(flags2@ =~= flags2_spec);
    }

    let p2 = run_poll(&flags2, budget2);
    let j = p2.stop_index;
    let settlement: Option<SettlementRecord> = if p2.reached {
        let rec = expanded.remove(j);
        rec.settlement
    } else {
        None
    };
    let total_wait = wait_seconds_of(p1.sleeps as u64 + p2.sleeps as u64, settings.check_interval);
    proof {
        assert(spec_poll_stops_at(flags2_spec, budget2 as int, j as int) && p2.sleeps == j as int);
    }

    let report = FlowReport {
        final_status,
        phase1_sleeps: p1.sleeps,
        phase1_wait_seconds: phase1_wait,
        ran_settlement_wait: true,
        settlement_found: p2.reached,
        settlement,
        phase2_fetches: p2.sleeps + 1,
        phase2_sleeps: p2.sleeps,
        wait_seconds: total_wait,
    };
    proof {
        let maxi = settings.max_attempts as int;
        let budget2i = spec_phase2_budget(maxi);
        assert(budget2 as int == budget2i);
        let flags2s = spec_phase2_flags(expanded_in, budget2i + 1);
        assert(flags2_spec == flags2s);
        assert(report.settlement_found == spec_poll_reaches(flags2s, budget2i));
        assert(spec_poll_stops_at(flags2s, budget2i, j as int));
        assert(report.phase2_sleeps == j as int);
        assert(report.phase2_fetches == j as int + 1);
        assert(report.settlement_found ==> spec_settlement_ready(expanded_in[j as int]));
        assert(report.settlement_found ==> report.settlement == expanded_in[j as int].settlement);
        assert(report.ran_settlement_wait == (report.final_status@ == "succeeded"@));
        assert(spec_flow_report_ok(initial, refetched@, expanded_in, *settings, report));
    }
    report
}

/// Law: the settlement wait never runs when phase one does not end in a
/// confirmed charge, and then no expanded fetch and no second-phase
/// sleep happens at all.
pub proof fn lemma_no_settlement_wait_without_success(
    initial: ChargeRecord,
    refetched: Seq<ChargeRecord>,
    expanded: Seq<ChargeRecord>,
    settings: PaymentSettings,
    r: FlowReport,
)
    requires
        spec_flow_report_ok(initial, refetched, expanded, settings, r),
        r.final_status@ != "succeeded"@,
    ensures
        !r.ran_settlement_wait,
        r.phase2_fetches == 0,
        r.phase2_sleeps == 0,
        r.settlement is None,
        !r.settlement_found,
{
}

/// Law: sleeps happen only between non-terminal observations, so a
/// charge that is already terminal when created costs phase one neither
/// a sleep nor a fetch.
pub proof fn lemma_terminal_on_arrival_waits_not_at_all(
    initial: ChargeRecord,
    refetched: Seq<ChargeRecord>,
    expanded: Seq<ChargeRecord>,
    settings: PaymentSettings,
    r: FlowReport,
)
    requires
        spec_flow_report_ok(initial, refetched, expanded, settings, r),
        spec_is_terminal(initial.status@),
    ensures
        r.phase1_sleeps == 0,
        r.phase1_wait_seconds == 0,
        r.final_status@ == initial.status@,
{
    let max = settings.max_attempts as int;
    let flags1 = spec_phase1_flags(initial, refetched, max);
    assert(flags1[0]);
    let i = choose|i: int|
        #![auto]
        spec_poll_stops_at(flags1, max, i) && r.final_status@ == spec_phase1_status(
            initial,
            refetched,
            i,
        ) && r.phase1_sleeps == i;
    assert(spec_poll_reaches(flags1, max));
    assert(i == 0);
    assert(0nat * (settings.check_interval as nat) == 0) by (nonlinear_arith);
}

/// Law: a phase one that ends in `failed` or `canceled` skips the
/// settlement wait.
pub proof fn lemma_failed_or_canceled_skips_settlement(
    initial: ChargeRecord,
    refetched: Seq<ChargeRecord>,
    expanded: Seq<ChargeRecord>,
    settings: PaymentSettings,
    r: FlowReport,
)
    requires
        spec_flow_report_ok(initial, refetched, expanded, settings, r),
        r.final_status@ == "failed"@ || r.final_status@ == "canceled"@,
    ensures
        !r.ran_settlement_wait,
        r.phase2_fetches == 0,
        r.settlement is None,
{
    reveal_strlit("failed");
    reveal_strlit("canceled");
    reveal_strlit("succeeded");
    assert("failed"@.len() == 6);
    assert("canceled"@.len() == 8);
    assert("succeeded"@.len() == 9);
    assert(r.final_status@ != "succeeded"@);
    lemma_no_settlement_wait_without_success(initial, refetched, expanded, settings, r);
}

/// Law: a phase one that exhausts its attempts without ever observing a
/// terminal status skips the settlement wait.
pub proof fn lemma_exhaustion_skips_settlement(
    initial: ChargeRecord,
    refetched: Seq<ChargeRecord>,
    expanded: Seq<ChargeRecord>,
    settings: PaymentSettings,
    r: FlowReport,
)
    requires
        spec_flow_report_ok(initial, refetched, expanded, settings, r),
        !spec_poll_reaches(
            spec_phase1_flags(initial, refetched, settings.max_attempts as int),
            settings.max_attempts as int,
        ),
    ensures
        !r.ran_settlement_wait,
        r.phase2_fetches == 0,
        r.settlement is None,
{
    let max = settings.max_attempts as int;
    let flags1 = spec_phase1_flags(initial, refetched, max);
    let i = choose|i: int|
        #![auto]
        spec_poll_stops_at(flags1, max, i) && r.final_status@ == spec_phase1_status(
            initial,
            refetched,
            i,
        ) && r.phase1_sleeps == i;
    assert(i == max);
    assert(!flags1[max]);
    assert(!spec_is_terminal(r.final_status@));
    lemma_no_settlement_wait_without_success(initial, refetched, expanded, settings, r);
}

} // verus!
