//! The address negotiator.
//!
//! Every device boots on the same factory bus address, so the devices are
//! released from reset strictly one at a time: power one slot on, wait the
//! boot delay, reassign its address on the factory default, and only then
//! release the next. The caller-given slot order is the only mechanism that
//! keeps two identically-addressed devices from answering at once, so
//! [`negotiate`] records the exact step trace it performed and its contract
//! proves the bring-up invariant over every prefix of that trace: at no
//! point are two powered slots without an assigned address.
//!
//! The address-change transactions themselves are performed by the caller's
//! bus capability; their per-slot outcomes enter as the `outcomes` argument.
//! If any transaction fails, negotiation fails atomically: it reports the
//! offending slot and leaves every slot powered off.

use vstd::prelude::*;

use crate::mode::{initial_config, ModeTag, SensorHandle};
use crate::power::{DeviceSlot, DEFAULT_ADDRESS};

verus! {

/// One observable action of the negotiation protocol.
#[derive(Clone, Copy, Debug, PartialEq, Eq, Structural)]
pub enum Step {
    /// The slot was released from reset.
    PowerOn(usize),
    /// The boot-settle wait after a power-on.
    WaitBoot,
    /// An address-change transaction on the factory default address:
    /// slot, requested address, and whether the transaction succeeded.
    AddressChange(usize, u8, bool),
    /// The slot was driven back into reset.
    PowerOff(usize),
}

/// Negotiation failed while reassigning `slot` to `address`.
#[derive(Clone, Copy, Debug, PartialEq, Eq, Structural)]
pub struct NegotiationError {
    pub slot: usize,
    pub address: u8,
}

/// Which slots are powered after replaying `tr` from all-off.
pub open spec fn powered_after(n: nat, tr: Seq<Step>) -> Seq<bool>
    decreases tr.len(),
{
    if tr.len() == 0 {
        Seq::new(n, |i: int| false)
    } else {
        let prev = powered_after(n, tr.drop_last());
        match tr.last() {
            Step::PowerOn(i) => if (i as int) < n {
                prev.update(i as int, true)
            } else {
                prev
            },
            Step::PowerOff(i) => if (i as int) < n {
                prev.update(i as int, false)
            } else {
                prev
            },
            _ => prev,
        }
    }
}

/// Which slots hold an assigned address after replaying `tr` from
/// all-unassigned. A successful address change assigns; powering off resets
/// the device, which forgets the address.
pub open spec fn addressed_after(n: nat, tr: Seq<Step>) -> Seq<bool>
    decreases tr.len(),
{
    if tr.len() == 0 {
        Seq::new(n, |i: int| false)
    } else {
        let prev = addressed_after(n, tr.drop_last());
        match tr.last() {
            Step::AddressChange(i, _a, ok) => if ok && (i as int) < n {
                prev.update(i as int, true)
            } else {
                prev
            },
            Step::PowerOff(i) => if (i as int) < n {
                prev.update(i as int, false)
            } else {
                prev
            },
            _ => prev,
        }
    }
}

/// No two distinct slots are simultaneously powered while still answering on
/// the factory default address.
pub open spec fn at_most_one_unaddressed_powered(p: Seq<bool>, a: Seq<bool>) -> bool {
    forall|x: int, y: int| #![trigger p[x], p[y]]
        0 <= x < p.len() && 0 <= y < p.len() && p[x] && !a[x] && p[y] && !a[y] ==> x == y
}

/// The bring-up invariant holds after every prefix of the trace.
pub open spec fn trace_safe(n: nat, tr: Seq<Step>) -> bool {
    forall|t: int| 0 <= t <= tr.len() ==> at_most_one_unaddressed_powered(
        powered_after(n, #[trigger] tr.take(t)),
        addressed_after(n, tr.take(t)),
    )
}

/// The steps that successfully bring up slots `0 .. k`: for each in order,
/// power on, boot wait, successful address change.
pub open spec fn bring_up_trace(addrs: Seq<u8>, k: int) -> Seq<Step>
    decreases k,
{
    if k <= 0 {
        Seq::empty()
    } else {
        bring_up_trace(addrs, k - 1) + seq![
            Step::PowerOn((k - 1) as usize),
            Step::WaitBoot,
            Step::AddressChange((k - 1) as usize, addrs[k - 1], true),
        ]
    }
}

/// The steps that power slots `0 .. m` back off, in slot order.
pub open spec fn shutdown_trace(m: int) -> Seq<Step>
    decreases m,
{
    if m <= 0 {
        Seq::empty()
    } else {
        shutdown_trace(m - 1).push(Step::PowerOff((m - 1) as usize))
    }
}

/// The index of the first failed address-change outcome, or the length when
/// every outcome succeeded.
pub open spec fn first_failure(outcomes: Seq<bool>) -> int
    decreases outcomes.len(),
{
    if outcomes.len() == 0 {
        0
    } else if !outcomes[0] {
        0
    } else {
        1 + first_failure(outcomes.drop_first())
    }
}

/// The full trace negotiation performs for the given outcomes: all slots
/// brought up in order, or brought up to the first failure and then every
/// touched slot powered back off.
pub open spec fn negotiation_trace(addrs: Seq<u8>, outcomes: Seq<bool>) -> Seq<Step> {
    if forall|j: int| 0 <= j < outcomes.len() ==> outcomes[j] {
        bring_up_trace(addrs, addrs.len() as int)
    } else {
        let k = first_failure(outcomes);
        bring_up_trace(addrs, k) + seq![
            Step::PowerOn(k as usize),
            Step::WaitBoot,
            Step::AddressChange(k as usize, addrs[k], false),
        ] + shutdown_trace(k + 1)
    }
}

proof fn lemma_run_len(n: nat, tr: Seq<Step>)
    ensures
        powered_after(n, tr).len() == n,
        addressed_after(n, tr).len() == n,
    decreases tr.len(),
{
    if tr.len() > 0 {
        lemma_run_len(n, tr.drop_last());
    }
}

/// How one appended step rewrites the replayed power/address state (for
/// steps whose slot index is in range).
proof fn lemma_run_push(n: nat, tr: Seq<Step>, s: Step)
    requires
        match s {
            Step::PowerOn(i) => (i as int) < n,
            Step::PowerOff(i) => (i as int) < n,
            Step::AddressChange(i, _a, _ok) => (i as int) < n,
            Step::WaitBoot => true,
        },
    ensures
        powered_after(n, tr.push(s)) == (match s {
            Step::PowerOn(i) => powered_after(n, tr).update(i as int, true),
            Step::PowerOff(i) => powered_after(n, tr).update(i as int, false),
            _ => powered_after(n, tr),
        }),
        addressed_after(n, tr.push(s)) == (match s {
            Step::AddressChange(i, _a, ok) => if ok {
                addressed_after(n, tr).update(i as int, true)
            } else {
                addressed_after(n, tr)
            },
            Step::PowerOff(i) => addressed_after(n, tr).update(i as int, false),
            _ => addressed_after(n, tr),
        }),
{
    assert(tr.push(s).drop_last() =~= tr);
    assert(tr.push(s).last() == s);
}

/// If every slot other than `i` is off or already addressed, the bring-up
/// invariant holds of the state.
proof fn lemma_only_one_live(p: Seq<bool>, a: Seq<bool>, i: int)
    requires
        p.len() == a.len(),
        forall|j: int| #![trigger p[j]] 0 <= j < p.len() && j != i ==> !p[j] || a[j],
    ensures
        at_most_one_unaddressed_powered(p, a),
{
}

/// A trace stays safe when the appended step leads to a safe state.
proof fn lemma_safe_push(n: nat, tr: Seq<Step>, s: Step)
    requires
        trace_safe(n, tr),
        at_most_one_unaddressed_powered(powered_after(n, tr.push(s)), addressed_after(n, tr.push(s))),
    ensures
        trace_safe(n, tr.push(s)),
{
    let tr2 = tr.push(s);
    assert forall|t: int| 0 <= t <= tr2.len() implies at_most_one_unaddressed_powered(
        powered_after(n, #[trigger] tr2.take(t)),
        addressed_after(n, tr2.take(t)),
    ) by {
        if t <= tr.len() {
            assert(tr2.take(t) =~= tr.take(t));
            assert(at_most_one_unaddressed_powered(
                powered_after(n, tr.take(t)),
                addressed_after(n, tr.take(t)),
            ));
        } else {
            assert(tr2.take(t) =~= tr2);
        }
    }
}

proof fn lemma_first_failure_all_ok(outcomes: Seq<bool>)
    requires
        forall|j: int| 0 <= j < outcomes.len() ==> outcomes[j],
    ensures
        first_failure(outcomes) == outcomes.len(),
    decreases outcomes.len(),
{
    if outcomes.len() > 0 {
        assert(outcomes[0]);
        let rest = outcomes.drop_first();
        assert forall|j: int| 0 <= j < rest.len() implies rest[j] by {
            assert(rest[j] == outcomes[j + 1]);
        }
        lemma_first_failure_all_ok(rest);
    }
}

proof fn lemma_first_failure_at(outcomes: Seq<bool>, k: int)
    requires
        0 <= k < outcomes.len(),
        !outcomes[k],
        forall|j: int| 0 <= j < k ==> outcomes[j],
    ensures
        first_failure(outcomes) == k,
    decreases k,
{
    if k > 0 {
        assert(outcomes[0]);
        let rest = outcomes.drop_first();
        assert(!rest[k - 1]);
        assert forall|j: int| 0 <= j < k - 1 implies rest[j] by {
            assert(rest[j] == outcomes[j + 1]);
        }
        lemma_first_failure_at(rest, k - 1);
    }
}

/// Law (unique addresses): handles whose addresses equal the requested ones
/// — as [`negotiate`] ensures on success — carry pairwise distinct
/// addresses, because the requested addresses are required to be pairwise
/// distinct.
pub proof fn lemma_negotiated_addresses_distinct(addrs: Seq<u8>, hs: Seq<SensorHandle>)
    requires
        hs.len() == addrs.len(),
        forall|i: int| 0 <= i < hs.len() ==> #[trigger] hs[i].address == addrs[i],
        forall|i: int, j: int| 0 <= i < j < addrs.len() ==> addrs[i] != addrs[j],
    ensures
        forall|i: int, j: int| 0 <= i < j < hs.len() ==> hs[i].address != hs[j].address,
{
}

/// Bring up every slot in the caller-given order, reassigning each the
/// requested unique address, or fail atomically.
///
/// `outcomes[i]` is the result the caller's bus capability produced for slot
/// `i`'s address-change transaction (consulted in slot order; entries past
/// the first failure are never reached). On success every slot is left
/// powered on under its new address and a `Ready` handle per slot is
/// returned; on the first failure the error names the offending slot and
/// every slot is left powered off. The returned trace lists each action in
/// order, and `trace_safe` states the bring-up invariant over all its
/// prefixes: never two powered, still-unaddressed slots.
pub fn negotiate(slots: &mut Vec<DeviceSlot>, addresses: &Vec<u8>, outcomes: &Vec<bool>) -> (r: (
    Result<Vec<SensorHandle>, NegotiationError>,
    Vec<Step>,
))
    requires
        old(slots).len() == addresses.len(),
        outcomes.len() == addresses.len(),
        forall|i: int| 0 <= i < old(slots).len() ==> old(slots)@[i] == (DeviceSlot {
            powered: false,
            address: None::<u8>,
        }),
        forall|i: int| 0 <= i < addresses.len() ==> addresses@[i] != DEFAULT_ADDRESS,
        forall|i: int, j: int| 0 <= i < j < addresses.len() ==> addresses@[i] != addresses@[j],
    ensures
        final(slots).len() == old(slots).len(),
        r.1@ == negotiation_trace(addresses@, outcomes@),
        trace_safe(addresses@.len(), r.1@),
        first_failure(outcomes@) == addresses@.len() ==> (r.0 matches Ok(hs) && hs@.len()
            == addresses@.len() && (forall|i: int| 0 <= i < addresses@.len() ==> hs@[i]
            == (SensorHandle {
            slot: i as usize,
            address: addresses@[i],
            mode: ModeTag::Ready,
            device_flag: false,
            config: initial_config(),
        })) && (forall|i: int| 0 <= i < addresses@.len() ==> final(slots)@[i] == (DeviceSlot {
            powered: true,
            address: Some(addresses@[i]),
        }))),
        first_failure(outcomes@) < addresses@.len() ==> (r.0 matches Err(e) && e
            == (NegotiationError {
            slot: first_failure(outcomes@) as usize,
            address: addresses@[first_failure(outcomes@)],
        }) && (forall|i: int| 0 <= i < addresses@.len() ==> final(slots)@[i] == (DeviceSlot {
            powered: false,
            address: None::<u8>,
        }))),
{
    let n = addresses.len();
    let mut trace: Vec<Step> = Vec::new();
    proof {
        assert(trace@ =~= Seq::<Step>::empty());
        assert(trace@.take(0) =~= trace@);
        lemma_run_len(n as nat, trace@);
        lemma_only_one_live(powered_after(n as nat, trace@), addressed_after(n as nat, trace@), -1);
    }
    let mut i: usize = 0;
    while i < n
        invariant
            i <= n,
            n == addresses.len(),
            n == outcomes.len(),
            n == slots.len(),
            n == old(slots).len(),
            forall|j: int| 0 <= j < i ==> outcomes@[j],
            trace@ == bring_up_trace(addresses@, i as int),
            forall|j: int| 0 <= j < i ==> slots@[j] == (DeviceSlot {
                powered: true,
                address: Some(addresses@[j]),
            }),
            forall|j: int| i <= j < n ==> slots@[j] == (DeviceSlot {
                powered: false,
                address: None::<u8>,
            }),
            powered_after(n as nat, trace@).len() == n,
            addressed_after(n as nat, trace@).len() == n,
            forall|j: int| 0 <= j < n ==> powered_after(n as nat, trace@)[j] == slots@[j].powered,
            forall|j: int| 0 <= j < n ==> addressed_after(n as nat, trace@)[j] == (
            slots@[j].address is Some),
            trace_safe(n as nat, trace@),
        decreases n - i,
    {
        let ghost tr0 = trace@;
        let mut s = slots[i];
        s.power_on();
        slots[i] = s;
        trace.push(Step::PowerOn(i));
        proof {
            lemma_run_push(n as nat, tr0, Step::PowerOn(i));
            lemma_only_one_live(
                powered_after(n as nat, trace@),
                addressed_after(n as nat, trace@),
                i as int,
            );
            lemma_safe_push(n as nat, tr0, Step::PowerOn(i));
        }
        let ghost tr1 = trace@;
        trace.push(Step::WaitBoot);
        proof {
            lemma_run_push(n as nat, tr1, Step::WaitBoot);
            lemma_only_one_live(
                powered_after(n as nat, trace@),
                addressed_after(n as nat, trace@),
                i as int,
            );
            lemma_safe_push(n as nat, tr1, Step::WaitBoot);
        }
        if outcomes[i] {
            let ghost tr2 = trace@;
            let mut s2 = slots[i];
            s2.assign_address(addresses[i]);
            slots[i] = s2;
            trace.push(Step::AddressChange(i, addresses[i], true));
            proof {
                lemma_run_push(n as nat, tr2, Step::AddressChange(i, addresses@[i as int], true));
                lemma_only_one_live(
                    powered_after(n as nat, trace@),
                    addressed_after(n as nat, trace@),
                    i as int,
                );
                lemma_safe_push(n as nat, tr2, Step::AddressChange(i, addresses@[i as int], true));
                assert(trace@ =~= bring_up_trace(addresses@, i as int + 1));
            }
            i += 1;
        } else {
            let ghost tr2 = trace@;
            trace.push(Step::AddressChange(i, addresses[i], false));
            proof {
                lemma_run_push(n as nat, tr2, Step::AddressChange(i, addresses@[i as int], false));
                lemma_only_one_live(
                    powered_after(n as nat, trace@),
                    addressed_after(n as nat, trace@),
                    i as int,
                );
                lemma_safe_push(n as nat, tr2, Step::AddressChange(i, addresses@[i as int], false));
                assert(trace@ =~= bring_up_trace(addresses@, i as int) + seq![
                    Step::PowerOn(i),
                    Step::WaitBoot,
                    Step::AddressChange(i, addresses@[i as int], false),
                ] + shutdown_trace(0));
            }
            let ghost failure_prefix = trace@;
            let mut j: usize = 0;
            while j <= i
                invariant
                    j <= i + 1,
                    i < n,
                    n == addresses.len(),
                    n == slots.len(),
                    n == old(slots).len(),
                    trace@ == failure_prefix + shutdown_trace(j as int),
                    forall|t: int| 0 <= t < j ==> slots@[t] == (DeviceSlot {
                        powered: false,
                        address: None::<u8>,
                    }),
                    forall|t: int| j <= t < i ==> slots@[t] == (DeviceSlot {
                        powered: true,
                        address: Some(addresses@[t]),
                    }),
                    j <= i ==> slots@[i as int] == (DeviceSlot {
                        powered: true,
                        address: None::<u8>,
                    }),
                    forall|t: int| i < t < n ==> slots@[t] == (DeviceSlot {
                        powered: false,
                        address: None::<u8>,
                    }),
                    powered_after(n as nat, trace@).len() == n,
                    addressed_after(n as nat, trace@).len() == n,
                    forall|t: int| 0 <= t < n ==> powered_after(n as nat, trace@)[t]
                        == slots@[t].powered,
                    forall|t: int| 0 <= t < n ==> addressed_after(n as nat, trace@)[t] == (
                    slots@[t].address is Some),
                    trace_safe(n as nat, trace@),
                decreases i + 1 - j,
            {
                let ghost tr3 = trace@;
                let mut s3 = slots[j];
                s3.power_off();
                slots[j] = s3;
                trace.push(Step::PowerOff(j));
                proof {
                    lemma_run_push(n as nat, tr3, Step::PowerOff(j));
                    lemma_only_one_live(
                        powered_after(n as nat, trace@),
                        addressed_after(n as nat, trace@),
                        i as int,
                    );
                    lemma_safe_push(n as nat, tr3, Step::PowerOff(j));
                    assert(shutdown_trace(j as int + 1) == shutdown_trace(j as int).push(
                        Step::PowerOff(j),
                    ));
                    assert(trace@ =~= failure_prefix + shutdown_trace(j as int + 1));
                }
                j += 1;
            }
            proof {
                lemma_first_failure_at(outcomes@, i as int);
                assert(!(forall|jj: int| 0 <= jj < outcomes@.len() ==> outcomes@[jj]));
                assert(trace@ =~= negotiation_trace(addresses@, outcomes@));
            }
            return (
                Err(NegotiationError { slot: i, address: addresses[i] }),
                trace,
            );
        }
    }
    proof {
        lemma_first_failure_all_ok(outcomes@);
    }
    let mut handles: Vec<SensorHandle> = Vec::new();
    let mut k: usize = 0;
    while k < n
        invariant
            k <= n,
            n == addresses.len(),
            handles@.len() == k,
            forall|j: int| 0 <= j < k ==> handles@[j] == (SensorHandle {
                slot: j as usize,
                address: addresses@[j],
                mode: ModeTag::Ready,
                device_flag: false,
                config: initial_config(),
            }),
        decreases n - k,
    {
        handles.push(SensorHandle::new(k, addresses[k]));
        k += 1;
    }
    (Ok(handles), trace)
}

} // verus!
