//! Device discovery: the bounded-retry state machine that enumerates
//! connected devices, and the pure halves of the per-device property
//! resolution (model, brand, API level, user roster).
//!
//! The caller owns the transport: it queries the device list, hands each
//! observation to [`discovery_step`], and performs the delay the returned
//! action asks for. An empty final list is the failure signal; no error is
//! raised.

use vstd::prelude::*;
use vstd::string::StringExecFns;

use crate::model::Phone;
use crate::model::User;
use crate::strings::contains_seq;
use crate::strings::contains_sub;
use crate::strings::parse_u8_digits;
use crate::strings::parse_u8_spec;
use crate::strings::spec_trim;
use crate::strings::str_eq;
use crate::strings::trim_str;

verus! {

/// Resolve the device model from the queried `ro.product.model` property.
/// On a query failure the error text itself is shown, shortened to a fixed
/// note when it is the no-devices report.
pub fn get_device_model(prop: &Result<String, String>) -> (r: String)
    ensures
        prop matches Result::Ok(m) ==> r@ == m@,
        prop matches Result::Err(e) ==> r@ == (if contains_seq(
            e@,
            "adb: no devices/emulators found"@,
        ) {
            "no devices/emulators found"@
        } else {
            e@
        }),
{
    match prop {
        Result::Ok(m) => m.clone(),
        Result::Err(e) => {
            if contains_sub(e.as_str(), "adb: no devices/emulators found") {
                String::from_str("no devices/emulators found")
            } else {
                e.clone()
            }
        },
    }
}

/// Resolve the device brand from the queried `ro.product.brand` property:
/// the trimmed text, or empty on a query failure.
pub fn get_device_brand(prop: &Result<String, String>) -> (r: String)
    ensures
        prop matches Result::Ok(b) ==> r@ == spec_trim(b@),
        prop is Err ==> r@ == Seq::<char>::empty(),
{
    match prop {
        Result::Ok(b) => trim_str(b.as_str()),
        Result::Err(_) => String::new(),
    }
}

/// Resolve the Android SDK version from the queried `ro.build.version.sdk`
/// property, defaulting to 0 on a query or parse failure.
pub fn get_android_sdk(prop: &Result<String, String>) -> (r: u8)
    ensures
        prop matches Result::Ok(s) ==> r == parse_u8_spec(s@),
        prop is Err ==> r == 0,
{
    match prop {
        Result::Ok(s) => parse_u8_digits(s.as_str()),
        Result::Err(_) => 0,
    }
}

/// A user is treated as protected exactly when the probe that listed its
/// packages failed — deliberately conservative: a transient transport error
/// is indistinguishable from a genuine secured profile.
pub fn is_protected_user(probe: &Result<Vec<String>, String>) -> (r: bool)
    ensures
        r == (probe is Err),
{
    probe.is_err()
}

/// Annotate the listed user ids with their positional index and the outcome
/// of each one's protection probe. A failed user listing yields an empty
/// roster.
pub fn list_users_idx_prot(user_ids: &Result<Vec<u16>, String>, protected: &Vec<bool>) -> (r: Vec<
    User,
>)
    requires
        user_ids matches Result::Ok(ids) ==> protected@.len() == ids@.len(),
    ensures
        user_ids is Err ==> r@ == Seq::<User>::empty(),
        user_ids matches Result::Ok(ids) ==> r@.len() == ids@.len() && (forall|k: int|
            0 <= k < r@.len() ==> r@[k] == (User {
                id: ids@[k],
                index: k as usize,
                protected: protected@[k],
            })),
{
    match user_ids {
        Result::Err(_) => Vec::new(),
        Result::Ok(ids) => {
            let mut out: Vec<User> = Vec::new();
            let mut i: usize = 0;
            while i < ids.len()
                invariant
                    user_ids is Ok,
                    *ids == user_ids->Ok_0,
                    protected@.len() == ids@.len(),
                    i <= ids@.len(),
                    out@.len() == i,
                    forall|k: int|
                        0 <= k < i ==> out@[k] == (User {
                            id: ids@[k],
                            index: k as usize,
                            protected: protected@[k],
                        }),
                decreases ids@.len() - i,
            {
                out.push(User { id: ids[i], index: i, protected: protected[i] });
                i = i + 1;
            }
            out
        },
    }
}

/// Assemble a device snapshot from its resolved parts. The display name is
/// the brand and model joined by one space.
pub fn phone_snapshot(
    brand: &str,
    model: &str,
    android_sdk: u8,
    user_list: Vec<User>,
    adb_id: &str,
) -> (r: Phone)
    ensures
        r.model@ == brand@ + " "@ + model@,
        r.android_sdk == android_sdk,
        r.user_list == user_list,
        r.adb_id@ == adb_id@,
{
    let mut name = String::from_str(brand);
    name.append(" ");
    name.append(model);
    Phone { model: name, android_sdk, user_list, adb_id: String::from_str(adb_id) }
}

/// The serials of the reported devices whose status is `device` (ready), in
/// reported order.
pub open spec fn spec_ready_serials(devices: Seq<(Seq<char>, Seq<char>)>) -> Seq<Seq<char>>
    decreases devices.len(),
{
    if devices.len() == 0 {
        Seq::empty()
    } else {
        let init = spec_ready_serials(devices.drop_last());
        if devices.last().1 == "device"@ {
            init.push(devices.last().0)
        } else {
            init
        }
    }
}

/// Select the serials of the ready devices from one device-list query.
pub fn ready_serials(devices: &Vec<(String, String)>) -> (r: Vec<String>)
    ensures
        r.deep_view() == spec_ready_serials(devices.deep_view()),
{
    let ghost dv = devices.deep_view();
    let mut out: Vec<String> = Vec::new();
    let mut i: usize = 0;
    while i < devices.len()
        invariant
            i <= devices@.len(),
            dv == devices.deep_view(),
            dv.len() == devices@.len(),
            out.deep_view() == spec_ready_serials(dv.take(i as int)),
        decreases devices@.len() - i,
    {
        let ghost prev = out.deep_view();
        let ghost prev_vec = out@;
        let entry: &(String, String) = &devices[i];
        if str_eq(entry.1.as_str(), "device") {
            out.push(entry.0.clone());
            proof {
                assert forall|k: int| 0 <= k < out@.len() implies out.deep_view()[k] == prev.push(
                    dv[i as int].0,
                )[k] by {
                    assert(out.deep_view()[k] == out@[k]@);
                    if k < out@.len() - 1 {
                        assert(out@[k] == prev_vec[k]);
                        assert(prev[k] == prev_vec[k]@);
                    }
                }
                assert(out.deep_view() =~= prev.push(dv[i as int].0));
            }
        }
        proof {
            assert(dv.take(i + 1).drop_last() =~= dv.take(i as int));
            assert(dv.take(i + 1).last() == dv[i as int]);
            assert(dv[i as int].1 == devices@[i as int].1@);
            assert(dv[i as int].0 == devices@[i as int].0@);
        }
        i = i + 1;
    }
    proof {
        assert(dv.take(devices@.len() as int) =~= dv);
    }
    out
}

/// `s` is the serial of a device that the query reported with ready status.
pub open spec fn spec_is_ready_serial(devices: Seq<(Seq<char>, Seq<char>)>, s: Seq<char>) -> bool {
    exists|j: int| 0 <= j < devices.len() && devices[j].1 == "device"@ && (#[trigger] devices[j].0)
        == s
}

/// Every selected serial belongs to a device the query reported as ready:
/// discovery never returns a non-ready device.
pub proof fn lemma_ready_serials_are_ready(devices: Seq<(Seq<char>, Seq<char>)>, i: int)
    requires
        0 <= i < spec_ready_serials(devices).len(),
    ensures
        spec_is_ready_serial(devices, spec_ready_serials(devices)[i]),
    decreases devices.len(),
{
    if devices.len() > 0 {
        let init = devices.drop_last();
        let rinit = spec_ready_serials(init);
        if devices.last().1 == "device"@ && i == rinit.len() {
            assert(spec_ready_serials(devices)[i] == devices.last().0);
            assert(devices[devices.len() - 1] == devices.last());
        } else {
            lemma_ready_serials_are_ready(init, i);
            let j = choose|j: int|
                0 <= j < init.len() && init[j].1 == "device"@ && (#[trigger] init[j].0)
                    == rinit[i];
            assert(devices[j] == init[j]);
            assert(spec_ready_serials(devices)[i] == rinit[i]);
        }
    }
}

/// Fixed spacing between discovery attempts, in milliseconds.
pub const DISCOVERY_RETRY_DELAY_MS: u64 = 500;

/// Bounded attempt count: 3 in a development build, 10 otherwise.
pub open spec fn spec_discovery_attempt_limit(dev_build: bool) -> u32 {
    if dev_build {
        3
    } else {
        10
    }
}

/// Discovery retry state: how many attempts may still be made.
#[derive(Debug, Clone, Copy, PartialEq, Eq, Structural)]
pub struct DiscoveryState {
    pub attempts_left: u32,
}

/// Start a bounded discovery run.
pub fn discovery_init(dev_build: bool) -> (s: DiscoveryState)
    ensures
        s.attempts_left == spec_discovery_attempt_limit(dev_build),
        s.attempts_left >= 1,
{
    if dev_build {
        DiscoveryState { attempts_left: 3 }
    } else {
        DiscoveryState { attempts_left: 10 }
    }
}

/// What the caller must do after one discovery attempt.
#[derive(Debug, PartialEq, Eq)]
pub enum DiscoveryAction {
    /// Discovery is over; these are the ready devices' serials (empty on
    /// failure).
    Stop(Vec<String>),
    /// Wait this many milliseconds, query the device list again, and feed
    /// the observation to the next step.
    RetryAfterDelay(u64),
}

/// The ready serials one attempt observed: none when the query failed.
pub open spec fn spec_attempt_ready(attempt: &Result<Vec<(String, String)>, String>) -> Seq<
    Seq<char>,
> {
    match attempt {
        Result::Ok(devs) => spec_ready_serials(devs.deep_view()),
        Result::Err(_) => Seq::empty(),
    }
}

/// Advance the discovery state machine by one observed attempt: stop with
/// the ready devices as soon as an attempt reports any, retry after the
/// fixed delay while attempts remain, and stop with the empty list once they
/// are exhausted.
pub fn discovery_step(
    state: &mut DiscoveryState,
    attempt: &Result<Vec<(String, String)>, String>,
) -> (r: DiscoveryAction)
    requires
        old(state).attempts_left >= 1,
    ensures
        final(state).attempts_left == old(state).attempts_left - 1,
        spec_attempt_ready(attempt).len() > 0 ==> (r matches DiscoveryAction::Stop(l)
            && l.deep_view() == spec_attempt_ready(attempt)),
        spec_attempt_ready(attempt).len() == 0 && old(state).attempts_left > 1 ==> r
            == DiscoveryAction::RetryAfterDelay(DISCOVERY_RETRY_DELAY_MS),
        spec_attempt_ready(attempt).len() == 0 && old(state).attempts_left == 1 ==> (
        r matches DiscoveryAction::Stop(l) && l.deep_view() == Seq::<Seq<char>>::empty()),
{
    state.attempts_left = state.attempts_left - 1;
    match attempt {
        Result::Ok(devs) => {
            let ready = ready_serials(devs);
            if ready.len() > 0 {
                return DiscoveryAction::Stop(ready);
            }
        },
        Result::Err(_) => {},
    }
    if state.attempts_left == 0 {
        let empty: Vec<String> = Vec::new();
        proof {
            assert(empty.deep_view() =~= Seq::<Seq<char>>::empty());
        }
        DiscoveryAction::Stop(empty)
    } else {
        DiscoveryAction::RetryAfterDelay(DISCOVERY_RETRY_DELAY_MS)
    }
}

/// The result of a whole bounded discovery run, given the ready serials each
/// attempt would observe: the first attempt (within the limit) that observes
/// any ready device decides, and exhaustion yields the empty list.
pub open spec fn spec_discovery_outcome(
    ready_per_attempt: Seq<Seq<Seq<char>>>,
    limit: nat,
) -> Seq<Seq<char>>
    decreases limit,
{
    if limit == 0 || ready_per_attempt.len() == 0 {
        Seq::empty()
    } else if ready_per_attempt[0].len() > 0 {
        ready_per_attempt[0]
    } else {
        spec_discovery_outcome(ready_per_attempt.drop_first(), (limit - 1) as nat)
    }
}

/// When the transport never reports a ready device, discovery retries until
/// its attempt budget is exhausted and then returns the empty list.
pub proof fn lemma_discovery_all_unready_yields_empty(
    ready_per_attempt: Seq<Seq<Seq<char>>>,
    limit: nat,
)
    requires
        forall|k: int|
            0 <= k < ready_per_attempt.len() ==> (#[trigger] ready_per_attempt[k]).len() == 0,
    ensures
        spec_discovery_outcome(ready_per_attempt, limit) == Seq::<Seq<char>>::empty(),
    decreases limit,
{
    if limit > 0 && ready_per_attempt.len() > 0 {
        let rest = ready_per_attempt.drop_first();
        assert(forall|k: int| 0 <= k < rest.len() ==> (#[trigger] rest[k]).len() == 0) by {
            assert(forall|k: int|
                0 <= k < rest.len() ==> #[trigger] rest[k] == ready_per_attempt[k + 1]);
        }
        lemma_discovery_all_unready_yields_empty(rest, (limit - 1) as nat);
    }
}

/// A discovery run returns the empty list or exactly what one attempt within
/// the budget observed: nothing is ever invented.
pub proof fn lemma_discovery_outcome_is_one_attempt(
    ready_per_attempt: Seq<Seq<Seq<char>>>,
    limit: nat,
)
    ensures
        spec_discovery_outcome(ready_per_attempt, limit) == Seq::<Seq<char>>::empty() || exists|
            k: int,
        |
            0 <= k < ready_per_attempt.len() && k < limit && spec_discovery_outcome(
                ready_per_attempt,
                limit,
            ) == #[trigger] ready_per_attempt[k],
    decreases limit,
{
    if limit > 0 && ready_per_attempt.len() > 0 && ready_per_attempt[0].len() > 0 {
        assert(spec_discovery_outcome(ready_per_attempt, limit) == ready_per_attempt[0]);
    } else if limit > 0 && ready_per_attempt.len() > 0 {
        let rest = ready_per_attempt.drop_first();
        lemma_discovery_outcome_is_one_attempt(rest, (limit - 1) as nat);
        if spec_discovery_outcome(rest, (limit - 1) as nat) != Seq::<Seq<char>>::empty() {
            let k = choose|k: int|
                0 <= k < rest.len() && k < limit - 1 && spec_discovery_outcome(
                    rest,
                    (limit - 1) as nat,
                ) == #[trigger] rest[k];
            assert(ready_per_attempt[k + 1] == rest[k]);
        }
    }
}

} // verus!
