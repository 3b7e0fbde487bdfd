use vstd::prelude::*;
use crate::error::ContractError;
use crate::ids::{dec_str, lemma_dec_str_val, parse_token_id};
use crate::levels::{get_level, level_of, level_ok, lemma_level_of_ok, lemma_upsert_props,
    levels_wf, upsert_level, upsert_levels};
use crate::msg::{LevelingConfigResponse, TokenLevelResponse};
use crate::state::{check_admin, ContractState};

verus! {

// The experience-accrual engine: a per-token timer state machine with
// elapsed-time capping, owner-gated toggling, an admin-gated global sweep,
// and admin-granted bonus experience.

/// `min(sum, max)`: the saturating cap applied on every mutation.
pub open spec fn min_exp(sum: int, max: u64) -> u64 {
    if sum > max {
        max
    } else {
        sum as u64
    }
}

/// Active to Idle at `now`: the elapsed time is credited, capped at `max`.
pub open spec fn stop_level(l: TokenLevelResponse, now: u64, max: u64) -> TokenLevelResponse {
    TokenLevelResponse {
        leveling: false,
        leveling_start_timestamp: 0,
        total_exp: min_exp(l.total_exp + now - l.leveling_start_timestamp, max),
    }
}

/// Idle to Active at `now`: the timer starts; the stored total is untouched.
pub open spec fn start_level(l: TokenLevelResponse, now: u64) -> TokenLevelResponse {
    TokenLevelResponse { leveling: true, leveling_start_timestamp: now, total_exp: l.total_exp }
}

/// A bonus grant: experience is credited, capped at `max`; the timer itself
/// (flag and start) is untouched.
pub open spec fn grant_level(l: TokenLevelResponse, amount: u64, max: u64) -> TokenLevelResponse {
    TokenLevelResponse {
        leveling: l.leveling,
        leveling_start_timestamp: l.leveling_start_timestamp,
        total_exp: min_exp(l.total_exp + amount, max),
    }
}

/// `min(total + delta, max)` computed without overflow.
fn add_capped(total: u64, delta: u64, max: u64) -> (r: u64)
    ensures
        r == min_exp(total + delta, max),
{
    if total >= max {
        max
    } else {
        let room = max - total;
        if delta >= room {
            max
        } else {
            total + delta
        }
    }
}

/// Credits the time elapsed since the timer's start to `total_exp`, capping
/// the sum at `max_experience`. The flag and the start timestamp are left for
/// the caller to reset.
pub fn calculate_and_cap_experience(
    token_level: &mut TokenLevelResponse,
    current_block_seconds: u64,
    max_experience: u64,
)
    requires
        old(token_level).leveling_start_timestamp <= current_block_seconds,
    ensures
        final(token_level).total_exp == min_exp(
            old(token_level).total_exp + current_block_seconds - old(
                token_level,
            ).leveling_start_timestamp,
            max_experience,
        ),
        final(token_level).leveling == old(token_level).leveling,
        final(token_level).leveling_start_timestamp == old(token_level).leveling_start_timestamp,
{
    let elapsed = current_block_seconds - token_level.leveling_start_timestamp;
    token_level.total_exp = add_capped(token_level.total_exp, elapsed, max_experience);
}

/// One toggle step of a token's timer. Only the token's owner may call; Idle
/// tokens start only while leveling is open; Active tokens always stop, with
/// their elapsed time credited and capped.
pub open spec fn toggle_post(
    pre: ContractState,
    post: ContractState,
    n: u64,
    sender: Seq<char>,
    now: u64,
    r: Result<(), ContractError>,
) -> bool {
    let l = level_of(pre.token_levels@, n);
    let max = pre.leveling_config.max_experience;
    if pre.token_owners@[n as int]@ != sender {
        r == Err::<(), ContractError>(ContractError::UnauthorizedLeveling) && post == pre
    } else if l.leveling {
        r == Ok::<(), ContractError>(()) && post.token_levels@ == upsert_levels(
            pre.token_levels@,
            n,
            stop_level(l, now, max),
        )
    } else if !pre.leveling_config.leveling_open {
        r == Err::<(), ContractError>(ContractError::LevelingNotOpen) && post == pre
    } else {
        r == Ok::<(), ContractError>(()) && post.token_levels@ == upsert_levels(
            pre.token_levels@,
            n,
            start_level(l, now),
        )
    }
}

/// Flips the timer of the token named by `token_id`, at time `now`.
///
/// Fails `NotFound` when no issued token has that id, and
/// `UnauthorizedLeveling` when the caller does not own it. The timestamp is
/// positive and at least the toggled token's start, as chain time is.
pub fn toggle_leveling(
    state: &mut ContractState,
    sender: &String,
    token_id: &String,
    now: u64,
) -> (r: Result<(), ContractError>)
    requires
        old(state).wf(),
        1 <= now,
        forall|n: u64| #[trigger]
            dec_str(n as nat) == token_id@ ==> level_of(
                old(state).token_levels@,
                n,
            ).leveling_start_timestamp <= now,
    ensures
        final(state).wf(),
        old(state).same_except_levels(*final(state)),
        (forall|n: u64|
            n < old(state).token_count ==> #[trigger] dec_str(n as nat) != token_id@) ==> (r
            == Err::<(), ContractError>(ContractError::NotFound) && *final(state) == *old(state)),
        forall|n: u64|
            n < old(state).token_count && #[trigger] dec_str(n as nat) == token_id@
                ==> toggle_post(*old(state), *final(state), n, sender@, now, r),
{
    let parsed = parse_token_id(token_id.as_str());
    match parsed {
        None => {
            proof {
                assert forall|n: u64|
                    n < old(state).token_count implies #[trigger] dec_str(n as nat)
                    != token_id@ by {}
            }
            Err(ContractError::NotFound)
        },
        Some(n) => {
            proof {
                assert forall|m: u64|
                    m < old(state).token_count && #[trigger] dec_str(m as nat) == token_id@
                        implies m == n by {
                    lemma_dec_str_val(m as nat);
                    lemma_dec_str_val(n as nat);
                }
            }
            if n >= state.token_count {
                proof {
                    assert forall|m: u64| m < old(state).token_count implies #[trigger] dec_str(
                        m as nat,
                    ) != token_id@ by {
                        if dec_str(m as nat) == token_id@ {
                            lemma_dec_str_val(m as nat);
                            lemma_dec_str_val(n as nat);
                        }
                    }
                }
                return Err(ContractError::NotFound);
            }
            let ln = state.token_owners.len();
            proof {
                assert((n as int) < (ln as int));
            }
            let idx = n as usize;
            if !state.token_owners[idx].eq(sender) {
                return Err(ContractError::UnauthorizedLeveling);
            }
            let l = get_level(&state.token_levels, n);
            let max = state.leveling_config.max_experience;
            if l.leveling {
                let mut nl = l;
                calculate_and_cap_experience(&mut nl, now, max);
                nl.leveling = false;
                nl.leveling_start_timestamp = 0;
                proof {
                    assert(nl == stop_level(l, now, max));
                    lemma_upsert_props(state.token_levels@, n, nl);
                }
                upsert_level(&mut state.token_levels, n, nl);
                Ok(())
            } else if !state.leveling_config.leveling_open {
                Err(ContractError::LevelingNotOpen)
            } else {
                let nl = TokenLevelResponse {
                    leveling: true,
                    leveling_start_timestamp: now,
                    total_exp: l.total_exp,
                };
                proof {
                    assert(nl == start_level(l, now));
                    lemma_upsert_props(state.token_levels@, n, nl);
                }
                upsert_level(&mut state.token_levels, n, nl);
                Ok(())
            }
        },
    }
}

/// Every Active timer forced Idle at `now`, its elapsed time credited and
/// capped at `max`; Idle entries untouched.
pub open spec fn sweep_levels(s: Seq<(u64, TokenLevelResponse)>, now: u64, max: u64) -> Seq<
    (u64, TokenLevelResponse),
> {
    s.map_values(
        |e: (u64, TokenLevelResponse)|
            if e.1.leveling {
                (e.0, stop_level(e.1, now, max))
            } else {
                e
            },
    )
}

fn sweep_all(levels: &mut Vec<(u64, TokenLevelResponse)>, now: u64, max: u64)
    requires
        levels_wf(old(levels)@),
        forall|i: int|
            0 <= i < old(levels)@.len() && (#[trigger] old(levels)@[i]).1.leveling ==> old(
                levels,
            )@[i].1.leveling_start_timestamp <= now,
    ensures
        final(levels)@ == sweep_levels(old(levels)@, now, max),
        levels_wf(final(levels)@),
{
    let ghost orig = levels@;
    let n = levels.len();
    let mut j: usize = 0;
    while j < n
        invariant
            0 <= j <= n,
            n == orig.len(),
            levels@.len() == n,
            levels_wf(orig),
            forall|i: int|
                0 <= i < n && (#[trigger] orig[i]).1.leveling
                    ==> orig[i].1.leveling_start_timestamp <= now,
            forall|k: int| 0 <= k < j ==> levels@[k] == sweep_levels(orig, now, max)[k],
            forall|k: int| j <= k < n ==> levels@[k] == orig[k],
        decreases n - j,
    {
        let pair = levels[j];
        proof {
            assert(levels@[j as int] == orig[j as int]);
            assert(orig[j as int].1.leveling ==> orig[j as int].1.leveling_start_timestamp
                <= now);
        }
        if pair.1.leveling {
            let mut l = pair.1;
            calculate_and_cap_experience(&mut l, now, max);
            l.leveling = false;
            l.leveling_start_timestamp = 0;
            proof {
                assert(l == stop_level(orig[j as int].1, now, max));
            }
            levels.set(j, (pair.0, l));
        }
        j += 1;
    }
    proof {
        assert(levels@ =~= sweep_levels(orig, now, max));
        let swept = sweep_levels(orig, now, max);
        assert forall|i: int| 0 <= i < swept.len() implies level_ok(
            #[trigger] swept[i].1,
        ) && swept[i].0 == orig[i].0 by {
            assert(level_ok(orig[i].1));
        }
        assert(levels_wf(levels@));
    }
}

/// Rewrites the leveling config; turning leveling off sweeps every Active
/// timer Idle at `now` in one atomic step. Reopening starts no timer.
pub fn update_leveling_config(
    state: &mut ContractState,
    sender: &String,
    leveling_open: bool,
    max_experience: u64,
    now: u64,
) -> (r: Result<(), ContractError>)
    requires
        old(state).wf(),
        forall|i: int|
            0 <= i < old(state).token_levels@.len() && (#[trigger] old(
                state,
            ).token_levels@[i]).1.leveling ==> old(
                state,
            ).token_levels@[i].1.leveling_start_timestamp <= now,
    ensures
        final(state).wf(),
        old(state).same_except_leveling(*final(state)),
        !old(state).is_admin(sender@) ==> (r == Err::<(), ContractError>(ContractError::NotAdmin)
            && *final(state) == *old(state)),
        old(state).is_admin(sender@) ==> {
            &&& r == Ok::<(), ContractError>(())
            &&& final(state).leveling_config == (LevelingConfigResponse {
                leveling_open,
                max_experience,
            })
            &&& leveling_open ==> final(state).token_levels@ == old(state).token_levels@
            &&& !leveling_open ==> final(state).token_levels@ == sweep_levels(
                old(state).token_levels@,
                now,
                max_experience,
            )
        },
{
    if !check_admin(state, sender) {
        return Err(ContractError::NotAdmin);
    }
    state.leveling_config = LevelingConfigResponse { leveling_open, max_experience };
    if !leveling_open {
        sweep_all(&mut state.token_levels, now, max_experience);
    }
    Ok(())
}

/// The timer map after granting `amount` (capped at `max`) to each id of
/// `ids` in turn; a repeated id is credited once per occurrence.
pub open spec fn grant_seq(
    s: Seq<(u64, TokenLevelResponse)>,
    ids: Seq<u64>,
    amount: u64,
    max: u64,
) -> Seq<(u64, TokenLevelResponse)>
    decreases ids.len(),
{
    if ids.len() == 0 {
        s
    } else {
        let prev = grant_seq(s, ids.drop_last(), amount, max);
        upsert_levels(prev, ids.last(), grant_level(level_of(prev, ids.last()), amount, max))
    }
}

proof fn lemma_grant_seq_wf(s: Seq<(u64, TokenLevelResponse)>, ids: Seq<u64>, amount: u64, max: u64)
    requires
        levels_wf(s),
    ensures
        levels_wf(grant_seq(s, ids, amount, max)),
    decreases ids.len(),
{
    if ids.len() > 0 {
        lemma_grant_seq_wf(s, ids.drop_last(), amount, max);
        let prev = grant_seq(s, ids.drop_last(), amount, max);
        lemma_level_of_ok(prev, ids.last());
        lemma_upsert_props(
            prev,
            ids.last(),
            grant_level(level_of(prev, ids.last()), amount, max),
        );
    }
}

/// Whether some issue counter renders to this id string.
pub open spec fn id_parses(s: Seq<char>) -> bool {
    exists|n: u64| dec_str(n as nat) == s
}

/// Grants `experience` bonus points to each listed token, capping each total
/// at the ceiling; a token without a timer record starts from zero. All ids
/// must be well-formed (`NotFound` otherwise, with nothing persisted); the
/// timers' flags and start timestamps are untouched.
pub fn grant_bonus_experience(
    state: &mut ContractState,
    sender: &String,
    token_ids: &Vec<String>,
    experience: u64,
) -> (r: Result<(), ContractError>)
    requires
        old(state).wf(),
    ensures
        final(state).wf(),
        old(state).same_except_levels(*final(state)),
        !old(state).is_admin(sender@) ==> (r == Err::<(), ContractError>(ContractError::NotAdmin)
            && *final(state) == *old(state)),
        old(state).is_admin(sender@) && !(forall|i: int|
            0 <= i < token_ids@.len() ==> id_parses(#[trigger] token_ids@[i]@)) ==> (r == Err::<
            (),
            ContractError,
        >(ContractError::NotFound) && *final(state) == *old(state)),
        old(state).is_admin(sender@) && (forall|i: int|
            0 <= i < token_ids@.len() ==> id_parses(#[trigger] token_ids@[i]@)) ==> (r == Ok::<
            (),
            ContractError,
        >(()) && forall|ns: Seq<u64>|
            ns.len() == token_ids@.len() && (forall|i: int|
                0 <= i < ns.len() ==> dec_str(#[trigger] ns[i] as nat) == token_ids@[i]@)
                ==> final(state).token_levels@ == grant_seq(
                old(state).token_levels@,
                ns,
                experience,
                old(state).leveling_config.max_experience,
            )),
{
    if !check_admin(state, sender) {
        return Err(ContractError::NotAdmin);
    }
    let mut ns: Vec<u64> = Vec::new();
    let mut i: usize = 0;
    while i < token_ids.len()
        invariant
            0 <= i <= token_ids@.len(),
            ns@.len() == i,
            forall|j: int| 0 <= j < i ==> dec_str(#[trigger] ns@[j] as nat) == token_ids@[j]@,
            *state == *old(state),
            old(state).wf(),
            old(state).is_admin(sender@),
        decreases token_ids@.len() - i,
    {
        match parse_token_id(token_ids[i].as_str()) {
            Some(n) => {
                ns.push(n);
            },
            None => {
                proof {
                    assert(0 <= i < token_ids@.len() && !id_parses(token_ids@[i as int]@));
                }
                return Err(ContractError::NotFound);
            },
        }
        i += 1;
    }
    proof {
        assert forall|j: int| 0 <= j < token_ids@.len() implies id_parses(
            #[trigger] token_ids@[j]@,
        ) by {
            assert(dec_str(ns@[j] as nat) == token_ids@[j]@);
        }
    }
    let ghost orig = state.token_levels@;
    let max = state.leveling_config.max_experience;
    let mut k: usize = 0;
    while k < ns.len()
        invariant
            0 <= k <= ns@.len(),
            levels_wf(state.token_levels@),
            state.token_levels@ == grant_seq(orig, ns@.subrange(0, k as int), experience, max),
            old(state).same_except_levels(*state),
            levels_wf(orig),
            orig == old(state).token_levels@,
            max == old(state).leveling_config.max_experience,
            old(state).wf(),
            old(state).is_admin(sender@),
            ns@.len() == token_ids@.len(),
            forall|j: int|
                0 <= j < ns@.len() ==> dec_str(#[trigger] ns@[j] as nat) == token_ids@[j]@,
        decreases ns@.len() - k,
    {
        let id = ns[k];
        let l = get_level(&state.token_levels, id);
        let g = TokenLevelResponse {
            leveling: l.leveling,
            leveling_start_timestamp: l.leveling_start_timestamp,
            total_exp: add_capped(l.total_exp, experience, max),
        };
        proof {
            assert(g == grant_level(level_of(state.token_levels@, id), experience, max));
            assert(ns@.subrange(0, k as int + 1).drop_last() =~= ns@.subrange(0, k as int));
            assert(ns@.subrange(0, k as int + 1).last() == id);
            lemma_level_of_ok(state.token_levels@, id);
            lemma_upsert_props(state.token_levels@, id, g);
        }
        upsert_level(&mut state.token_levels, id, g);
        k += 1;
    }
    proof {
        assert(ns@.subrange(0, ns@.len() as int) =~= ns@);
        assert forall|ns2: Seq<u64>|
            ns2.len() == token_ids@.len() && (forall|i2: int|
                0 <= i2 < ns2.len() ==> dec_str(#[trigger] ns2[i2] as nat) == token_ids@[i2]@)
                implies state.token_levels@ == grant_seq(orig, ns2, experience, max) by {
            assert forall|i2: int| 0 <= i2 < ns2.len() implies ns2[i2] == ns@[i2] by {
                assert(dec_str(ns2[i2] as nat) == token_ids@[i2]@);
                assert(dec_str(ns@[i2] as nat) == token_ids@[i2]@);
                lemma_dec_str_val(ns2[i2] as nat);
                lemma_dec_str_val(ns@[i2] as nat);
            }
            assert(ns2 =~= ns@);
        }
    }
    Ok(())
}

/// Law (at the operation level): a token Active since `t0`, toggled by its
/// owner `delta` seconds later, ends Idle with exactly
/// `min(prior + delta, max)` experience.
pub proof fn lemma_toggle_stop_ops(
    pre: ContractState,
    post: ContractState,
    n: u64,
    sender: Seq<char>,
    t0: u64,
    delta: u64,
)
    requires
        pre.wf(),
        n < pre.token_count,
        pre.token_owners@[n as int]@ == sender,
        level_of(pre.token_levels@, n).leveling,
        level_of(pre.token_levels@, n).leveling_start_timestamp == t0,
        t0 + delta <= u64::MAX,
        toggle_post(pre, post, n, sender, (t0 + delta) as u64, Ok(())),
    ensures
        !level_of(post.token_levels@, n).leveling,
        level_of(post.token_levels@, n).total_exp as int == (if level_of(
            pre.token_levels@,
            n,
        ).total_exp + delta > pre.leveling_config.max_experience {
            pre.leveling_config.max_experience as int
        } else {
            level_of(pre.token_levels@, n).total_exp + delta as int
        }),
{
    let l = level_of(pre.token_levels@, n);
    let max = pre.leveling_config.max_experience;
    let stopped = stop_level(l, (t0 + delta) as u64, max);
    lemma_upsert_props(pre.token_levels@, n, stopped);
}

/// Law (at the operation level): toggling an Idle token on and immediately
/// off again leaves its stored experience unchanged, provided the stored
/// value is within the ceiling. (A value above a later-lowered ceiling is
/// capped by the stop instead.)
pub proof fn lemma_toggle_round_trip_ops(
    pre: ContractState,
    mid: ContractState,
    post: ContractState,
    n: u64,
    sender: Seq<char>,
    now: u64,
)
    requires
        pre.wf(),
        mid.wf(),
        1 <= now,
        n < pre.token_count,
        pre.token_owners@[n as int]@ == sender,
        !level_of(pre.token_levels@, n).leveling,
        level_of(pre.token_levels@, n).total_exp <= pre.leveling_config.max_experience,
        pre.leveling_config.leveling_open,
        pre.same_except_levels(mid),
        toggle_post(pre, mid, n, sender, now, Ok(())),
        toggle_post(mid, post, n, sender, now, Ok(())),
    ensures
        !level_of(post.token_levels@, n).leveling,
        level_of(post.token_levels@, n).total_exp == level_of(pre.token_levels@, n).total_exp,
{
    let l = level_of(pre.token_levels@, n);
    let started = start_level(l, now);
    lemma_upsert_props(pre.token_levels@, n, started);
    assert(level_of(mid.token_levels@, n) == started);
    let max = mid.leveling_config.max_experience;
    let stopped = stop_level(started, now, max);
    lemma_upsert_props(mid.token_levels@, n, stopped);
    assert(level_of(post.token_levels@, n) == stopped);
}

/// Law: stopping an Active timer `delta` seconds after its start credits
/// exactly `min(prior + delta, max)`.
pub proof fn lemma_toggle_stop_credit(l: TokenLevelResponse, delta: u64, max: u64)
    requires
        l.leveling,
        l.leveling_start_timestamp + delta <= u64::MAX,
    ensures
        stop_level(l, (l.leveling_start_timestamp + delta) as u64, max).total_exp as int == (
        if l.total_exp + delta > max {
            max as int
        } else {
            l.total_exp + delta as int
        }),
{
}

/// Law: starting an Idle timer and stopping it at the same instant leaves the
/// stored total unchanged, provided the total is within the ceiling. (A total
/// above a later-lowered ceiling is capped by the stop instead.)
pub proof fn lemma_toggle_round_trip(l: TokenLevelResponse, now: u64, max: u64)
    requires
        !l.leveling,
        l.total_exp <= max,
    ensures
        stop_level(start_level(l, now), now, max) == (TokenLevelResponse {
            leveling: false,
            leveling_start_timestamp: 0,
            total_exp: l.total_exp,
        }),
{
}

/// Law: a sweep leaves no timer Active, so a second sweep right after one
/// changes no timer record at all.
pub proof fn lemma_sweep_idempotent(
    s: Seq<(u64, TokenLevelResponse)>,
    now1: u64,
    max1: u64,
    now2: u64,
    max2: u64,
)
    ensures
        sweep_levels(sweep_levels(s, now1, max1), now2, max2) == sweep_levels(s, now1, max1),
{
    let s1 = sweep_levels(s, now1, max1);
    assert forall|i: int| 0 <= i < s1.len() implies !(#[trigger] s1[i]).1.leveling by {}
    assert(sweep_levels(s1, now2, max2) =~= s1);
}

} // verus!
