use vstd::prelude::*;
use crate::error::ContractError;
use crate::ids::{dec_str, lemma_dec_str_val, parse_token_id, render_token_id};
use crate::levels::{default_level, get_level, level_of, levels_wf};
use crate::msg::{AdminResponse, AllTokenLevelsResponse, BaseTokenUriResponse,
    CheckRoyaltiesResponse, CollectionSizeResponse, ContractInfoResponse, LevelingConfigResponse,
    NumTokensResponse, OwnerOfResponse, OwnershipResponse, RoyaltiesInfoResponse,
    RoyaltyConfigResponse, TokenLevelResponse};
use crate::royalty::{royalty_amount, royalty_of};
use crate::state::{ContractState, Ownership};

verus! {

// The query set. Queries read the state aggregate and never mutate it; the
// per-token level query defaults instead of erring, while the royalty query
// fails `NotFound` for an unknown token id.

pub fn query_royalty_config(state: &ContractState) -> (r: RoyaltyConfigResponse)
    ensures
        r.royalty_percentage == state.royalty_config.royalty_percentage,
        r.royalty_payment_address == state.royalty_config.royalty_payment_address,
{
    RoyaltyConfigResponse {
        royalty_percentage: state.royalty_config.royalty_percentage,
        royalty_payment_address: state.royalty_config.royalty_payment_address.clone(),
    }
}

/// The royalty owed on a sale of the given token at the given price:
/// `floor(sale_price * percentage / 100)`, rounded down, paid to the
/// configured address. Fails `NotFound` exactly when the id names no issued
/// token.
pub fn query_royalties_info(state: &ContractState, token_id: &String, sale_price: u128) -> (r:
    Result<RoyaltiesInfoResponse, ContractError>)
    requires
        state.wf(),
    ensures
        (forall|n: u64| n < state.token_count ==> #[trigger] dec_str(n as nat) != token_id@) ==> r
            == Err::<RoyaltiesInfoResponse, ContractError>(ContractError::NotFound),
        (exists|n: u64| n < state.token_count && #[trigger] dec_str(n as nat) == token_id@)
            ==> match r {
            Ok(info) => {
                &&& info.address == state.royalty_config.royalty_payment_address
                &&& info.royalty_amount as int == royalty_of(
                    sale_price,
                    state.royalty_config.royalty_percentage,
                )
            },
            Err(_) => false,
        },
{
    match parse_token_id(token_id.as_str()) {
        None => Err(ContractError::NotFound),
        Some(n) => {
            if n >= state.token_count {
                proof {
                    assert forall|m: u64| m < state.token_count implies #[trigger] dec_str(
                        m as nat,
                    ) != token_id@ by {
                        if dec_str(m as nat) == token_id@ {
                            lemma_dec_str_val(m as nat);
                            lemma_dec_str_val(n as nat);
                        }
                    }
                }
                Err(ContractError::NotFound)
            } else {
                let amount = royalty_amount(sale_price, state.royalty_config.royalty_percentage);
                Ok(
                    RoyaltiesInfoResponse {
                        address: state.royalty_config.royalty_payment_address.clone(),
                        royalty_amount: amount,
                    },
                )
            }
        },
    }
}

/// Royalties apply to every token of this contract, unconditionally.
pub fn check_royalties(_state: &ContractState) -> (r: CheckRoyaltiesResponse)
    ensures
        r.royalty_payments == true,
{
    CheckRoyaltiesResponse { royalty_payments: true }
}

pub fn query_leveling_config(state: &ContractState) -> (r: LevelingConfigResponse)
    ensures
        r == state.leveling_config,
{
    state.leveling_config
}

/// The timer state of the given token id, the zero default when none was
/// written or the id is not well formed; never an error.
pub fn query_token_level(state: &ContractState, token_id: &String) -> (r: TokenLevelResponse)
    requires
        state.wf(),
    ensures
        (forall|n: u64| #[trigger] dec_str(n as nat) != token_id@) ==> r == default_level(),
        forall|n: u64| #[trigger]
            dec_str(n as nat) == token_id@ ==> r == level_of(state.token_levels@, n),
{
    match parse_token_id(token_id.as_str()) {
        None => TokenLevelResponse { leveling: false, leveling_start_timestamp: 0, total_exp: 0 },
        Some(n) => {
            proof {
                assert forall|m: u64| #[trigger] dec_str(m as nat) == token_id@ implies m == n by {
                    lemma_dec_str_val(m as nat);
                    lemma_dec_str_val(n as nat);
                }
            }
            get_level(&state.token_levels, n)
        },
    }
}

pub fn query_num_tokens(state: &ContractState) -> (r: NumTokensResponse)
    ensures
        r.count == state.token_count,
{
    NumTokensResponse { count: state.token_count }
}

pub fn query_collection_size(state: &ContractState) -> (r: CollectionSizeResponse)
    ensures
        r.collection_size == state.collection_size,
{
    CollectionSizeResponse { collection_size: state.collection_size }
}

pub fn query_base_token_uri(state: &ContractState) -> (r: BaseTokenUriResponse)
    ensures
        r.base_token_uri == state.base_token_uri,
{
    BaseTokenUriResponse { base_token_uri: state.base_token_uri.clone() }
}

pub fn query_contract_info(state: &ContractState) -> (r: ContractInfoResponse)
    ensures
        r.name == state.name,
        r.symbol == state.symbol,
{
    ContractInfoResponse { name: state.name.clone(), symbol: state.symbol.clone() }
}

/// The current holder of the admin capability; a pending handover keeps the
/// current holder in charge.
pub fn query_admin(state: &ContractState) -> (r: AdminResponse)
    ensures
        match state.ownership {
            Ownership::Owned { admin } => r.admin == Some(admin),
            Ownership::PendingTransfer { current, proposed: _ } => r.admin == Some(current),
        },
{
    match &state.ownership {
        Ownership::Owned { admin } => AdminResponse { admin: Some(admin.clone()) },
        Ownership::PendingTransfer { current, proposed: _ } => AdminResponse {
            admin: Some(current.clone()),
        },
    }
}

/// The full two-phase handover state of the admin capability.
pub fn query_ownership(state: &ContractState) -> (r: OwnershipResponse)
    ensures
        match state.ownership {
            Ownership::Owned { admin } => r.owner == Some(admin) && r.pending_owner is None,
            Ownership::PendingTransfer { current, proposed } => r.owner == Some(current)
                && r.pending_owner == Some(proposed),
        },
{
    match &state.ownership {
        Ownership::Owned { admin } => OwnershipResponse {
            owner: Some(admin.clone()),
            pending_owner: None,
        },
        Ownership::PendingTransfer { current, proposed } => OwnershipResponse {
            owner: Some(current.clone()),
            pending_owner: Some(proposed.clone()),
        },
    }
}

/// The owner of the given token; `NotFound` exactly when the id names no
/// issued token.
pub fn query_owner_of(state: &ContractState, token_id: &String) -> (r: Result<
    OwnerOfResponse,
    ContractError,
>)
    requires
        state.wf(),
    ensures
        (forall|n: u64| n < state.token_count ==> #[trigger] dec_str(n as nat) != token_id@) ==> r
            == Err::<OwnerOfResponse, ContractError>(ContractError::NotFound),
        forall|n: u64|
            n < state.token_count && #[trigger] dec_str(n as nat) == token_id@ ==> match r {
                Ok(o) => o.owner == state.token_owners@[n as int],
                Err(_) => false,
            },
{
    match parse_token_id(token_id.as_str()) {
        None => Err(ContractError::NotFound),
        Some(n) => {
            proof {
                assert forall|m: u64|
                    m < state.token_count && #[trigger] dec_str(m as nat) == token_id@ implies m
                    == n by {
                    lemma_dec_str_val(m as nat);
                    lemma_dec_str_val(n as nat);
                }
            }
            if n >= state.token_count {
                Err(ContractError::NotFound)
            } else {
                let ln = state.token_owners.len();
                proof {
                    assert((n as int) < (ln as int));
                }
                Ok(OwnerOfResponse { owner: state.token_owners[n as usize].clone() })
            }
        },
    }
}

/// The page size a query asked for: the default is 10, the hard ceiling 1000.
pub open spec fn page_limit(limit: Option<u32>) -> int {
    let l: int = match limit {
        None => 10,
        Some(v) => v as int,
    };
    if l > 1000 {
        1000
    } else {
        l
    }
}

/// The index of the first entry whose id is above the cursor.
pub open spec fn first_above(s: Seq<(u64, TokenLevelResponse)>, c: u64) -> int
    decreases s.len(),
{
    if s.len() == 0 {
        0
    } else if s[0].0 > c {
        0
    } else {
        1 + first_above(s.drop_first(), c)
    }
}

/// One page of the timer map: the entries strictly after the cursor (all of
/// them when there is none), in ascending id order, at most `lim` of them.
pub open spec fn levels_page(
    s: Seq<(u64, TokenLevelResponse)>,
    after: Option<u64>,
    lim: int,
) -> Seq<(u64, TokenLevelResponse)> {
    let lo = match after {
        None => 0,
        Some(c) => first_above(s, c),
    };
    let hi = if lo + lim < s.len() {
        lo + lim
    } else {
        s.len() as int
    };
    if 0 <= lo <= hi {
        s.subrange(lo, hi)
    } else {
        Seq::empty()
    }
}

/// A page rendered for the response: ids as their decimal strings, states
/// unchanged, order kept.
pub open spec fn page_rendered(
    page: Seq<(u64, TokenLevelResponse)>,
    out: Seq<(String, TokenLevelResponse)>,
) -> bool {
    &&& out.len() == page.len()
    &&& forall|j: int|
        0 <= j < page.len() ==> (#[trigger] out[j]).1 == page[j].1 && out[j].0@ == dec_str(
            page[j].0 as nat,
        )
}

/// Positional characterization of `first_above`: it is the unique split of a
/// scan that stops at the first id above the cursor.
proof fn lemma_first_above_at(s: Seq<(u64, TokenLevelResponse)>, c: u64, i: int)
    requires
        0 <= i <= s.len(),
        forall|j: int| 0 <= j < i ==> (#[trigger] s[j].0) <= c,
        i < s.len() ==> s[i].0 > c,
    ensures
        first_above(s, c) == i,
    decreases i + 1,
{
    if i == 0 {
    } else {
        let rest = s.drop_first();
        assert(forall|j: int| 0 <= j < rest.len() ==> rest[j] == s[j + 1]);
        lemma_first_above_at(rest, c, i - 1);
    }
}

/// With strictly sorted ids, `first_above` splits the sequence exactly: ids
/// at or below the cursor before it, ids above the cursor from it on.
proof fn lemma_first_above_bounds(s: Seq<(u64, TokenLevelResponse)>, c: u64)
    requires
        levels_wf(s),
    ensures
        0 <= first_above(s, c) <= s.len(),
        forall|j: int| 0 <= j < first_above(s, c) ==> (#[trigger] s[j].0) <= c,
        forall|j: int| first_above(s, c) <= j < s.len() ==> (#[trigger] s[j].0) > c,
    decreases s.len(),
{
    if s.len() == 0 {
    } else if s[0].0 > c {
        assert forall|j: int| 0 <= j < s.len() implies (#[trigger] s[j].0) > c by {
            if j > 0 {
                assert(s[0].0 < s[j].0);
            }
        }
    } else {
        let rest = s.drop_first();
        assert(forall|j: int| 0 <= j < rest.len() ==> rest[j] == s[j + 1]);
        assert(levels_wf(rest));
        lemma_first_above_bounds(rest, c);
        let fa = first_above(s, c);
        assert(fa == 1 + first_above(rest, c));
        assert forall|j: int| 0 <= j < fa implies (#[trigger] s[j].0) <= c by {
            if j > 0 {
                assert(rest[j - 1].0 <= c);
            }
        }
        assert forall|j: int| fa <= j < s.len() implies (#[trigger] s[j].0) > c by {
            assert(rest[j - 1].0 > c);
        }
    }
}

/// Law: a page starting after a cursor holds exactly the first entries whose
/// ids lie above it — a consecutive run of the stored map, in ascending id
/// order, cut off at the page size.
pub proof fn lemma_levels_page_props(s: Seq<(u64, TokenLevelResponse)>, c: u64, lim: int)
    requires
        levels_wf(s),
        0 <= lim,
    ensures
        ({
            let page = levels_page(s, Some(c), lim);
            let lo = first_above(s, c);
            &&& page.len() == (if s.len() - lo < lim {
                s.len() - lo
            } else {
                lim
            })
            &&& forall|j: int| 0 <= j < page.len() ==> (#[trigger] page[j]).0 > c
            &&& forall|j: int| 0 <= j < page.len() ==> page[j] == s[lo + j]
            &&& forall|i: int, j: int|
                0 <= i < j < page.len() ==> (#[trigger] page[i]).0 < (#[trigger] page[j]).0
        }),
{
    lemma_first_above_bounds(s, c);
}

/// Law: the last id of a page is the correct continuation cursor. Paging
/// again, starting after it, resumes exactly where the page stopped.
pub proof fn lemma_levels_page_continuation(
    s: Seq<(u64, TokenLevelResponse)>,
    c: u64,
    lim: int,
    lim2: int,
)
    requires
        levels_wf(s),
        0 <= lim,
        0 <= lim2,
        levels_page(s, Some(c), lim).len() > 0,
    ensures
        ({
            let page = levels_page(s, Some(c), lim);
            let next = levels_page(s, Some(page.last().0), lim2);
            let hi = first_above(s, c) + page.len();
            &&& next.len() == (if s.len() - hi < lim2 {
                s.len() - hi
            } else {
                lim2
            })
            &&& forall|j: int| 0 <= j < next.len() ==> (#[trigger] next[j]) == s[hi + j]
        }),
{
    lemma_first_above_bounds(s, c);
    let page = levels_page(s, Some(c), lim);
    let lo = first_above(s, c);
    let hi = lo + page.len();
    let c2 = page.last().0;
    assert(page.last() == s[hi - 1]);
    assert forall|j: int| 0 <= j < hi implies (#[trigger] s[j].0) <= c2 by {
        if j < hi - 1 {
            assert(s[j].0 < s[hi - 1].0);
        }
    }
    assert forall|j: int| hi <= j < s.len() implies (#[trigger] s[j].0) > c2 by {
        assert(s[hi - 1].0 < s[j].0);
    }
    lemma_first_above_at(s, c2, hi);
}

fn find_first_above(levels: &Vec<(u64, TokenLevelResponse)>, c: u64) -> (i: usize)
    ensures
        i as int == first_above(levels@, c),
        i <= levels@.len(),
{
    let mut i: usize = 0;
    while i < levels.len() && levels[i].0 <= c
        invariant
            0 <= i <= levels@.len(),
            forall|j: int| 0 <= j < i ==> (#[trigger] levels@[j].0) <= c,
        decreases levels@.len() - i,
    {
        i += 1;
    }
    proof {
        lemma_first_above_at(levels@, c, i as int);
    }
    i
}

/// One page of all stored timer states, keyed by token id string, in
/// ascending numeric id order, starting strictly after the `start_after`
/// cursor. The page size defaults to 10 and is capped at 1000. A cursor that
/// is not a well-formed id yields an empty page.
pub fn query_all_token_levels(
    state: &ContractState,
    start_after: &Option<String>,
    limit: Option<u32>,
) -> (r: AllTokenLevelsResponse)
    requires
        state.wf(),
    ensures
        ({
            let s = state.token_levels@;
            let lim = page_limit(limit);
            match *start_after {
                None => page_rendered(levels_page(s, None, lim), r.token_levels@),
                Some(cur) => {
                    &&& forall|c: u64| #[trigger]
                        dec_str(c as nat) == cur@ ==> page_rendered(
                            levels_page(s, Some(c), lim),
                            r.token_levels@,
                        )
                    &&& (forall|n: u64| #[trigger] dec_str(n as nat) != cur@)
                        ==> r.token_levels@.len() == 0
                },
            }
        }),
{
    let lim_u: u32 = match limit {
        None => 10,
        Some(v) => if v > 1000 {
            1000
        } else {
            v
        },
    };
    let lim = lim_u as usize;
    let mut out: Vec<(String, TokenLevelResponse)> = Vec::new();
    let lo: usize = match start_after {
        None => 0,
        Some(cur) => {
            match parse_token_id(cur.as_str()) {
                None => {
                    return AllTokenLevelsResponse { token_levels: out };
                },
                Some(c) => {
                    proof {
                        assert forall|c2: u64| #[trigger] dec_str(c2 as nat) == cur@ implies c2
                            == c by {
                            lemma_dec_str_val(c2 as nat);
                            lemma_dec_str_val(c as nat);
                        }
                    }
                    find_first_above(&state.token_levels, c)
                },
            }
        },
    };
    let ghost s = state.token_levels@;
    let ghost hi = if lo + page_limit(limit) < s.len() {
        lo + page_limit(limit)
    } else {
        s.len() as int
    };
    let mut j = lo;
    while j < state.token_levels.len() && out.len() < lim
        invariant
            lo <= j <= s.len(),
            s == state.token_levels@,
            lim as int == page_limit(limit),
            out@.len() == j - lo,
            out@.len() <= lim,
            forall|k: int|
                0 <= k < out@.len() ==> (#[trigger] out@[k]).1 == s[lo + k].1 && out@[k].0@
                    == dec_str(s[lo + k].0 as nat),
        decreases s.len() - j,
    {
        let pair = state.token_levels[j];
        let key = render_token_id(pair.0);
        out.push((key, pair.1));
        j += 1;
    }
    proof {
        assert(page_rendered(s.subrange(lo as int, j as int), out@));
        assert(j as int == hi);
    }
    AllTokenLevelsResponse { token_levels: out }
}

} // verus!
