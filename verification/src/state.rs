use vstd::prelude::*;
use crate::levels::levels_wf;
use crate::msg::{LevelingConfigResponse, RoyaltyConfigResponse, SaleConfigResponse,
    TokenLevelResponse};

verus! {

/// One attached payment: a denomination and an amount.
#[derive(Clone, Debug, PartialEq, Eq)]
pub struct Coin {
    pub denom: String,
    pub amount: u128,
}

/// The admin capability, with its two-phase handover: the current admin
/// proposes a successor, who must separately accept. A pending handover keeps
/// the current holder in charge until it is accepted.
#[derive(Clone, Debug, PartialEq, Eq)]
pub enum Ownership {
    Owned { admin: String },
    PendingTransfer { current: String, proposed: String },
}

impl Ownership {
    /// The address whose calls pass the admin gate.
    pub open spec fn admin(self) -> Seq<char> {
        match self {
            Ownership::Owned { admin } => admin@,
            Ownership::PendingTransfer { current, proposed: _ } => current@,
        }
    }
}

/// No two entries of a membership list hold the same address.
pub open spec fn addrs_unique(l: Seq<String>) -> bool {
    forall|i: int, j: int| 0 <= i < j < l.len() ==> l[i]@ != l[j]@
}

/// Whether an address is on a membership list.
pub open spec fn addr_listed(l: Seq<String>, a: Seq<char>) -> bool {
    exists|i: int| 0 <= i < l.len() && l[i]@ == a
}

/// The whole mutable state of the contract, as one explicit aggregate. The
/// hosting platform persists it; every operation of this library is a function
/// from this value (plus the caller, an injected timestamp, and the attached
/// funds) to its successor.
///
/// Token ids are sequential: token `i` exists iff `i < token_count`, its id
/// string is the decimal rendering of `i`, and its owner is `token_owners[i]`.
/// Timer states are created lazily, so `token_levels` holds only the tokens
/// that were ever toggled or granted experience, sorted by numeric id.
#[derive(Clone, Debug, PartialEq, Eq)]
pub struct ContractState {
    pub name: String,
    pub symbol: String,
    pub base_token_uri: String,
    /// Supply cap; `token_count <= collection_size` always.
    pub collection_size: u64,
    pub ownership: Ownership,
    pub withdraw_address: Option<String>,
    pub sale_config: SaleConfigResponse,
    pub royalty_config: RoyaltyConfigResponse,
    pub leveling_config: LevelingConfigResponse,
    /// Count of tokens ever issued.
    pub token_count: u64,
    /// Owner of each issued token, indexed by numeric id.
    pub token_owners: Vec<String>,
    pub og_list: Vec<String>,
    pub allowlist: Vec<String>,
    /// Lazily created per-token timer states, strictly sorted by numeric id.
    pub token_levels: Vec<(u64, TokenLevelResponse)>,
}

impl ContractState {
    /// Well-formedness: the invariants every operation preserves.
    pub open spec fn wf(self) -> bool {
        &&& self.token_owners@.len() == self.token_count as int
        &&& self.token_count <= self.collection_size
        &&& self.royalty_config.royalty_percentage <= 100
        &&& levels_wf(self.token_levels@)
        &&& addrs_unique(self.og_list@)
        &&& addrs_unique(self.allowlist@)
    }

    /// The address currently holding the admin capability.
    pub open spec fn admin(self) -> Seq<char> {
        self.ownership.admin()
    }

    pub open spec fn is_admin(self, sender: Seq<char>) -> bool {
        self.admin() == sender
    }

    /// Every field but the timer map agrees with `other`.
    pub open spec fn same_except_levels(self, other: ContractState) -> bool {
        &&& self.leveling_config == other.leveling_config
        &&& self.same_except_leveling(other)
    }

    /// Every field a mint never touches agrees with `other`: everything but
    /// the issued count, the owner table, and the membership lists.
    pub open spec fn same_except_mint(self, other: ContractState) -> bool {
        &&& self.name == other.name
        &&& self.symbol == other.symbol
        &&& self.base_token_uri == other.base_token_uri
        &&& self.collection_size == other.collection_size
        &&& self.ownership == other.ownership
        &&& self.withdraw_address == other.withdraw_address
        &&& self.sale_config == other.sale_config
        &&& self.royalty_config == other.royalty_config
        &&& self.leveling_config == other.leveling_config
        &&& self.token_levels == other.token_levels
    }

    /// Every field but the timer map and the leveling config agrees with
    /// `other`.
    pub open spec fn same_except_leveling(self, other: ContractState) -> bool {
        &&& self.name == other.name
        &&& self.symbol == other.symbol
        &&& self.base_token_uri == other.base_token_uri
        &&& self.collection_size == other.collection_size
        &&& self.ownership == other.ownership
        &&& self.withdraw_address == other.withdraw_address
        &&& self.sale_config == other.sale_config
        &&& self.royalty_config == other.royalty_config
        &&& self.token_count == other.token_count
        &&& self.token_owners == other.token_owners
        &&& self.og_list == other.og_list
        &&& self.allowlist == other.allowlist
    }
}

/// Decides whether the caller holds the admin capability.
pub fn check_admin(state: &ContractState, sender: &String) -> (r: bool)
    ensures
        r == state.is_admin(sender@),
{
    match &state.ownership {
        Ownership::Owned { admin } => admin.eq(sender),
        Ownership::PendingTransfer { current, proposed: _ } => current.eq(sender),
    }
}

/// Whether an address is on a membership list, decided by scanning it.
pub fn addr_list_contains(l: &Vec<String>, a: &String) -> (r: bool)
    ensures
        r == addr_listed(l@, a@),
{
    let mut i: usize = 0;
    while i < l.len()
        invariant
            0 <= i <= l@.len(),
            forall|j: int| 0 <= j < i ==> l@[j]@ != a@,
        decreases l@.len() - i,
    {
        if l[i].eq(a) {
            assert(l@[i as int]@ == a@);
            return true;
        }
        i += 1;
    }
    proof {
        if addr_listed(l@, a@) {
            let k = choose|k: int| 0 <= k < l@.len() && l@[k]@ == a@;
            assert(l@[k]@ != a@);
        }
    }
    false
}

/// Adds an address to a membership list unless it is already there, keeping
/// the list duplicate-free.
pub fn addr_list_add(l: &mut Vec<String>, a: String)
    requires
        addrs_unique(old(l)@),
    ensures
        addrs_unique(final(l)@),
        addr_listed(final(l)@, a@),
        forall|b: Seq<char>| b != a@ ==> addr_listed(final(l)@, b) == addr_listed(old(l)@, b),
        addr_listed(old(l)@, a@) ==> final(l)@ == old(l)@,
        !addr_listed(old(l)@, a@) ==> final(l)@ == old(l)@.push(a),
{
    if !addr_list_contains(l, &a) {
        let ghost prev = l@;
        l.push(a);
        proof {
            assert(forall|j: int| 0 <= j < prev.len() ==> l@[j] == prev[j]);
            assert(l@[prev.len() as int]@ == a@);
            assert forall|b: Seq<char>| b != a@ implies addr_listed(l@, b) == addr_listed(
                prev,
                b,
            ) by {
                if addr_listed(l@, b) {
                    let i = choose|i: int| 0 <= i < l@.len() && l@[i]@ == b;
                    assert(i < prev.len() && prev[i]@ == b);
                }
                if addr_listed(prev, b) {
                    let i = choose|i: int| 0 <= i < prev.len() && prev[i]@ == b;
                    assert(l@[i]@ == b);
                }
            }
            assert forall|p: int, q: int| 0 <= p < q < l@.len() implies l@[p]@ != l@[q]@ by {
                if q < prev.len() {
                    assert(prev[p]@ != prev[q]@);
                } else {
                    assert(l@[q]@ == a@ && prev[p]@ != a@);
                }
            }
        }
    }
}

/// Removes an address from a membership list; with a duplicate-free list that
/// is at most one entry.
pub fn addr_list_remove(l: &mut Vec<String>, a: &String)
    requires
        addrs_unique(old(l)@),
    ensures
        addrs_unique(final(l)@),
        !addr_listed(final(l)@, a@),
        forall|b: Seq<char>| b != a@ ==> addr_listed(final(l)@, b) == addr_listed(old(l)@, b),
        !addr_listed(old(l)@, a@) ==> final(l)@ == old(l)@,
{
    let mut i: usize = 0;
    while i < l.len()
        invariant
            0 <= i <= l@.len(),
            l@ == old(l)@,
            addrs_unique(l@),
            forall|j: int| 0 <= j < i ==> l@[j]@ != a@,
        decreases l@.len() - i,
    {
        if l[i].eq(a) {
            let ghost prev = l@;
            l.remove(i);
            proof {
                assert(prev[i as int]@ == a@);
                assert(l@ =~= prev.remove(i as int));
                assert(forall|m: int| 0 <= m < i ==> l@[m] == prev[m]);
                assert(forall|m: int| i <= m < l@.len() ==> l@[m] == prev[m + 1]);
                assert forall|b: Seq<char>| b != a@ implies addr_listed(l@, b) == addr_listed(
                    prev,
                    b,
                ) by {
                    if addr_listed(prev, b) {
                        let k = choose|k: int| 0 <= k < prev.len() && prev[k]@ == b;
                        if k < i {
                            assert(l@[k]@ == b);
                        } else {
                            assert(k != i);
                            assert(l@[k - 1]@ == b);
                        }
                    }
                    if addr_listed(l@, b) {
                        let k = choose|k: int| 0 <= k < l@.len() && l@[k]@ == b;
                        if k < i {
                            assert(prev[k]@ == b);
                        } else {
                            assert(prev[k + 1]@ == b);
                        }
                    }
                }
                assert forall|p: int, q: int| 0 <= p < q < l@.len() implies l@[p]@ != l@[q]@ by {
                    let pp = if p < i { p } else { p + 1 };
                    let qq = if q < i { q } else { q + 1 };
                    assert(l@[p] == prev[pp] && l@[q] == prev[qq]);
                }
                assert(!addr_listed(l@, a@)) by {
                    if addr_listed(l@, a@) {
                        let k = choose|k: int| 0 <= k < l@.len() && l@[k]@ == a@;
                        if k < i {
                            assert(prev[k]@ == a@);
                        } else {
                            assert(prev[k + 1]@ == a@ && prev[i as int]@ == a@);
                        }
                    }
                }
            }
            return ;
        }
        i += 1;
    }
    proof {
        if addr_listed(l@, a@) {
            let k = choose|k: int| 0 <= k < l@.len() && l@[k]@ == a@;
            assert(l@[k]@ != a@);
        }
    }
}

} // verus!
