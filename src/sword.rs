use vstd::prelude::*;
use crate::player::{class_of, GameError, SwordClass};
use crate::table::Table;

verus! {

/// How many swords of each class one owner holds.
#[derive(Clone, Copy, PartialEq, Eq, Debug, Structural)]
pub struct Holdings {
    pub longsword: i128,
    pub sabre: i128,
    pub claymore: i128,
}

/// The quantity of class `id` in `h`; none of an unknown class.
pub open spec fn amount_of(h: Holdings, id: u32) -> int {
    if id == 1 {
        h.longsword as int
    } else if id == 2 {
        h.sabre as int
    } else if id == 3 {
        h.claymore as int
    } else {
        0
    }
}

/// `h` with the quantity of class `id` set to `v`; unchanged for an unknown class.
pub open spec fn with_amount(h: Holdings, id: u32, v: i128) -> Holdings {
    if id == 1 {
        Holdings { longsword: v, ..h }
    } else if id == 2 {
        Holdings { sabre: v, ..h }
    } else if id == 3 {
        Holdings { claymore: v, ..h }
    } else {
        h
    }
}

/// `b + a`, held at `i128::MAX`.
pub open spec fn capped_sum(b: int, a: int) -> int {
    if b + a > i128::MAX {
        i128::MAX as int
    } else {
        b + a
    }
}

impl Holdings {
    pub fn empty() -> (h: Holdings)
        ensures
            forall|id: u32| amount_of(h, id) == 0,
    {
        Holdings { longsword: 0, sabre: 0, claymore: 0 }
    }

    pub fn amount(&self, id: u32) -> (r: i128)
        ensures
            r == amount_of(*self, id),
    {
        if id == 1 {
            self.longsword
        } else if id == 2 {
            self.sabre
        } else if id == 3 {
            self.claymore
        } else {
            0
        }
    }

    pub fn set_amount(&mut self, id: u32, v: i128)
        ensures
            *final(self) == with_amount(*old(self), id, v),
    {
        if id == 1 {
            self.longsword = v;
        } else if id == 2 {
            self.sabre = v;
        } else if id == 3 {
            self.claymore = v;
        }
    }
}

/// Descriptive record of a sword class.
#[derive(Clone, Debug, PartialEq, Eq)]
pub struct TokenMetadata {
    pub token_uri: String,
    pub name: String,
    pub symbol: String,
}

/// The ledger of swords held by each owner.
pub struct SwordContract {
    admin: Option<String>,
    balances: Table<Holdings>,
}

impl SwordContract {
    pub closed spec fn wf(&self) -> bool {
        self.balances.wf()
    }

    /// Quantity of class `id` held by `owner`.
    pub closed spec fn balance(&self, owner: Seq<char>, id: u32) -> int {
        if self.balances@.contains_key(owner) {
            amount_of(self.balances@[owner], id)
        } else {
            0
        }
    }

    /// Whether the two ledgers agree everywhere but on (`owner`, `id`), where
    /// the second holds `v`.
    pub open spec fn updated(&self, after: &SwordContract, owner: Seq<char>, id: u32, v: int) -> bool {
        forall|o: Seq<char>, k: u32|
            #[trigger] after.balance(o, k) == if o == owner && k == id && class_of(id).is_some() {
                v
            } else {
                self.balance(o, k)
            }
    }

    pub closed spec fn spec_admin(&self) -> Option<String> {
        self.admin
    }

    /// An empty ledger.
    pub fn new() -> (s: SwordContract)
        ensures
            s.wf(),
            forall|o: Seq<char>, k: u32| s.balance(o, k) == 0,
            s.spec_admin() is None,
    {
        SwordContract { admin: None, balances: Table::new() }
    }

    /// Records the administrator of the collection.
    pub fn initialize(&mut self, admin: String)
        requires
            old(self).wf(),
        ensures
            final(self).wf(),
            final(self).spec_admin() == Some(admin),
            forall|o: Seq<char>, k: u32| final(self).balance(o, k) == old(self).balance(o, k),
    {
        self.admin = Some(admin);
    }

    /// Accepts only amounts that are not negative.
    pub fn check_nonnegative_amount(amount: i128) -> (r: Result<(), GameError>)
        ensures
            r is Ok <==> amount >= 0,
            r is Err ==> r == Err::<(), GameError>(GameError::NegativeAmount),
    {
        if amount < 0 {
            Err(GameError::NegativeAmount)
        } else {
            Ok(())
        }
    }

    /// Quantity of class `token_id` held by `owner`, zero if none was recorded.
    pub fn balance_of(&self, owner: &String, token_id: u32) -> (r: i128)
        requires
            self.wf(),
        ensures
            r == self.balance(owner@, token_id),
    {
        read_balance(self, owner).amount(token_id)
    }

    /// Records `amount` new swords of class `token_id` for `to`.
    pub fn mint_nft(&mut self, to: String, token_id: u32, amount: i128) -> (r: Result<(), GameError>)
        requires
            old(self).wf(),
        ensures
            final(self).wf(),
            final(self).spec_admin() == old(self).spec_admin(),
            amount < 0 ==> r == Err::<(), GameError>(GameError::NegativeAmount),
            amount >= 0 && class_of(token_id) is None ==> r == Err::<(), GameError>(
                GameError::InvalidClass,
            ),
            r is Ok <==> amount >= 0 && class_of(token_id) is Some,
            r is Ok ==> old(self).updated(
                final(self),
                to@,
                token_id,
                capped_sum(old(self).balance(to@, token_id), amount as int),
            ),
            r is Err ==> *final(self) == *old(self),
    {
        Self::check_nonnegative_amount(amount)?;
        if SwordClass::from_id(token_id).is_none() {
            return Err(GameError::InvalidClass);
        }
        receive_balance(self, to, token_id, amount);
        Ok(())
    }

    /// Melts every sword of class `token_id` that `from` holds.
    pub fn melt_blade(&mut self, from: String, token_id: u32) -> (r: Result<(), GameError>)
        requires
            old(self).wf(),
        ensures
            r is Ok,
            final(self).wf(),
            final(self).spec_admin() == old(self).spec_admin(),
            old(self).updated(final(self), from@, token_id, 0),
    {
        spend_balance(self, from, token_id);
        Ok(())
    }

    /// The descriptive record of class `token_id`, if it is a known class.
    pub fn get_token_metadata(token_id: u32) -> (r: Option<TokenMetadata>)
        ensures
            match class_of(token_id) {
                None => r is None,
                Some(c) => r is Some && r.unwrap().name@ == c.spec_name() && r.unwrap().symbol@
                    == c.spec_symbol() && r.unwrap().token_uri@ == c.spec_token_uri(),
            },
    {
        match SwordClass::from_id(token_id) {
            None => None,
            Some(c) => Some(TokenMetadata { token_uri: c.token_uri(), name: c.name(), symbol: c.symbol() }),
        }
    }
}

/// Everything `addr` holds, all zero if nothing was recorded.
pub fn read_balance(ledger: &SwordContract, addr: &String) -> (r: Holdings)
    requires
        ledger.wf(),
    ensures
        forall|id: u32| amount_of(r, id) == ledger.balance(addr@, id),
{
    match ledger.balances.get(addr) {
        Some(h) => *h,
        None => Holdings::empty(),
    }
}

/// Sets what `addr` holds of class `token_id` to `amount`.
pub fn write_balance(ledger: &mut SwordContract, addr: String, token_id: u32, amount: i128)
    requires
        old(ledger).wf(),
    ensures
        final(ledger).wf(),
        final(ledger).spec_admin() == old(ledger).spec_admin(),
        old(ledger).updated(final(ledger), addr@, token_id, amount as int),
{
    let mut h = read_balance(ledger, &addr);
    let ghost h0 = h;
    h.set_amount(token_id, amount);
    let ghost before = *ledger;
    ledger.balances.insert(addr, h);
    assert forall|o: Seq<char>, k: u32|
        #[trigger] ledger.balance(o, k) == if o == addr@ && k == token_id && class_of(token_id).is_some() {
            amount as int
        } else {
            before.balance(o, k)
        } by {
        if o == addr@ {
            assert(ledger.balances@[o] == h);
            assert(amount_of(h0, k) == before.balance(o, k));
        } else {
            assert(ledger.balances@.contains_key(o) == before.balances@.contains_key(o));
        }
    }
}

/// Adds `amount` swords of class `token_id` to what `addr` holds, capped at
/// the largest quantity that can be recorded.
pub fn receive_balance(ledger: &mut SwordContract, addr: String, token_id: u32, amount: i128)
    requires
        old(ledger).wf(),
        amount >= 0,
    ensures
        final(ledger).wf(),
        final(ledger).spec_admin() == old(ledger).spec_admin(),
        old(ledger).updated(
            final(ledger),
            addr@,
            token_id,
            capped_sum(old(ledger).balance(addr@, token_id), amount as int),
        ),
{
    let current = read_balance(ledger, &addr).amount(token_id);
    let next = match current.checked_add(amount) {
        Some(v) => v,
        None => i128::MAX,
    };
    write_balance(ledger, addr, token_id, next);
}

/// Clears what `addr` holds of class `token_id`.
pub fn spend_balance(ledger: &mut SwordContract, addr: String, token_id: u32)
    requires
        old(ledger).wf(),
    ensures
        final(ledger).wf(),
        final(ledger).spec_admin() == old(ledger).spec_admin(),
        old(ledger).updated(final(ledger), addr@, token_id, 0),
{
    write_balance(ledger, addr, token_id, 0);
}

} // verus!
