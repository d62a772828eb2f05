use crate::events::Event;
use crate::pubkey::Pubkey;
use crate::state::BountyAccount;
use crate::state::ProgramConfig;
use crate::sums::lemma_total_push;
use crate::sums::lemma_total_remove;
use crate::sums::lemma_total_update;
use crate::sums::total;
use vstd::prelude::*;

verus! {

/// The state of a ledger as the operations on it see it.
pub struct LedgerView {
    /// The current time.
    pub clock: i64,
    /// The deposit that is taken for the storage of each bounty record.
    pub deposit: u64,
    /// The registry, once it is initialized.
    pub config: Option<ProgramConfig>,
    /// The live bounty records with the funds held under them, by id.
    pub bounties: Map<u64, BountyAccount>,
    /// The balance of every identity. An identity that never held funds has
    /// a balance of zero.
    pub balances: Map<Pubkey, nat>,
    /// All the funds in the ledger: the balances and what the records hold.
    pub supply: nat,
    /// The events of the operations that succeeded, oldest first.
    pub events: Seq<Event>,
}

impl LedgerView {
    /// What holds of every state that a ledger can be in.
    pub open spec fn well_formed(self) -> bool {
        &&& forall|key: Pubkey| #[trigger] self.balances.dom().contains(key)
        &&& forall|id: u64| #[trigger]
            self.bounties.dom().contains(id) ==> self.bounties[id].data.id == id
                && self.bounties[id].well_formed() && self.bounties[id].funds() <= self.supply
        &&& self.supply <= u64::MAX
        &&& forall|key: Pubkey| #[trigger] self.balances[key] <= self.supply
    }

    /// The state after `amount` was added to the balance of `key`.
    pub open spec fn credited(self, key: Pubkey, amount: nat) -> LedgerView {
        LedgerView { balances: self.balances.insert(key, self.balances[key] + amount), ..self }
    }

    /// The state after `event` was recorded.
    pub open spec fn emitted(self, event: Event) -> LedgerView {
        LedgerView { events: self.events.push(event), ..self }
    }

    /// The state after `amount` was taken from the balance of `key`.
    pub open spec fn debited(self, key: Pubkey, amount: nat) -> LedgerView {
        LedgerView {
            balances: self.balances.insert(key, (self.balances[key] - amount) as nat),
            ..self
        }
    }
}

/// The balance of one identity.
#[derive(Debug)]
struct Wallet {
    key: Pubkey,
    lamports: u64,
}

/// An in-memory ledger: the registry, the live bounty records with their
/// escrow, and the balances of the parties. No identity has two balances and
/// no id has two records.
#[derive(Debug)]
pub struct Ledger {
    clock: i64,
    deposit: u64,
    config: Option<ProgramConfig>,
    bounties: Vec<BountyAccount>,
    wallets: Vec<Wallet>,
    /// The sum of all the balances and of what the records hold.
    supply: u64,
    events: Vec<Event>,
}

spec fn wallet_at(wallets: Seq<Wallet>, key: Pubkey, i: int) -> bool {
    0 <= i < wallets.len() && wallets[i].key == key
}

spec fn record_at(accounts: Seq<BountyAccount>, id: u64, i: int) -> bool {
    0 <= i < accounts.len() && accounts[i].data.id == id
}

spec fn keys_distinct(wallets: Seq<Wallet>) -> bool {
    forall|i: int, j: int|
        0 <= i < j < wallets.len() ==> (#[trigger] wallets[i]).key != (#[trigger] wallets[j]).key
}

spec fn ids_distinct(accounts: Seq<BountyAccount>) -> bool {
    forall|i: int, j: int|
        0 <= i < j < accounts.len() ==> (#[trigger] accounts[i]).data.id != (
        #[trigger] accounts[j]).data.id
}

spec fn balance_in(wallets: Seq<Wallet>, key: Pubkey) -> nat {
    if exists|i: int| wallet_at(wallets, key, i) {
        wallets[choose|i: int| wallet_at(wallets, key, i)].lamports as nat
    } else {
        0
    }
}

spec fn records_of(accounts: Seq<BountyAccount>) -> Map<u64, BountyAccount> {
    Map::new(
        |id: u64| exists|i: int| record_at(accounts, id, i),
        |id: u64| accounts[choose|i: int| record_at(accounts, id, i)],
    )
}

spec fn wallet_amounts(wallets: Seq<Wallet>) -> Seq<nat> {
    wallets.map_values(|wallet: Wallet| wallet.lamports as nat)
}

spec fn held_amounts(accounts: Seq<BountyAccount>) -> Seq<nat> {
    accounts.map_values(|account: BountyAccount| account.funds())
}

proof fn lemma_balance_at(wallets: Seq<Wallet>, i: int)
    requires
        keys_distinct(wallets),
        0 <= i < wallets.len(),
    ensures
        balance_in(wallets, wallets[i].key) == wallets[i].lamports,
{
    let key = wallets[i].key;
    assert(wallet_at(wallets, key, i));
    let j = choose|j: int| wallet_at(wallets, key, j);
    assert(i == j);
}

proof fn lemma_record_at(accounts: Seq<BountyAccount>, i: int)
    requires
        ids_distinct(accounts),
        0 <= i < accounts.len(),
    ensures
        records_of(accounts).dom().contains(accounts[i].data.id),
        records_of(accounts)[accounts[i].data.id] == accounts[i],
{
    let id = accounts[i].data.id;
    assert(record_at(accounts, id, i));
    let j = choose|j: int| record_at(accounts, id, j);
    assert(i == j);
}

spec fn with_lamports(wallets: Seq<Wallet>, i: int, lamports: u64) -> Seq<Wallet> {
    wallets.update(i, Wallet { key: wallets[i].key, lamports })
}

proof fn lemma_wallet_update(wallets: Seq<Wallet>, i: int, lamports: u64)
    requires
        keys_distinct(wallets),
        0 <= i < wallets.len(),
    ensures
        keys_distinct(with_lamports(wallets, i, lamports)),
        forall|key: Pubkey| #[trigger]
            balance_in(with_lamports(wallets, i, lamports), key) == if key == wallets[i].key {
                lamports as nat
            } else {
                balance_in(wallets, key)
            },
        total(wallet_amounts(with_lamports(wallets, i, lamports))) + wallets[i].lamports == total(
            wallet_amounts(wallets),
        ) + lamports,
{
    let after = with_lamports(wallets, i, lamports);
    assert forall|key: Pubkey| #[trigger]
        balance_in(after, key) == if key == wallets[i].key {
            lamports as nat
        } else {
            balance_in(wallets, key)
        } by {
        if key == wallets[i].key {
            lemma_balance_at(after, i);
        } else if exists|j: int| wallet_at(wallets, key, j) {
            let j = choose|j: int| wallet_at(wallets, key, j);
            lemma_balance_at(wallets, j);
            lemma_balance_at(after, j);
        } else {
            assert forall|j: int| !wallet_at(after, key, j) by {
                assert(!wallet_at(wallets, key, j));
            }
        }
    }
    lemma_total_update(wallet_amounts(wallets), i, lamports as nat);
    assert(wallet_amounts(after) =~= wallet_amounts(wallets).update(i, lamports as nat));
}

proof fn lemma_wallet_push(wallets: Seq<Wallet>, wallet: Wallet)
    requires
        keys_distinct(wallets),
        forall|j: int| !wallet_at(wallets, wallet.key, j),
    ensures
        keys_distinct(wallets.push(wallet)),
        forall|key: Pubkey| #[trigger]
            balance_in(wallets.push(wallet), key) == if key == wallet.key {
                wallet.lamports as nat
            } else {
                balance_in(wallets, key)
            },
        balance_in(wallets, wallet.key) == 0,
        total(wallet_amounts(wallets.push(wallet))) == total(wallet_amounts(wallets))
            + wallet.lamports,
{
    let after = wallets.push(wallet);
    assert forall|i: int, j: int| 0 <= i < j < after.len() implies (#[trigger] after[i]).key != (
    #[trigger] after[j]).key by {
        assert(!wallet_at(wallets, wallet.key, i));
    }
    assert forall|key: Pubkey| #[trigger]
        balance_in(after, key) == if key == wallet.key {
            wallet.lamports as nat
        } else {
            balance_in(wallets, key)
        } by {
        if key == wallet.key {
            lemma_balance_at(after, wallets.len() as int);
        } else if exists|j: int| wallet_at(wallets, key, j) {
            let j = choose|j: int| wallet_at(wallets, key, j);
            lemma_balance_at(wallets, j);
            lemma_balance_at(after, j);
        } else {
            assert forall|j: int| !wallet_at(after, key, j) by {
                assert(!wallet_at(wallets, key, j));
            }
        }
    }
    lemma_total_push(wallet_amounts(wallets), wallet.lamports as nat);
    assert(wallet_amounts(after) =~= wallet_amounts(wallets).push(wallet.lamports as nat));
}

proof fn lemma_record_push(accounts: Seq<BountyAccount>, account: BountyAccount)
    requires
        ids_distinct(accounts),
        forall|j: int| !record_at(accounts, account.data.id, j),
    ensures
        ids_distinct(accounts.push(account)),
        records_of(accounts.push(account)) == records_of(accounts).insert(account.data.id, account),
        total(held_amounts(accounts.push(account))) == total(held_amounts(accounts))
            + account.funds(),
{
    let after = accounts.push(account);
    assert forall|i: int, j: int| 0 <= i < j < after.len() implies (#[trigger] after[i]).data.id
        != (#[trigger] after[j]).data.id by {
        assert(!record_at(accounts, account.data.id, i));
    }
    let expected = records_of(accounts).insert(account.data.id, account);
    assert forall|id: u64|
        #![trigger records_of(after).dom().contains(id)]
        #![trigger expected.dom().contains(id)]
        records_of(after).dom().contains(id) == expected.dom().contains(id) && (records_of(
            after,
        ).dom().contains(id) ==> records_of(after)[id] == expected[id]) by {
        if id == account.data.id {
            lemma_record_at(after, accounts.len() as int);
        } else if exists|j: int| record_at(accounts, id, j) {
            let j = choose|j: int| record_at(accounts, id, j);
            lemma_record_at(accounts, j);
            lemma_record_at(after, j);
        } else {
            assert forall|j: int| !record_at(after, id, j) by {
                assert(!record_at(accounts, id, j));
            }
        }
    }
    assert(records_of(after) =~= expected);
    lemma_total_push(held_amounts(accounts), account.funds());
    assert(held_amounts(after) =~= held_amounts(accounts).push(account.funds()));
}

proof fn lemma_record_remove(accounts: Seq<BountyAccount>, i: int)
    requires
        ids_distinct(accounts),
        0 <= i < accounts.len(),
    ensures
        ids_distinct(accounts.remove(i)),
        records_of(accounts.remove(i)) == records_of(accounts).remove(accounts[i].data.id),
        total(held_amounts(accounts.remove(i))) + accounts[i].funds() == total(
            held_amounts(accounts),
        ),
{
    let after = accounts.remove(i);
    let gone = accounts[i].data.id;
    assert forall|j: int| 0 <= j < after.len() implies #[trigger] after[j] == accounts[if j < i {
        j
    } else {
        j + 1
    }] by {}
    assert forall|j: int, k: int| 0 <= j < k < after.len() implies (#[trigger] after[j]).data.id
        != (#[trigger] after[k]).data.id by {
        let j0 = if j < i { j } else { j + 1 };
        let k0 = if k < i { k } else { k + 1 };
        assert(after[j] == accounts[j0]);
        assert(after[k] == accounts[k0]);
    }
    let expected = records_of(accounts).remove(gone);
    assert forall|id: u64|
        #![trigger records_of(after).dom().contains(id)]
        #![trigger expected.dom().contains(id)]
        records_of(after).dom().contains(id) == expected.dom().contains(id) && (records_of(
            after,
        ).dom().contains(id) ==> records_of(after)[id] == expected[id]) by {
        if id == gone {
            assert forall|j: int| !record_at(after, id, j) by {
                if 0 <= j < after.len() {
                    let j0 = if j < i { j } else { j + 1 };
                    assert(after[j] == accounts[j0]);
                }
            }
        } else if exists|j: int| record_at(accounts, id, j) {
            let j = choose|j: int| record_at(accounts, id, j);
            let j1 = if j < i { j } else { j - 1 };
            assert(after[j1] == accounts[j]);
            lemma_record_at(accounts, j);
            lemma_record_at(after, j1);
        } else {
            assert forall|j: int| !record_at(after, id, j) by {
                if 0 <= j < after.len() {
                    let j0 = if j < i { j } else { j + 1 };
                    assert(after[j] == accounts[j0]);
                    assert(!record_at(accounts, id, j0));
                }
            }
        }
    }
    assert(records_of(after) =~= expected);
    lemma_total_remove(held_amounts(accounts), i);
    assert(held_amounts(after) =~= held_amounts(accounts).remove(i));
}

impl View for Ledger {
    type V = LedgerView;

    closed spec fn view(&self) -> LedgerView {
        LedgerView {
            clock: self.clock,
            deposit: self.deposit,
            config: self.config,
            bounties: records_of(self.bounties@),
            balances: Map::total(|key: Pubkey| balance_in(self.wallets@, key)),
            supply: self.supply as nat,
            events: self.events@,
        }
    }
}

impl Ledger {
    /// The invariant of the ledger: no identity has two balances, no id has
    /// two records, every record is well formed, and all the funds together
    /// fit the balance of one account.
    pub closed spec fn wf(&self) -> bool {
        &&& keys_distinct(self.wallets@)
        &&& ids_distinct(self.bounties@)
        &&& forall|i: int| 0 <= i < self.bounties@.len() ==> #[trigger] self.bounties@[i].well_formed()
        &&& self.supply == total(wallet_amounts(self.wallets@)) + total(
            held_amounts(self.bounties@),
        )
    }

    /// The state of a well-formed ledger is well formed.
    pub proof fn lemma_view_well_formed(&self)
        requires
            self.wf(),
        ensures
            self@.well_formed(),
    {
        let wallets = self.wallets@;
        let accounts = self.bounties@;
        assert forall|id: u64| #[trigger] self@.bounties.dom().contains(id) implies self@.bounties[id].data.id
            == id && self@.bounties[id].well_formed() && self@.bounties[id].funds()
            <= self@.supply by {
            let i = choose|i: int| record_at(accounts, id, i);
            assert(record_at(accounts, id, i));
            lemma_total_remove(held_amounts(accounts), i);
        }
        assert forall|key: Pubkey| #[trigger] self@.balances[key] <= self@.supply by {
            if exists|i: int| wallet_at(wallets, key, i) {
                let i = choose|i: int| wallet_at(wallets, key, i);
                lemma_total_remove(wallet_amounts(wallets), i);
            }
        }
    }

    /// The identities that have a balance of their own in the ledger, each
    /// once.
    pub closed spec fn holders(&self) -> Seq<Pubkey> {
        self.wallets@.map_values(|wallet: Wallet| wallet.key)
    }

    /// The ids of the live records, each once.
    pub closed spec fn ids(&self) -> Seq<u64> {
        self.bounties@.map_values(|account: BountyAccount| account.data.id)
    }

    /// The supply is all the funds there are: the sum of the balances of
    /// the holders and of the funds under the live records. Whoever is no
    /// holder has a balance of zero.
    pub proof fn lemma_supply_is_all_funds(&self)
        requires
            self.wf(),
        ensures
            self.holders().no_duplicates(),
            self.ids().no_duplicates(),
            forall|key: Pubkey| !self.holders().contains(key) ==> self@.balances[key] == 0,
            forall|id: u64| self.ids().contains(id) <==> self@.bounties.dom().contains(id),
            self@.supply == total(self.holders().map_values(|key: Pubkey| self@.balances[key]))
                + total(self.ids().map_values(|id: u64| self@.bounties[id].funds())),
    {
        let wallets = self.wallets@;
        let accounts = self.bounties@;
        let holders = self.holders();
        let ids = self.ids();
        assert forall|key: Pubkey| !holders.contains(key) implies self@.balances[key] == 0 by {
            if exists|i: int| wallet_at(wallets, key, i) {
                let i = choose|i: int| wallet_at(wallets, key, i);
                assert(holders[i] == key);
            }
        }
        assert forall|id: u64| ids.contains(id) <==> self@.bounties.dom().contains(id) by {
            if ids.contains(id) {
                let i = choose|i: int| 0 <= i < ids.len() && ids[i] == id;
                assert(record_at(accounts, id, i));
            }
            if self@.bounties.dom().contains(id) {
                let i = choose|i: int| record_at(accounts, id, i);
                assert(ids[i] == id);
            }
        }
        let balances = holders.map_values(|key: Pubkey| self@.balances[key]);
        assert(balances =~= wallet_amounts(wallets)) by {
            assert forall|i: int| 0 <= i < wallets.len() implies balances[i] == wallet_amounts(
                wallets,
            )[i] by {
                lemma_balance_at(wallets, i);
            }
        }
        let held = ids.map_values(|id: u64| self@.bounties[id].funds());
        assert(held =~= held_amounts(accounts)) by {
            assert forall|i: int| 0 <= i < accounts.len() implies held[i] == held_amounts(
                accounts,
            )[i] by {
                lemma_record_at(accounts, i);
            }
        }
    }

    /// An empty ledger: no registry, no record and no funds, at time zero.
    pub fn new(deposit: u64) -> (ledger: Ledger)
        ensures
            ledger.wf(),
            ledger@.clock == 0,
            ledger@.deposit == deposit,
            ledger@.config is None,
            ledger@.bounties == Map::<u64, BountyAccount>::empty(),
            ledger@.balances == Map::total(|key: Pubkey| 0nat),
            ledger@.supply == 0,
            ledger@.events == Seq::<Event>::empty(),
    {
        let ledger = Ledger {
            clock: 0,
            deposit,
            config: None,
            bounties: Vec::new(),
            wallets: Vec::new(),
            supply: 0,
            events: Vec::new(),
        };
        assert(ledger@.bounties =~= Map::<u64, BountyAccount>::empty());
        assert(ledger@.balances =~= Map::total(|key: Pubkey| 0nat));
        ledger
    }

    /// The current time.
    pub fn clock(&self) -> (clock: i64)
        ensures
            clock == self@.clock,
    {
        self.clock
    }

    /// The deposit taken for the storage of each bounty record.
    pub fn deposit(&self) -> (deposit: u64)
        ensures
            deposit == self@.deposit,
    {
        self.deposit
    }

    /// The registry, once it is initialized.
    pub fn config(&self) -> (config: Option<ProgramConfig>)
        ensures
            config == self@.config,
    {
        self.config
    }

    /// All the funds in the ledger.
    pub fn supply(&self) -> (supply: u64)
        ensures
            supply == self@.supply,
    {
        self.supply
    }

    /// The events of the operations that succeeded, oldest first.
    pub fn events(&self) -> (events: &Vec<Event>)
        ensures
            events@ == self@.events,
    {
        &self.events
    }

    /// Sets the current time.
    pub fn set_clock(&mut self, now: i64)
        requires
            old(self).wf(),
        ensures
            final(self).wf(),
            final(self)@ == (LedgerView { clock: now, ..old(self)@ }),
    {
        self.clock = now;
    }

    /// Brings new funds into the ledger, to the balance of `key`. Refuses,
    /// and changes nothing, where all the funds together would no longer fit
    /// the balance of one account.
    pub fn fund(&mut self, key: Pubkey, amount: u64) -> (funded: bool)
        requires
            old(self).wf(),
        ensures
            final(self).wf(),
            funded == (old(self)@.supply + amount <= u64::MAX),
            funded ==> final(self)@ == (LedgerView {
                supply: (old(self)@.supply + amount) as nat,
                ..old(self)@.credited(key, amount as nat)
            }),
            !funded ==> final(self)@ == old(self)@,
    {
        if amount > u64::MAX - self.supply {
            return false;
        }
        self.credit(key, amount);
        true
    }

    /// Records an event.
    pub(crate) fn emit(&mut self, event: Event)
        requires
            old(self).wf(),
        ensures
            final(self).wf(),
            final(self)@ == old(self)@.emitted(event),
    {
        self.events.push(event);
    }

    /// Stores the registry.
    pub(crate) fn set_config(&mut self, config: ProgramConfig)
        requires
            old(self).wf(),
        ensures
            final(self).wf(),
            final(self)@ == (LedgerView { config: Some(config), ..old(self)@ }),
    {
        self.config = Some(config);
    }

    /// Adds `amount` to the balance of `key`, from outside the ledger.
    pub(crate) fn credit(&mut self, key: Pubkey, amount: u64)
        requires
            old(self).wf(),
            old(self)@.supply + amount <= u64::MAX,
        ensures
            final(self).wf(),
            final(self)@ == (LedgerView {
                supply: (old(self)@.supply + amount) as nat,
                ..old(self)@.credited(key, amount as nat)
            }),
    {
        match self.find_wallet(&key) {
            Some(i) => {
                let before = self.wallets[i].lamports;
                proof {
                    lemma_balance_at(self.wallets@, i as int);
                    lemma_total_remove(wallet_amounts(self.wallets@), i as int);
                    lemma_wallet_update(self.wallets@, i as int, (before + amount) as u64);
                }
                self.wallets[i].lamports = before + amount;
                assert(self.wallets@ =~= with_lamports(
                    old(self).wallets@,
                    i as int,
                    (before + amount) as u64,
                ));
            },
            None => {
                let wallet = Wallet { key, lamports: amount };
                proof {
                    lemma_wallet_push(self.wallets@, wallet);
                }
                self.wallets.push(wallet);
            },
        }
        self.supply = self.supply + amount;
        assert(self@.balances =~= old(self)@.credited(key, amount as nat).balances);
    }

    /// Takes `amount` from the balance of `key`, out of the ledger.
    pub(crate) fn debit(&mut self, key: &Pubkey, amount: u64)
        requires
            old(self).wf(),
            amount <= old(self)@.balances[*key],
        ensures
            final(self).wf(),
            final(self)@ == (LedgerView {
                supply: (old(self)@.supply - amount) as nat,
                ..old(self)@.debited(*key, amount as nat)
            }),
    {
        match self.find_wallet(key) {
            Some(i) => {
                let before = self.wallets[i].lamports;
                proof {
                    lemma_balance_at(self.wallets@, i as int);
                    lemma_total_remove(wallet_amounts(self.wallets@), i as int);
                    lemma_wallet_update(self.wallets@, i as int, (before - amount) as u64);
                }
                self.wallets[i].lamports = before - amount;
                assert(self.wallets@ =~= with_lamports(
                    old(self).wallets@,
                    i as int,
                    (before - amount) as u64,
                ));
                self.supply = self.supply - amount;
            },
            None => {},
        }
        assert(self@.balances =~= old(self)@.debited(*key, amount as nat).balances);
    }

    /// Stores the account of a new record, with funds from outside the
    /// ledger.
    pub(crate) fn put(&mut self, account: BountyAccount)
        requires
            old(self).wf(),
            account.well_formed(),
            !old(self)@.bounties.dom().contains(account.data.id),
            old(self)@.supply + account.funds() <= u64::MAX,
        ensures
            final(self).wf(),
            final(self)@ == (LedgerView {
                bounties: old(self)@.bounties.insert(account.data.id, account),
                supply: (old(self)@.supply + account.funds()) as nat,
                ..old(self)@
            }),
    {
        proof {
            assert forall|j: int| !record_at(self.bounties@, account.data.id, j) by {
                if record_at(self.bounties@, account.data.id, j) {
                    lemma_record_at(self.bounties@, j);
                }
            }
            lemma_record_push(self.bounties@, account);
        }
        self.supply = self.supply + account.escrow + account.reserve;
        self.bounties.push(account);
    }

    /// Removes the account of a record and hands it out, with its funds.
    pub(crate) fn take(&mut self, id: u64) -> (account: BountyAccount)
        requires
            old(self).wf(),
            old(self)@.bounties.dom().contains(id),
        ensures
            final(self).wf(),
            account == old(self)@.bounties[id],
            final(self)@ == (LedgerView {
                bounties: old(self)@.bounties.remove(id),
                supply: (old(self)@.supply - account.funds()) as nat,
                ..old(self)@
            }),
    {
        let found = self.find_bounty(id);
        assert(found is Some);
        let i = found.unwrap();
        proof {
            lemma_record_at(self.bounties@, i as int);
            lemma_record_remove(self.bounties@, i as int);
            lemma_total_remove(held_amounts(self.bounties@), i as int);
        }
        let account = self.bounties.remove(i);
        self.supply = self.supply - account.escrow - account.reserve;
        account
    }

    fn find_wallet(&self, key: &Pubkey) -> (found: Option<usize>)
        ensures
            match found {
                Some(i) => wallet_at(self.wallets@, *key, i as int),
                None => forall|i: int| !wallet_at(self.wallets@, *key, i),
            },
    {
        let mut i: usize = 0;
        while i < self.wallets.len()
            invariant
                i <= self.wallets@.len(),
                forall|j: int| 0 <= j < i ==> !wallet_at(self.wallets@, *key, j),
            decreases self.wallets@.len() - i,
        {
            if self.wallets[i].key == *key {
                return Some(i);
            }
            i += 1;
        }
        None
    }

    fn find_bounty(&self, id: u64) -> (found: Option<usize>)
        ensures
            match found {
                Some(i) => record_at(self.bounties@, id, i as int),
                None => forall|i: int| !record_at(self.bounties@, id, i),
            },
    {
        let mut i: usize = 0;
        while i < self.bounties.len()
            invariant
                i <= self.bounties@.len(),
                forall|j: int| 0 <= j < i ==> !record_at(self.bounties@, id, j),
            decreases self.bounties@.len() - i,
        {
            if self.bounties[i].data.id == id {
                return Some(i);
            }
            i += 1;
        }
        None
    }

    /// The balance of an identity.
    pub fn balance(&self, key: &Pubkey) -> (balance: u64)
        requires
            self.wf(),
        ensures
            balance == self@.balances[*key],
    {
        match self.find_wallet(key) {
            Some(i) => {
                proof {
                    lemma_balance_at(self.wallets@, i as int);
                }
                self.wallets[i].lamports
            },
            None => 0,
        }
    }

    /// The live record with the given id and the funds held under it.
    pub fn bounty(&self, id: u64) -> (found: Option<&BountyAccount>)
        requires
            self.wf(),
        ensures
            match found {
                Some(account) => self@.bounties.dom().contains(id) && *account
                    == self@.bounties[id],
                None => !self@.bounties.dom().contains(id),
            },
    {
        match self.find_bounty(id) {
            Some(i) => {
                proof {
                    lemma_record_at(self.bounties@, i as int);
                }
                Some(&self.bounties[i])
            },
            None => None,
        }
    }
}

} // verus!
