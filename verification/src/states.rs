use vstd::prelude::*;
use crate::constants::{ID_LENGTH, MAX_COLLECTIONS};
use crate::pubkey::{bytes_eq, Pubkey};

verus! {

/// The buyer identifier of a ticket slot that nobody has bought yet.
pub open spec fn empty_uid() -> [u8; ID_LENGTH] {
    vstd::array::spec_array_fill_for_copy_type::<u8, ID_LENGTH>(0u8)
}

/// Index of the first slot at or after `from` that holds `key`, or the number
/// of slots when there is none.
pub open spec fn first_index_from(slots: Seq<Pubkey>, key: Pubkey, from: int) -> int
    decreases slots.len() - from,
{
    if from < 0 || from >= slots.len() {
        slots.len() as int
    } else if slots[from] == key {
        from
    } else {
        first_index_from(slots, key, from + 1)
    }
}

/// Index of the first slot that holds `key`, or the number of slots when no
/// slot does.
pub open spec fn first_index(slots: Seq<Pubkey>, key: Pubkey) -> int {
    first_index_from(slots, key, 0)
}

/// `first_index_from` finds a slot holding `key` that no slot between `from`
/// and it holds, and answers with the length exactly when none is left.
pub proof fn lemma_first_index_from(slots: Seq<Pubkey>, key: Pubkey, from: int)
    requires
        0 <= from <= slots.len(),
    ensures
        from <= first_index_from(slots, key, from) <= slots.len(),
        first_index_from(slots, key, from) < slots.len() ==> slots[first_index_from(
            slots,
            key,
            from,
        )] == key,
        forall|j: int| from <= j < first_index_from(slots, key, from) ==> slots[j] != key,
    decreases slots.len() - from,
{
    if from < slots.len() && slots[from] != key {
        lemma_first_index_from(slots, key, from + 1);
    }
}

/// `first_index` is the least index that holds `key`; it is the length
/// exactly when `key` is in no slot.
pub proof fn lemma_first_index(slots: Seq<Pubkey>, key: Pubkey)
    ensures
        0 <= first_index(slots, key) <= slots.len(),
        first_index(slots, key) < slots.len() ==> slots[first_index(slots, key)] == key,
        forall|j: int| 0 <= j < first_index(slots, key) ==> slots[j] != key,
        first_index(slots, key) < slots.len() <==> slots.contains(key),
{
    lemma_first_index_from(slots, key, 0);
    let p = first_index(slots, key);
    if p < slots.len() {
        assert(slots[p] == key);
    }
}

/// The collections that the slots of a whitelist hold, the all-zero
/// identity of empty slots left out.
pub open spec fn members(slots: Seq<Pubkey>) -> Set<Pubkey> {
    Set::new(|c: Pubkey| c != Pubkey::zero() && slots.contains(c))
}

/// No collection occupies two slots.
pub open spec fn distinct(slots: Seq<Pubkey>) -> bool {
    forall|i: int, j: int|
        0 <= i < j < slots.len() && slots[i] == slots[j] ==> slots[i] == Pubkey::zero()
}

/// The singleton configuration: who may administer it, who receives fees,
/// how many raffles exist, and which collections may be raffled.
#[derive(Clone, Copy, Debug, PartialEq, Eq)]
pub struct GlobalAccount {
    pub authority: Pubkey,
    pub vault: Pubkey,
    pub total_raffles: u32,
    pub wl_collections: [Pubkey; MAX_COLLECTIONS],
}

impl GlobalAccount {
    /// The whitelist as a sequence of its slots, empty ones included.
    pub open spec fn slots(self) -> Seq<Pubkey> {
        self.wl_collections@
    }

    /// Whether some slot of the whitelist holds `collection`.
    pub open spec fn holds(self, collection: Pubkey) -> bool {
        self.slots().contains(collection)
    }

    /// The collections that are whitelisted: what the occupied slots hold.
    pub open spec fn whitelisted(self) -> Set<Pubkey> {
        members(self.slots())
    }

    /// Index of the first slot that holds `key`, or the number of slots when
    /// no slot does.
    pub fn position(&self, key: &Pubkey) -> (at: usize)
        ensures
            at == first_index(self.slots(), *key),
            at <= MAX_COLLECTIONS,
            at < MAX_COLLECTIONS <==> self.holds(*key),
    {
        let mut i: usize = 0;
        while i < MAX_COLLECTIONS
            invariant
                i <= MAX_COLLECTIONS,
                self.slots().len() == MAX_COLLECTIONS,
                first_index(self.slots(), *key) == first_index_from(self.slots(), *key, i as int),
            decreases MAX_COLLECTIONS - i,
        {
            if self.wl_collections[i] == *key {
                proof {
                    lemma_first_index(self.slots(), *key);
                }
                return i;
            }
            i += 1;
        }
        proof {
            lemma_first_index(self.slots(), *key);
        }
        i
    }

    /// No collection occupies two slots.
    pub open spec fn wf(self) -> bool {
        distinct(self.slots())
    }
}

/// One ticket slot: the identifier of the buyer who occupies it.
#[derive(Clone, Copy, Debug, PartialEq, Eq)]
pub struct RaffleTicket {
    pub uid: [u8; ID_LENGTH],
}

/// One raffle: its terms, its progress, and one slot per ticket.
#[derive(Clone, Debug, PartialEq, Eq)]
pub struct RaffleAccount {
    pub idx: u32,
    pub authority: Pubkey,
    pub spl_mint: Pubkey,
    pub mint: Pubkey,
    pub price: u64,
    pub total_supply: u32,
    pub total_sales: u32,
    pub winner_idx: u32,
    pub start_date: u64,
    pub end_date: u64,
    pub is_deposited: bool,
    pub is_claimed: bool,
    pub is_withdrawn: bool,
    pub tickets: Vec<RaffleTicket>,
}

/// The mathematical value of a raffle: its fields, with the ticket slots as
/// a sequence.
pub ghost struct RaffleView {
    pub idx: u32,
    pub authority: Pubkey,
    pub spl_mint: Pubkey,
    pub mint: Pubkey,
    pub price: u64,
    pub total_supply: u32,
    pub total_sales: u32,
    pub winner_idx: u32,
    pub start_date: u64,
    pub end_date: u64,
    pub is_deposited: bool,
    pub is_claimed: bool,
    pub is_withdrawn: bool,
    pub tickets: Seq<RaffleTicket>,
}

impl RaffleView {
    /// The slots are as many as the supply, the sold ones come first, the
    /// rest are empty, and a drawn winner is one of the sold slots.
    pub open spec fn wf(self) -> bool {
        &&& self.tickets.len() == self.total_supply
        &&& self.total_sales <= self.total_supply
        &&& self.winner_idx <= self.total_sales
        &&& forall|i: int|
            self.total_sales <= i < self.tickets.len() ==> (#[trigger] self.tickets[i]).uid
                == empty_uid()
    }

    /// Whether every ticket has been sold.
    pub open spec fn sold_out(self) -> bool {
        self.total_sales == self.total_supply
    }
}

impl View for RaffleAccount {
    type V = RaffleView;

    open spec fn view(&self) -> RaffleView {
        RaffleView {
            idx: self.idx,
            authority: self.authority,
            spl_mint: self.spl_mint,
            mint: self.mint,
            price: self.price,
            total_supply: self.total_supply,
            total_sales: self.total_sales,
            winner_idx: self.winner_idx,
            start_date: self.start_date,
            end_date: self.end_date,
            is_deposited: self.is_deposited,
            is_claimed: self.is_claimed,
            is_withdrawn: self.is_withdrawn,
            tickets: self.tickets@,
        }
    }
}

/// Bytes that a raffle with `total_supply` slots takes when stored: a fixed
/// header, a length prefix, and twelve bytes for each slot.
pub open spec fn raffle_size(total_supply: int) -> int {
    207 + 12 * total_supply
}

impl RaffleAccount {
    /// Whether the raffle is well formed: its slots are as many as its
    /// supply, the sold ones come first and the rest are empty, and a drawn
    /// winner is one of the sold slots.
    pub open spec fn wf(&self) -> bool {
        self@.wf()
    }

    /// Whether the raffle is well formed.
    pub fn is_wf(&self) -> (ok: bool)
        ensures
            ok == self.wf(),
    {
        if self.tickets.len() != self.total_supply as usize {
            return false;
        }
        if self.total_sales > self.total_supply || self.winner_idx > self.total_sales {
            return false;
        }
        let empty = [0u8;ID_LENGTH];
        let mut i: usize = self.total_sales as usize;
        while i < self.tickets.len()
            invariant
                self.total_sales <= i <= self.tickets.len(),
                empty == empty_uid(),
                forall|j: int|
                    self.total_sales <= j < i ==> (#[trigger] self.tickets@[j]).uid
                        == empty_uid(),
            decreases self.tickets.len() - i,
        {
            if !bytes_eq(&self.tickets[i].uid, &empty) {
                return false;
            }
            i += 1;
        }
        true
    }

    /// Bytes that a raffle with `total_supply` slots takes when stored.
    pub fn size(total_supply: u32) -> (bytes: usize)
        requires
            raffle_size(total_supply as int) <= usize::MAX,
        ensures
            bytes == raffle_size(total_supply as int),
    {
        4 + 32 * 3 + 8 + 4 * 3 + 8 * 2 + 1 * 3 + 16 * 4 + (4 + 12 * (total_supply as usize))
    }
}

impl Default for RaffleAccount {
    /// A raffle of no tickets, with every field zero.
    fn default() -> (raffle: RaffleAccount)
        ensures
            raffle@ == (RaffleView {
                idx: 0,
                authority: Pubkey::zero(),
                spl_mint: Pubkey::zero(),
                mint: Pubkey::zero(),
                price: 0,
                total_supply: 0,
                total_sales: 0,
                winner_idx: 0,
                start_date: 0,
                end_date: 0,
                is_deposited: false,
                is_claimed: false,
                is_withdrawn: false,
                tickets: Seq::empty(),
            }),
            raffle.wf(),
    {
        RaffleAccount {
            idx: 0,
            authority: Pubkey::default(),
            spl_mint: Pubkey::default(),
            mint: Pubkey::default(),
            price: 0,
            total_supply: 0,
            total_sales: 0,
            winner_idx: 0,
            start_date: 0,
            end_date: 0,
            is_deposited: false,
            is_claimed: false,
            is_withdrawn: false,
            tickets: Vec::new(),
        }
    }
}

/// What one buyer holds in one raffle.
#[derive(Clone, Copy, Debug, PartialEq, Eq)]
pub struct UserAccount {
    pub raffle_idx: u32,
    pub authority: Pubkey,
    pub uid: [u8; ID_LENGTH],
    pub amount: u32,
}

impl Default for UserAccount {
    /// A record of no tickets, with every field zero.
    fn default() -> (user: UserAccount)
        ensures
            user == (UserAccount {
                raffle_idx: 0,
                authority: Pubkey::zero(),
                uid: empty_uid(),
                amount: 0,
            }),
    {
        UserAccount { raffle_idx: 0, authority: Pubkey::default(), uid: [0u8;ID_LENGTH], amount: 0 }
    }
}

} // verus!
