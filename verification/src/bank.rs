use vstd::prelude::*;

verus! {

/// How many slots a bank has before the server fills it.
pub const BANK_SLOTS: usize = 160;

/// The bank of the player's character: its slots, each empty or holding an item.
#[derive(Debug)]
pub struct Bank<T> {
    pub slots: Vec<Option<T>>,
}

/// The slots after the server set one: a slot past the end first grows the bank with
/// empty slots up to it.
pub open spec fn spec_set_slot<T>(slots: Seq<Option<T>>, index: int, item: Option<T>) -> Seq<Option<T>> {
    if index >= slots.len() {
        (slots + Seq::new((index + 1 - slots.len()) as nat, |k: int| None::<T>)).update(index, item)
    } else {
        slots.update(index, item)
    }
}

/// The slots after the server set each of `items` in order.
pub open spec fn spec_bank_update<T>(slots: Seq<Option<T>>, items: Seq<(usize, Option<T>)>) -> Seq<Option<T>>
    decreases items.len(),
{
    if items.len() == 0 {
        slots
    } else {
        spec_bank_update(spec_set_slot(slots, items[0].0 as int, items[0].1), items.drop_first())
    }
}

/// Whether every slot the server names leaves room for one more slot after it (growing
/// the bank up to a slot counts the slots as a `usize`).
pub open spec fn spec_bank_indices_fit<T>(items: Seq<(usize, Option<T>)>) -> bool {
    forall|i: int| 0 <= i < items.len() ==> (#[trigger] items[i]).0 < usize::MAX
}

fn set_slot<T>(slots: &mut Vec<Option<T>>, index: usize, item: Option<T>)
    requires
        index < usize::MAX,
    ensures
        final(slots)@ == spec_set_slot(old(slots)@, index as int, item),
{
    if index >= slots.len() {
        let ghost start = slots@;
        while slots.len() < index + 1
            invariant
                index < usize::MAX,
                start.len() <= slots@.len() <= index + 1,
                slots@ == start + Seq::new((slots@.len() - start.len()) as nat, |k: int| None::<T>),
            decreases index + 1 - slots.len(),
        {
            slots.push(None);
            assert(slots@ =~= start + Seq::new((slots@.len() - start.len()) as nat, |k: int| None::<T>));
        }
        slots.set(index, item);
    } else {
        slots.set(index, item);
    }
}

impl<T> Bank<T> {
    /// The bank the server sends in full: 160 empty slots, then each of `items` set in
    /// order.
    pub fn from_items(items: Vec<(usize, Option<T>)>) -> (r: Self)
        requires
            spec_bank_indices_fit(items@),
        ensures
            r.slots@ == spec_bank_update(Seq::new(BANK_SLOTS as nat, |k: int| None::<T>), items@),
    {
        let mut slots: Vec<Option<T>> = Vec::new();
        let mut i: usize = 0;
        while i < BANK_SLOTS
            invariant
                i <= BANK_SLOTS,
                slots@ =~= Seq::new(i as nat, |k: int| None::<T>),
            decreases BANK_SLOTS - i,
        {
            slots.push(None);
            i = i + 1;
        }
        let mut bank = Bank { slots };
        bank.update_items(items);
        bank
    }

    /// The slots the server changed: each of `items` set in order.
    pub fn update_items(&mut self, items: Vec<(usize, Option<T>)>)
        requires
            spec_bank_indices_fit(items@),
        ensures
            final(self).slots@ == spec_bank_update(old(self).slots@, items@),
    {
        let mut items = items;
        let ghost all = items@;
        let ghost start = self.slots@;
        let n = items.len();
        let mut i: usize = 0;
        assert(all.skip(0) =~= all);
        while i < n
            invariant
                i <= n,
                n == all.len(),
                items@ == all.skip(i as int),
                spec_bank_update(start, all) == spec_bank_update(self.slots@, items@),
                spec_bank_indices_fit(items@),
            decreases n - i,
        {
            assert(items@[0] == all.skip(i as int)[0]);
            let (index, item) = items.remove(0);
            assert(items@ =~= all.skip(i as int).drop_first());
            set_slot(&mut self.slots, index, item);
            i = i + 1;
            assert(items@ =~= all.skip(i as int));
        }
    }

    /// One slot after a bank transaction: set where the bank has it, else nothing.
    pub fn set_transaction_slot(&mut self, index: usize, item: Option<T>)
        ensures
            final(self).slots@ == if index < old(self).slots@.len() {
                old(self).slots@.update(index as int, item)
            } else {
                old(self).slots@
            },
    {
        if index < self.slots.len() {
            self.slots.set(index, item);
        }
    }
}

/// Whether the server's slot changes can be set on a bank (see `spec_bank_indices_fit`).
pub fn bank_indices_fit<T>(items: &Vec<(usize, Option<T>)>) -> (r: bool)
    ensures
        r == spec_bank_indices_fit(items@),
{
    let mut i: usize = 0;
    while i < items.len()
        invariant
            i <= items@.len(),
            forall|j: int| 0 <= j < i ==> (#[trigger] items@[j]).0 < usize::MAX,
        decreases items.len() - i,
    {
        if items[i].0 == usize::MAX {
            return false;
        }
        i = i + 1;
    }
    true
}

/// A slot the server set holds the item it was set to; every other slot keeps what it
/// held, and the slots the bank grew by are empty: the bank then has the slots it had, or
/// up to the one set where that is past its end.
pub proof fn law_bank_slot_holds_what_was_set<T>(slots: Seq<Option<T>>, index: usize, item: Option<T>)
    ensures
        spec_set_slot(slots, index as int, item)[index as int] == item,
        forall|j: int| 0 <= j < slots.len() && j != index ==> #[trigger] spec_set_slot(slots, index as int, item)[j] == slots[j],
        forall|j: int|
            slots.len() <= j < spec_set_slot(slots, index as int, item).len() && j != index ==> #[trigger] spec_set_slot(
                slots,
                index as int,
                item,
            )[j] is None,
        spec_set_slot(slots, index as int, item).len() == if index >= slots.len() {
            index + 1
        } else {
            slots.len() as int
        },
{
}

} // verus!
