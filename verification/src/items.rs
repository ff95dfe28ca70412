//! Item kinds and inventory arithmetic.
//!
//! An inventory is a flat list of (kind, quantity) stacks searched linearly
//! by kind; only the first stack of a kind is ever touched. The well-formed
//! inventories — every quantity positive, every kind present at most once —
//! are preserved by every operation, which `laws` proves.

use vstd::prelude::*;

verus! {

#[derive(Clone, Copy, PartialEq, Eq, Structural, Debug)]
pub enum ItemTypes {
    WallBlock,
    TurretBlock,
    TripMine,
    Fence,
    Wheat,
    WindMill,
    WoodFence,
    Chest,
    LandingPad,
    MiningRig,
    IronIngot,
    Coal,
    CraftingTable,
    Steak,
}

impl ItemTypes {
    /// Position of the kind's sprite in the texture sheet.
    pub fn sprite_index(&self) -> (r: usize)
        ensures
            r == self.spec_sprite_index(),
    {
        match self {
            ItemTypes::WallBlock => 0,
            ItemTypes::TurretBlock => 5,
            ItemTypes::TripMine => 12,
            ItemTypes::Fence => 14,
            ItemTypes::Wheat => 17,
            ItemTypes::WindMill => 15,
            ItemTypes::WoodFence => 20,
            ItemTypes::Chest => 25,
            ItemTypes::LandingPad => 26,
            ItemTypes::MiningRig => 27,
            ItemTypes::IronIngot => 28,
            ItemTypes::Coal => 29,
            ItemTypes::CraftingTable => 30,
            ItemTypes::Steak => 31,
        }
    }

    pub open spec fn spec_sprite_index(self) -> usize {
        match self {
            ItemTypes::WallBlock => 0,
            ItemTypes::TurretBlock => 5,
            ItemTypes::TripMine => 12,
            ItemTypes::Fence => 14,
            ItemTypes::Wheat => 17,
            ItemTypes::WindMill => 15,
            ItemTypes::WoodFence => 20,
            ItemTypes::Chest => 25,
            ItemTypes::LandingPad => 26,
            ItemTypes::MiningRig => 27,
            ItemTypes::IronIngot => 28,
            ItemTypes::Coal => 29,
            ItemTypes::CraftingTable => 30,
            ItemTypes::Steak => 31,
        }
    }
}

/// One stack of items of a single kind.
#[derive(Clone, Copy, PartialEq, Eq, Structural, Debug)]
pub struct Item {
    pub item_type: ItemTypes,
    pub quantity: i8,
}

/// `i` is the index of the first stack of kind `t` in `s`.
pub open spec fn is_first_of(s: Seq<Item>, t: ItemTypes, i: int) -> bool {
    0 <= i < s.len() && s[i].item_type == t && (forall|j: int|
        0 <= j < i ==> s[j].item_type != t)
}

/// Some stack of kind `t` occurs in `s`.
pub open spec fn has_type(s: Seq<Item>, t: ItemTypes) -> bool {
    exists|i: int| 0 <= i < s.len() && s[i].item_type == t
}

/// The index of the first stack of kind `t`; meaningful only when one exists.
pub open spec fn first_index_of(s: Seq<Item>, t: ItemTypes) -> int {
    choose|i: int| is_first_of(s, t, i)
}

/// Whenever a kind occurs at all, a first occurrence exists.
pub proof fn lemma_first_exists(s: Seq<Item>, t: ItemTypes)
    requires
        has_type(s, t),
    ensures
        is_first_of(s, t, first_index_of(s, t)),
    decreases s.len(),
{
    if s[0].item_type == t {
        assert(is_first_of(s, t, 0));
    } else {
        let sub = s.subrange(1, s.len() as int);
        let w = choose|i: int| 0 <= i < s.len() && s[i].item_type == t;
        assert(sub[w - 1] == s[w]);
        assert(has_type(sub, t));
        lemma_first_exists(sub, t);
        let i = first_index_of(sub, t);
        assert(forall|j: int| 1 <= j < i + 1 ==> s[j] == sub[j - 1]);
        assert(is_first_of(s, t, i + 1));
    }
    let i0 = choose|i: int| is_first_of(s, t, i);
    lemma_first_unique(s, t, i0, first_index_of(s, t));
}

/// At most one index is the first occurrence of a kind.
pub proof fn lemma_first_unique(s: Seq<Item>, t: ItemTypes, i: int, j: int)
    requires
        is_first_of(s, t, i),
        is_first_of(s, t, j),
    ensures
        i == j,
{
}

/// The first stack of `item`'s kind raised by one.
pub open spec fn bump_first(s: Seq<Item>, t: ItemTypes) -> Seq<Item> {
    let i = first_index_of(s, t);
    s.update(i, Item { item_type: t, quantity: (s[i].quantity + 1) as i8 })
}

/// What adding one item does: raise the first stack of its kind by one,
/// or append the stack if the kind is new.
pub open spec fn add_item_spec(s: Seq<Item>, item: Item) -> Seq<Item> {
    if has_type(s, item.item_type) {
        bump_first(s, item.item_type)
    } else {
        s.push(item)
    }
}

/// What removing a stack does: drop the first stack of the kind when the
/// quantities are equal, otherwise lower it by the removed quantity.
pub open spec fn remove_item_spec(s: Seq<Item>, item: Item) -> Seq<Item> {
    let i = first_index_of(s, item.item_type);
    if s[i].quantity == item.quantity {
        s.remove(i)
    } else {
        s.update(i, Item { item_type: item.item_type, quantity: (s[i].quantity - item.quantity) as i8 })
    }
}

/// What consuming one item of a kind does: nothing when the kind is absent;
/// otherwise the first stack is lowered by one and dropped if that empties it.
pub open spec fn tick_or_remove_spec(s: Seq<Item>, t: ItemTypes) -> Seq<Item> {
    if !has_type(s, t) {
        s
    } else {
        let i = first_index_of(s, t);
        if s[i].quantity == 1 {
            s.remove(i)
        } else {
            s.update(i, Item { item_type: t, quantity: (s[i].quantity - 1) as i8 })
        }
    }
}

/// A flat inventory of item stacks.
#[derive(Clone, Debug)]
pub struct InventoryItems {
    pub items: Vec<Item>,
}

impl InventoryItems {
    pub open spec fn view(self) -> Seq<Item> {
        self.items@
    }

    /// A well-formed inventory: positive quantities, one stack per kind.
    pub open spec fn wf(self) -> bool {
        inv_wf(self@)
    }

    pub fn new() -> (r: InventoryItems)
        ensures
            r@ =~= Seq::<Item>::empty(),
            r.wf(),
    {
        InventoryItems { items: Vec::new() }
    }

    /// A copy holding the same stacks.
    pub fn duplicate(&self) -> (r: InventoryItems)
        ensures
            r@ == self@,
    {
        let n = self.items.len();
        let mut items: Vec<Item> = Vec::new();
        let mut i: usize = 0;
        while i < n
            invariant
                0 <= i <= n,
                n == self@.len(),
                items@.len() == i,
                forall|j: int| 0 <= j < i ==> items@[j] == self@[j],
            decreases n - i,
        {
            items.push(self.items[i]);
            i = i + 1;
        }
        proof {
            assert(items@ =~= self@);
        }
        InventoryItems { items }
    }

    /// Index of the first stack of the given kind, or `usize::MAX` when the
    /// kind is absent.
    pub fn get_index(&self, item_type: ItemTypes) -> (r: usize)
        ensures
            has_type(self@, item_type) ==> r == first_index_of(self@, item_type),
            r == usize::MAX ==> !has_type(self@, item_type),
            r != usize::MAX ==> is_first_of(self@, item_type, r as int),
    {
        let n = self.items.len();
        let mut i: usize = 0;
        while i < n
            invariant
                0 <= i <= n,
                n == self@.len(),
                forall|j: int| 0 <= j < i ==> self@[j].item_type != item_type,
            decreases n - i,
        {
            if self.items[i].item_type == item_type {
                proof {
                    assert(is_first_of(self@, item_type, i as int));
                    lemma_first_exists(self@, item_type);
                    lemma_first_unique(self@, item_type, i as int, first_index_of(self@, item_type));
                }
                return i;
            }
            i = i + 1;
        }
        usize::MAX
    }

    /// Whether some stack of the given kind is present.
    pub fn has_item(&self, item_type: ItemTypes) -> (r: bool)
        ensures
            r == has_type(self@, item_type),
    {
        self.get_index(item_type) != usize::MAX
    }

    /// Collect one item: raise the first stack of its kind by one, or start
    /// a new stack holding the item as given.
    pub fn add_item(&mut self, item: Item)
        requires
            old(self)@.len() < usize::MAX - 1,
            has_type(old(self)@, item.item_type) ==> old(self)@[first_index_of(
                old(self)@,
                item.item_type,
            )].quantity < i8::MAX,
        ensures
            final(self)@ == add_item_spec(old(self)@, item),
    {
        let idx = self.get_index(item.item_type);
        if idx != usize::MAX {
            proof {
                assert(self@[idx as int].item_type == item.item_type);
                assert(has_type(self@, item.item_type));
                lemma_first_exists(self@, item.item_type);
            }
            let q = self.items[idx].quantity;
            self.items.set(idx, Item { item_type: item.item_type, quantity: q + 1 });
        } else {
            self.items.push(item);
        }
    }

    /// Hand a stack out. The stack's kind must be present with at least the
    /// removed quantity (the rule every in-game transfer respects).
    pub fn remove_item(&mut self, item: Item)
        requires
            has_type(old(self)@, item.item_type),
            0 <= item.quantity <= old(self)@[first_index_of(old(self)@, item.item_type)].quantity,
        ensures
            final(self)@ == remove_item_spec(old(self)@, item),
    {
        proof {
            lemma_first_exists(self@, item.item_type);
        }
        let idx = self.get_index(item.item_type);
        let q = self.items[idx].quantity;
        if q == item.quantity {
            self.items.remove(idx);
        } else {
            self.items.set(idx, Item { item_type: item.item_type, quantity: q - item.quantity });
        }
    }

    /// Consume one item of a kind, dropping the stack when it empties;
    /// absent kinds are left alone.
    pub fn tick_or_remove(&mut self, item_type: ItemTypes)
        requires
            has_type(old(self)@, item_type) ==> old(self)@[first_index_of(
                old(self)@,
                item_type,
            )].quantity > i8::MIN,
        ensures
            final(self)@ == tick_or_remove_spec(old(self)@, item_type),
    {
        let idx = self.get_index(item_type);
        if idx == usize::MAX {
            return;
        }
        proof {
            assert(self@[idx as int].item_type == item_type);
            assert(has_type(self@, item_type));
            lemma_first_exists(self@, item_type);
        }
        let q = self.items[idx].quantity;
        if q == 1 {
            self.items.remove(idx);
        } else {
            self.items.set(idx, Item { item_type, quantity: q - 1 });
        }
    }
}

impl Default for InventoryItems {
    fn default() -> (r: Self)
        ensures
            r@ =~= Seq::<Item>::empty(),
    {
        Self { items: Vec::<Item>::new() }
    }
}

/// Well-formed stack list: positive quantities, one stack per kind.
pub open spec fn inv_wf(s: Seq<Item>) -> bool {
    (forall|i: int| 0 <= i < s.len() ==> s[i].quantity >= 1) && (forall|i: int, j: int|
        0 <= i < j < s.len() ==> s[i].item_type != s[j].item_type)
}

/// Adding an item keeps an inventory well formed.
pub proof fn law_add_preserves_wf(s: Seq<Item>, item: Item)
    requires
        inv_wf(s),
        item.quantity >= 1,
        has_type(s, item.item_type) ==> s[first_index_of(s, item.item_type)].quantity < i8::MAX,
    ensures
        inv_wf(add_item_spec(s, item)),
{
    if has_type(s, item.item_type) {
        lemma_first_exists(s, item.item_type);
        let i = first_index_of(s, item.item_type);
        let r = bump_first(s, item.item_type);
        assert(forall|j: int| 0 <= j < r.len() ==> r[j].item_type == s[j].item_type);
        assert(forall|j: int| 0 <= j < r.len() && j != i ==> r[j] == s[j]);
    } else {
        let r = s.push(item);
        assert forall|i: int, j: int| 0 <= i < j < r.len() implies r[i].item_type
            != r[j].item_type by {
            if j == s.len() {
                assert(r[i] == s[i]);
                if r[i].item_type == item.item_type {
                    assert(has_type(s, item.item_type));
                }
            }
        }
    }
}

/// Removing a stack keeps an inventory well formed.
pub proof fn law_remove_preserves_wf(s: Seq<Item>, item: Item)
    requires
        inv_wf(s),
        has_type(s, item.item_type),
        1 <= item.quantity <= s[first_index_of(s, item.item_type)].quantity,
    ensures
        inv_wf(remove_item_spec(s, item)),
{
    lemma_first_exists(s, item.item_type);
    let i = first_index_of(s, item.item_type);
    if s[i].quantity == item.quantity {
        let r = s.remove(i);
        assert(forall|j: int| 0 <= j < i ==> r[j] == s[j]);
        assert(forall|j: int| i <= j < r.len() ==> r[j] == s[j + 1]);
    } else {
        let r = remove_item_spec(s, item);
        assert(forall|j: int| 0 <= j < r.len() ==> r[j].item_type == s[j].item_type);
        assert(forall|j: int| 0 <= j < r.len() && j != i ==> r[j] == s[j]);
    }
}

/// Consuming one item keeps an inventory well formed.
pub proof fn law_tick_or_remove_preserves_wf(s: Seq<Item>, t: ItemTypes)
    requires
        inv_wf(s),
    ensures
        inv_wf(tick_or_remove_spec(s, t)),
{
    if has_type(s, t) {
        lemma_first_exists(s, t);
        let i = first_index_of(s, t);
        if s[i].quantity == 1 {
            let r = s.remove(i);
            assert(forall|j: int| 0 <= j < i ==> r[j] == s[j]);
            assert(forall|j: int| i <= j < r.len() ==> r[j] == s[j + 1]);
        } else {
            let r = tick_or_remove_spec(s, t);
            assert(forall|j: int| 0 <= j < r.len() ==> r[j].item_type == s[j].item_type);
            assert(forall|j: int| 0 <= j < r.len() && j != i ==> r[j] == s[j]);
        }
    }
}

/// How many items of one kind an inventory holds, over all its stacks.
pub open spec fn count_of(s: Seq<Item>, t: ItemTypes) -> int
    decreases s.len(),
{
    if s.len() == 0 {
        0
    } else {
        (if s[0].item_type == t {
            s[0].quantity as int
        } else {
            0
        }) + count_of(s.subrange(1, s.len() as int), t)
    }
}

/// What one stack contributes to a kind's count.
pub open spec fn kind_count(x: Item, t: ItemTypes) -> int {
    if x.item_type == t {
        x.quantity as int
    } else {
        0
    }
}

/// Appending a stack raises the count by what the stack contributes.
pub proof fn lemma_count_push(s: Seq<Item>, x: Item, t: ItemTypes)
    ensures
        count_of(s.push(x), t) == count_of(s, t) + kind_count(x, t),
    decreases s.len(),
{
    if s.len() == 0 {
        let e = Seq::<Item>::empty();
        assert(s.push(x).subrange(1, 1) =~= e);
        assert(count_of(e, t) == 0);
        assert(count_of(s, t) == 0);
        assert(s.push(x)[0] == x);
    } else {
        assert(s.push(x).subrange(1, s.len() as int + 1) =~= s.subrange(1, s.len() as int).push(x));
        lemma_count_push(s.subrange(1, s.len() as int), x, t);
        assert(s.push(x)[0] == s[0]);
        assert(count_of(s.push(x), t) == kind_count(s[0], t) + count_of(
            s.subrange(1, s.len() as int).push(x),
            t,
        ));
    }
}

/// Replacing a stack shifts the count by the difference of contributions.
pub proof fn lemma_count_update(s: Seq<Item>, i: int, x: Item, t: ItemTypes)
    requires
        0 <= i < s.len(),
    ensures
        count_of(s.update(i, x), t) == count_of(s, t) - kind_count(s[i], t) + kind_count(x, t),
    decreases s.len(),
{
    if i == 0 {
        assert(s.update(0, x).subrange(1, s.len() as int) =~= s.subrange(1, s.len() as int));
    } else {
        assert(s.update(i, x).subrange(1, s.len() as int) =~= s.subrange(
            1,
            s.len() as int,
        ).update(i - 1, x));
        lemma_count_update(s.subrange(1, s.len() as int), i - 1, x, t);
    }
}

/// Dropping a stack lowers the count by what it contributed.
pub proof fn lemma_count_remove(s: Seq<Item>, i: int, t: ItemTypes)
    requires
        0 <= i < s.len(),
    ensures
        count_of(s.remove(i), t) == count_of(s, t) - kind_count(s[i], t),
    decreases s.len(),
{
    if i == 0 {
        assert(s.remove(0) =~= s.subrange(1, s.len() as int));
    } else {
        assert(s.remove(i).subrange(1, s.len() as int - 1) =~= s.subrange(1, s.len() as int).remove(
            i - 1,
        ));
        lemma_count_remove(s.subrange(1, s.len() as int), i - 1, t);
    }
}

/// Moving a stack from one inventory into another that lacks the kind
/// conserves the total count of that kind across the two. (A receiver that
/// already holds the kind gains a single item instead, as the game has it.)
pub proof fn law_transfer_conserves_count(a: Seq<Item>, b: Seq<Item>, item: Item)
    requires
        has_type(a, item.item_type),
        0 <= item.quantity <= a[first_index_of(a, item.item_type)].quantity,
        !has_type(b, item.item_type),
    ensures
        count_of(remove_item_spec(a, item), item.item_type) + count_of(
            add_item_spec(b, item),
            item.item_type,
        ) == count_of(a, item.item_type) + count_of(b, item.item_type),
{
    let t = item.item_type;
    lemma_first_exists(a, t);
    let i = first_index_of(a, t);
    if a[i].quantity == item.quantity {
        lemma_count_remove(a, i, t);
    } else {
        lemma_count_update(
            a,
            i,
            Item { item_type: t, quantity: (a[i].quantity - item.quantity) as i8 },
            t,
        );
    }
    lemma_count_push(b, item, t);
}

/// Adding a stack of a kind the inventory lacks and then removing that very
/// stack gives the inventory back unchanged.
pub proof fn law_add_then_remove_roundtrip(s: Seq<Item>, item: Item)
    requires
        !has_type(s, item.item_type),
    ensures
        remove_item_spec(add_item_spec(s, item), item) =~= s,
{
    let a = s.push(item);
    assert(add_item_spec(s, item) == a);
    assert(is_first_of(a, item.item_type, s.len() as int));
    assert(has_type(a, item.item_type));
    lemma_first_exists(a, item.item_type);
    lemma_first_unique(a, item.item_type, s.len() as int, first_index_of(a, item.item_type));
    let r = a.remove(s.len() as int);
    assert(forall|j: int| 0 <= j < s.len() ==> r[j] == s[j]);
}

} // verus!
