//! A stable order of items by keys: a rank, a number and a text, compared
//! in this order.

use vstd::prelude::*;

verus! {

/// The key of an item in an order.
#[derive(Debug, Clone, PartialEq, Eq)]
pub struct SortKey {
    pub rank: u8,
    pub number: i128,
    pub text: Vec<char>,
}

/// A key as a value of specifications.
pub struct SortKeyModel {
    pub rank: u8,
    pub number: i128,
    pub text: Seq<char>,
}

impl View for SortKey {
    type V = SortKeyModel;

    open spec fn view(&self) -> SortKeyModel {
        SortKeyModel { rank: self.rank, number: self.number, text: self.text@ }
    }
}

/// How two keys stand to each other.
#[derive(Debug, Clone, Copy, PartialEq, Eq, Structural)]
pub enum Order {
    Before,
    Same,
    After,
}

/// How two texts stand to each other from position `from` on: by the
/// first character in which they differ, and the shorter one first where one
/// is the start of the other.
pub open spec fn text_order(a: Seq<char>, b: Seq<char>, from: int) -> Order
    decreases a.len() - from,
{
    if from < 0 || from >= a.len() || from >= b.len() {
        if a.len() == b.len() || from < 0 {
            Order::Same
        } else if a.len() < b.len() {
            Order::Before
        } else {
            Order::After
        }
    } else if (a[from] as u32) < (b[from] as u32) {
        Order::Before
    } else if (a[from] as u32) > (b[from] as u32) {
        Order::After
    } else {
        text_order(a, b, from + 1)
    }
}

/// How two keys stand to each other: by rank, then by number, then by text.
pub open spec fn key_order(a: SortKeyModel, b: SortKeyModel) -> Order {
    if a.rank < b.rank {
        Order::Before
    } else if a.rank > b.rank {
        Order::After
    } else if a.number < b.number {
        Order::Before
    } else if a.number > b.number {
        Order::After
    } else {
        text_order(a.text, b.text, 0)
    }
}

/// Whether an item with key `a` that came later must stand before one with
/// key `b`: its key is smaller, or larger in a reversed order.
pub open spec fn goes_before(a: SortKeyModel, b: SortKeyModel, reverse: bool) -> bool {
    if reverse {
        key_order(a, b) == Order::After
    } else {
        key_order(a, b) == Order::Before
    }
}

/// The place of a new item among the first `upto` items of an order: behind
/// the last of them that it must not stand before.
pub open spec fn place_of(
    keys: Seq<SortKeyModel>,
    order: Seq<usize>,
    item: int,
    upto: int,
    reverse: bool,
) -> int
    decreases upto,
{
    if upto <= 0 || upto > order.len() {
        0
    } else if goes_before(keys[item], keys[order[upto - 1] as int], reverse) {
        place_of(keys, order, item, upto - 1, reverse)
    } else {
        upto
    }
}

/// The stable order of the first `count` items: each item is placed behind
/// the items before it that it must not precede, so that items with keys
/// that stand the same keep the order in which they came.
pub open spec fn stable_order(keys: Seq<SortKeyModel>, count: nat, reverse: bool) -> Seq<usize>
    decreases count,
{
    if count == 0 || count > keys.len() {
        Seq::empty()
    } else {
        let before = stable_order(keys, (count - 1) as nat, reverse);
        before.insert(
            place_of(keys, before, count - 1, before.len() as int, reverse),
            (count - 1) as usize,
        )
    }
}

/// Where a new item is placed.
pub proof fn lemma_place_bounds(
    keys: Seq<SortKeyModel>,
    order: Seq<usize>,
    item: int,
    upto: int,
    reverse: bool,
)
    requires
        0 <= upto <= order.len(),
    ensures
        0 <= place_of(keys, order, item, upto, reverse) <= upto,
    decreases upto,
{
    if upto > 0 && goes_before(keys[item], keys[order[upto - 1] as int], reverse) {
        lemma_place_bounds(keys, order, item, upto - 1, reverse);
    }
}

/// A stable order of `count` items names each of them once.
pub proof fn lemma_stable_order_arranges(keys: Seq<SortKeyModel>, count: nat, reverse: bool)
    requires
        count <= keys.len(),
        keys.len() <= usize::MAX,
    ensures
        stable_order(keys, count, reverse).len() == count,
        forall|i: int|
            0 <= i < count ==> (#[trigger] stable_order(keys, count, reverse)[i]) < count,
        forall|i: int, j: int|
            0 <= i < j < count ==> stable_order(keys, count, reverse)[i] != stable_order(
                keys,
                count,
                reverse,
            )[j],
    decreases count,
{
    if count > 0 {
        lemma_stable_order_arranges(keys, (count - 1) as nat, reverse);
        let before = stable_order(keys, (count - 1) as nat, reverse);
        lemma_place_bounds(keys, before, count - 1, before.len() as int, reverse);
    }
}

/// The order of two texts turns round with the texts.
pub proof fn lemma_text_order_flips(a: Seq<char>, b: Seq<char>, from: int)
    requires
        0 <= from,
    ensures
        text_order(a, b, from) == Order::Before <==> text_order(b, a, from) == Order::After,
        text_order(a, b, from) == Order::Same <==> text_order(b, a, from) == Order::Same,
    decreases a.len() - from,
{
    if from < a.len() && from < b.len() && (a[from] as u32) == (b[from] as u32) {
        lemma_text_order_flips(a, b, from + 1);
    }
}

/// Of two keys not each goes before the other.
pub proof fn lemma_not_both_before(a: SortKeyModel, b: SortKeyModel, reverse: bool)
    ensures
        !(goes_before(a, b, reverse) && goes_before(b, a, reverse)),
{
    lemma_text_order_flips(a.text, b.text, 0);
    lemma_text_order_flips(b.text, a.text, 0);
}

/// A stable order is sorted: of two neighbours the second never goes
/// before the first.
pub proof fn lemma_stable_order_sorted(keys: Seq<SortKeyModel>, count: nat, reverse: bool, i: int)
    requires
        count <= keys.len(),
        keys.len() <= usize::MAX,
        0 <= i,
        i + 1 < count,
    ensures
        stable_order(keys, count, reverse).len() == count,
        !goes_before(
            keys[stable_order(keys, count, reverse)[i + 1] as int],
            keys[stable_order(keys, count, reverse)[i] as int],
            reverse,
        ),
    decreases count,
{
    lemma_stable_order_arranges(keys, count, reverse);
    lemma_stable_order_arranges(keys, (count - 1) as nat, reverse);
    let before = stable_order(keys, (count - 1) as nat, reverse);
    let place = place_of(keys, before, count - 1, before.len() as int, reverse);
    lemma_place_bounds(keys, before, count - 1, before.len() as int, reverse);
    lemma_place_is_behind(keys, before, count - 1, before.len() as int, reverse);
    let order = stable_order(keys, count, reverse);
    if i + 1 < place {
        lemma_stable_order_sorted(keys, (count - 1) as nat, reverse, i);
    } else if i + 1 == place {
    } else if i == place {
        lemma_place_is_before(keys, before, count - 1, before.len() as int, reverse);
        lemma_not_both_before(keys[count - 1], keys[before[place] as int], reverse);
    } else {
        lemma_stable_order_sorted(keys, (count - 1) as nat, reverse, i - 1);
    }
}

/// The order of texts carries over: what stands before a text that does
/// not stand behind a third stands before the third, and the same way round.
proof fn lemma_text_order_carries(a: Seq<char>, b: Seq<char>, c: Seq<char>, from: int)
    requires
        0 <= from,
        forall|i: int| 0 <= i < from && i < a.len() && i < b.len() ==> (a[i] as u32) == (b[i] as u32),
        forall|i: int| 0 <= i < from && i < b.len() && i < c.len() ==> (b[i] as u32) == (c[i] as u32),
        from <= a.len(),
        from <= b.len(),
        from <= c.len(),
    ensures
        text_order(a, b, from) == Order::Before && text_order(b, c, from) != Order::After
            ==> text_order(a, c, from) == Order::Before,
        text_order(a, b, from) != Order::After && text_order(b, c, from) == Order::Before
            ==> text_order(a, c, from) == Order::Before,
        text_order(a, b, from) == Order::After && text_order(b, c, from) != Order::Before
            ==> text_order(a, c, from) == Order::After,
        text_order(a, b, from) != Order::Before && text_order(b, c, from) == Order::After
            ==> text_order(a, c, from) == Order::After,
        text_order(a, b, from) == Order::Same && text_order(b, c, from) == Order::Same
            ==> text_order(a, c, from) == Order::Same,
    decreases a.len() + b.len() + c.len() - 3 * from,
{
    if from < a.len() && from < b.len() && from < c.len() && (a[from] as u32) == (b[from] as u32)
        && (b[from] as u32) == (c[from] as u32) {
        lemma_text_order_carries(a, b, c, from + 1);
    }
}

/// The order of keys carries over.
pub proof fn lemma_goes_before_carries(
    a: SortKeyModel,
    b: SortKeyModel,
    c: SortKeyModel,
    reverse: bool,
)
    ensures
        goes_before(a, b, reverse) && !goes_before(c, b, reverse) ==> goes_before(a, c, reverse),
        !goes_before(b, a, reverse) && !goes_before(c, b, reverse) ==> !goes_before(c, a, reverse),
{
    lemma_text_order_carries(a.text, b.text, c.text, 0);
    lemma_text_order_carries(c.text, b.text, a.text, 0);
    lemma_text_order_flips(a.text, b.text, 0);
    lemma_text_order_flips(b.text, a.text, 0);
    lemma_text_order_flips(b.text, c.text, 0);
    lemma_text_order_flips(c.text, b.text, 0);
    lemma_text_order_flips(a.text, c.text, 0);
    lemma_text_order_flips(c.text, a.text, 0);
}

/// In a stable order no item goes before one that stands before it.
pub proof fn lemma_stable_order_sorted_all(
    keys: Seq<SortKeyModel>,
    count: nat,
    reverse: bool,
    p: int,
    q: int,
)
    requires
        count <= keys.len(),
        keys.len() <= usize::MAX,
        0 <= p < q < count,
    ensures
        stable_order(keys, count, reverse).len() == count,
        !goes_before(
            keys[stable_order(keys, count, reverse)[q] as int],
            keys[stable_order(keys, count, reverse)[p] as int],
            reverse,
        ),
    decreases q - p,
{
    lemma_stable_order_arranges(keys, count, reverse);
    let order = stable_order(keys, count, reverse);
    if q == p + 1 {
        lemma_stable_order_sorted(keys, count, reverse, p);
    } else {
        lemma_stable_order_sorted_all(keys, count, reverse, p, q - 1);
        lemma_stable_order_sorted(keys, count, reverse, q - 1);
        lemma_goes_before_carries(
            keys[order[p] as int],
            keys[order[q - 1] as int],
            keys[order[q] as int],
            reverse,
        );
    }
}

/// A stable order keeps the order of items whose keys stand the same: of
/// two such items the one that came first stands first.
pub proof fn lemma_stable_order_keeps_ties(
    keys: Seq<SortKeyModel>,
    count: nat,
    reverse: bool,
    p: int,
    q: int,
)
    requires
        count <= keys.len(),
        keys.len() <= usize::MAX,
        0 <= p < q < count,
        !goes_before(
            keys[stable_order(keys, count, reverse)[p] as int],
            keys[stable_order(keys, count, reverse)[q] as int],
            reverse,
        ),
    ensures
        stable_order(keys, count, reverse)[p] < stable_order(keys, count, reverse)[q],
    decreases count,
{
    lemma_stable_order_arranges(keys, count, reverse);
    lemma_stable_order_arranges(keys, (count - 1) as nat, reverse);
    let before = stable_order(keys, (count - 1) as nat, reverse);
    let place = place_of(keys, before, count - 1, before.len() as int, reverse);
    lemma_place_bounds(keys, before, count - 1, before.len() as int, reverse);
    let order = stable_order(keys, count, reverse);
    if q == place {
        assert(order[q] == count - 1);
        assert(order[p] == before[p]);
    } else if p == place {
        // the new item stands before an older one: then it goes before it
        lemma_place_is_before(keys, before, count - 1, before.len() as int, reverse);
        assert(order[q] == before[q - 1]);
        if q - 1 > place {
            lemma_stable_order_sorted_all(keys, (count - 1) as nat, reverse, place, q - 1);
            lemma_goes_before_carries(
                keys[count - 1],
                keys[before[place] as int],
                keys[before[q - 1] as int],
                reverse,
            );
        }
        assert(false);
    } else {
        let bp = if p < place {
            p
        } else {
            p - 1
        };
        let bq = if q < place {
            q
        } else {
            q - 1
        };
        assert(order[p] == before[bp]);
        assert(order[q] == before[bq]);
        lemma_stable_order_keeps_ties(keys, (count - 1) as nat, reverse, bp, bq);
    }
}

/// The new item goes before the item in front of which it is placed.
proof fn lemma_place_is_before(
    keys: Seq<SortKeyModel>,
    order: Seq<usize>,
    item: int,
    upto: int,
    reverse: bool,
)
    requires
        0 <= upto <= order.len(),
    ensures
        place_of(keys, order, item, upto, reverse) < upto ==> goes_before(
            keys[item],
            keys[order[place_of(keys, order, item, upto, reverse)] as int],
            reverse,
        ),
    decreases upto,
{
    if upto > 0 && goes_before(keys[item], keys[order[upto - 1] as int], reverse) {
        lemma_place_is_before(keys, order, item, upto - 1, reverse);
        lemma_place_bounds(keys, order, item, upto - 1, reverse);
    }
}

/// The new item does not go before the item behind which it is placed.
proof fn lemma_place_is_behind(
    keys: Seq<SortKeyModel>,
    order: Seq<usize>,
    item: int,
    upto: int,
    reverse: bool,
)
    requires
        0 <= upto <= order.len(),
    ensures
        place_of(keys, order, item, upto, reverse) > 0 ==> !goes_before(
            keys[item],
            keys[order[place_of(keys, order, item, upto, reverse) - 1] as int],
            reverse,
        ),
    decreases upto,
{
    if upto > 0 && goes_before(keys[item], keys[order[upto - 1] as int], reverse) {
        lemma_place_is_behind(keys, order, item, upto - 1, reverse);
    }
}

/// How two texts stand to each other.
pub fn order_texts(a: &Vec<char>, b: &Vec<char>) -> (order: Order)
    ensures
        order == text_order(a@, b@, 0),
{
    let mut i: usize = 0;
    while i < a.len() && i < b.len()
        invariant
            i <= a@.len(),
            i <= b@.len(),
            text_order(a@, b@, 0) == text_order(a@, b@, i as int),
        decreases a@.len() - i,
    {
        let x = a[i] as u32;
        let y = b[i] as u32;
        if x < y {
            return Order::Before;
        }
        if x > y {
            return Order::After;
        }
        i += 1;
    }
    if a.len() == b.len() {
        Order::Same
    } else if a.len() < b.len() {
        Order::Before
    } else {
        Order::After
    }
}

/// How two keys stand to each other.
pub fn order_keys(a: &SortKey, b: &SortKey) -> (order: Order)
    ensures
        order == key_order(a@, b@),
{
    if a.rank < b.rank {
        Order::Before
    } else if a.rank > b.rank {
        Order::After
    } else if a.number < b.number {
        Order::Before
    } else if a.number > b.number {
        Order::After
    } else {
        order_texts(&a.text, &b.text)
    }
}

/// The models of keys.
pub open spec fn key_models(keys: Seq<SortKey>) -> Seq<SortKeyModel> {
    Seq::new(keys.len(), |i: int| keys[i]@)
}

/// The stable order of items by their keys: the indices of the items, the
/// smallest key first, or the largest first in a reversed order; items
/// whose keys stand the same keep their order.
pub fn sort_order(keys: &Vec<SortKey>, reverse: bool) -> (order: Vec<usize>)
    ensures
        order@ == stable_order(key_models(keys@), keys@.len() as nat, reverse),
        order@.len() == keys@.len(),
        forall|i: int| 0 <= i < order@.len() ==> (#[trigger] order@[i]) < keys@.len(),
        forall|i: int, j: int| 0 <= i < j < order@.len() ==> order@[i] != order@[j],
{
    let ghost models = key_models(keys@);
    let mut order: Vec<usize> = Vec::new();
    let mut n: usize = 0;
    while n < keys.len()
        invariant
            n <= keys@.len(),
            models == key_models(keys@),
            order@ == stable_order(models, n as nat, reverse),
            order@.len() == n,
            forall|i: int| 0 <= i < n ==> (#[trigger] order@[i]) < n,
        decreases keys@.len() - n,
    {
        let mut place: usize = order.len();
        while place > 0 && precedes(&keys[n], &keys[order[place - 1]], reverse)
            invariant
                place <= order@.len(),
                n < keys@.len(),
                order@.len() == n,
                models == key_models(keys@),
                forall|i: int| 0 <= i < n ==> (#[trigger] order@[i]) < n,
                place_of(models, order@, n as int, order@.len() as int, reverse) == place_of(
                    models,
                    order@,
                    n as int,
                    place as int,
                    reverse,
                ),
            decreases place,
        {
            place -= 1;
        }
        proof {
            lemma_stable_order_arranges(models, (n + 1) as nat, reverse);
        }
        order.insert(place, n);
        n += 1;
    }
    proof {
        lemma_stable_order_arranges(models, keys@.len() as nat, reverse);
    }
    order
}

fn precedes(a: &SortKey, b: &SortKey, reverse: bool) -> (before: bool)
    ensures
        before == goes_before(a@, b@, reverse),
{
    let order = order_keys(a, b);
    if reverse {
        order == Order::After
    } else {
        order == Order::Before
    }
}

} // verus!
