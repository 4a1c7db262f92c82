//! The shopping cart: lines of item and quantity, keyed by item id.
//!
//! The cart behaves like a map keyed by the item id, held as a vector
//! whose well-formedness invariant — one line per item id — states
//! exactly what such a map guarantees, while the insertion order of
//! lines is kept.

use vstd::prelude::*;

use crate::catalog::clone_item;
use crate::errors::MarketError;
use crate::models::{CartItem, Item};

verus! {

/// One line per item id: no two cart lines carry the same id.
pub open spec fn cart_wf(cart: Seq<CartItem>) -> bool {
    forall|i: int, j: int|
        0 <= i < j < cart.len() ==> cart[i].item.id@ != cart[j].item.id@
}

/// Whether some cart line carries this item id.
pub open spec fn cart_has(cart: Seq<CartItem>, id: Seq<char>) -> bool {
    exists|i: int| 0 <= i < cart.len() && cart[i].item.id@ == id
}

/// The cart line as it stands after one more unit.
pub open spec fn bumped(line: CartItem) -> CartItem {
    CartItem { item: line.item, quantity: (line.quantity + 1) as u32 }
}

/// The cart line as it stands after one unit fewer.
pub open spec fn reduced(line: CartItem) -> CartItem {
    CartItem { item: line.item, quantity: (line.quantity - 1) as u32 }
}

/// What one cart line costs: unit price times quantity.
pub open spec fn line_total(line: CartItem) -> int {
    line.item.price * line.quantity
}

/// What the whole cart costs.
pub open spec fn cart_total_spec(cart: Seq<CartItem>) -> int
    decreases cart.len(),
{
    if cart.len() == 0 {
        0
    } else {
        cart_total_spec(cart.drop_last()) + line_total(cart.last())
    }
}

/// Adds one unit of `item` to the cart: an existing line for the same
/// id grows by one unit, otherwise a new line with quantity one is
/// appended.
pub fn add_to_cart(cart: &mut Vec<CartItem>, item: &Item)
    requires
        cart_wf(old(cart)@),
        forall|i: int| 0 <= i < old(cart)@.len() ==> old(cart)@[i].quantity < u32::MAX,
    ensures
        cart_wf(final(cart)@),
        cart_has(old(cart)@, item.id@) ==> exists|i: int|
            {
                &&& 0 <= i < old(cart)@.len()
                &&& old(cart)@[i].item.id@ == item.id@
                &&& final(cart)@ == old(cart)@.update(i, bumped(old(cart)@[i]))
            },
        !cart_has(old(cart)@, item.id@) ==> {
            &&& final(cart)@.len() == old(cart)@.len() + 1
            &&& forall|j: int| 0 <= j < old(cart)@.len() ==> final(cart)@[j] == old(cart)@[j]
            &&& final(cart)@.last().item == *item
            &&& final(cart)@.last().quantity == 1u32
        },
{
    let n = cart.len();
    let mut i: usize = 0;
    while i < n
        invariant
            cart@ == old(cart)@,
            cart_wf(cart@),
            n == cart@.len(),
            i <= n,
            forall|j: int| 0 <= j < i ==> cart@[j].item.id@ != item.id@,
            forall|j: int| 0 <= j < n ==> cart@[j].quantity < u32::MAX,
        decreases n - i,
    {
        if cart[i].item.id == item.id {
            let ghost before = cart@;
            let line = vstd::std_specs::vec::vec_index_mut(cart, i);
            line.quantity = line.quantity + 1;
            proof {
                assert(before[i as int].item.id@ == item.id@);
                assert(cart@ == before.update(i as int, bumped(before[i as int])));
                assert(forall|p: int|
                    0 <= p < cart@.len() ==> cart@[p].item.id@ == before[p].item.id@);
            }
            return ;
        }
        i = i + 1;
    }
    cart.push(CartItem { item: clone_item(item), quantity: 1 });
    proof {
        assert(forall|j: int|
            0 <= j < old(cart)@.len() ==> cart@[j].item.id@ != item.id@);
    }
}

/// Removes the whole line carrying `id`, if any; a cart without that
/// id is left as it is.
pub fn remove_from_cart(cart: &mut Vec<CartItem>, id: &String)
    requires
        cart_wf(old(cart)@),
    ensures
        cart_wf(final(cart)@),
        cart_has(old(cart)@, id@) ==> exists|i: int|
            {
                &&& 0 <= i < old(cart)@.len()
                &&& old(cart)@[i].item.id@ == id@
                &&& final(cart)@ == old(cart)@.remove(i)
            },
        !cart_has(old(cart)@, id@) ==> final(cart)@ == old(cart)@,
{
    let n = cart.len();
    let mut i: usize = 0;
    while i < n
        invariant
            cart@ == old(cart)@,
            cart_wf(cart@),
            n == cart@.len(),
            i <= n,
            forall|j: int| 0 <= j < i ==> cart@[j].item.id@ != id@,
        decreases n - i,
    {
        if cart[i].item.id == *id {
            let ghost before = cart@;
            cart.remove(i);
            proof {
                assert(before[i as int].item.id@ == id@);
                assert(cart@ == before.remove(i as int));
            }
            return ;
        }
        i = i + 1;
    }
}

/// Takes one unit of `id` out of the cart: a line with more than one
/// unit shrinks by one, a line with a single unit disappears, and a
/// cart without that id is left as it is.
pub fn reduce_in_cart(cart: &mut Vec<CartItem>, id: &String)
    requires
        cart_wf(old(cart)@),
    ensures
        cart_wf(final(cart)@),
        cart_has(old(cart)@, id@) ==> exists|i: int|
            {
                &&& 0 <= i < old(cart)@.len()
                &&& #[trigger] old(cart)@[i].item.id@ == id@
                &&& if old(cart)@[i].quantity > 1 {
                    final(cart)@ == old(cart)@.update(i, reduced(old(cart)@[i]))
                } else {
                    final(cart)@ == old(cart)@.remove(i)
                }
            },
        !cart_has(old(cart)@, id@) ==> final(cart)@ == old(cart)@,
{
    let n = cart.len();
    let mut i: usize = 0;
    while i < n
        invariant
            cart@ == old(cart)@,
            cart_wf(cart@),
            n == cart@.len(),
            i <= n,
            forall|j: int| 0 <= j < i ==> cart@[j].item.id@ != id@,
        decreases n - i,
    {
        if cart[i].item.id == *id {
            let ghost before = cart@;
            if cart[i].quantity > 1 {
                let line = vstd::std_specs::vec::vec_index_mut(cart, i);
                line.quantity = line.quantity - 1;
                proof {
                    assert(before[i as int].item.id@ == id@);
                    assert(cart@ == before.update(i as int, reduced(before[i as int])));
                    assert(forall|p: int|
                        0 <= p < cart@.len() ==> cart@[p].item.id@ == before[p].item.id@);
                }
            } else {
                cart.remove(i);
                proof {
                    assert(before[i as int].item.id@ == id@);
                    assert(cart@ == before.remove(i as int));
                }
            }
            return ;
        }
        i = i + 1;
    }
}

/// Every prefix of a cart costs at most the whole cart.
proof fn lemma_cart_total_prefix_le(cart: Seq<CartItem>, i: int)
    requires
        0 <= i <= cart.len(),
    ensures
        cart_total_spec(cart.take(i)) <= cart_total_spec(cart),
    decreases cart.len() - i,
{
    if i == cart.len() {
        assert(cart.take(i) =~= cart);
    } else {
        assert(cart.take(i + 1).drop_last() =~= cart.take(i));
        assert(line_total(cart.take(i + 1).last()) >= 0);
        lemma_cart_total_prefix_le(cart, i + 1);
    }
}

/// The total price of the cart, or `None` when it does not fit the
/// machine word.
pub fn cart_total(cart: &Vec<CartItem>) -> (r: Option<u64>)
    ensures
        match r {
            Some(total) => total == cart_total_spec(cart@),
            None => cart_total_spec(cart@) > u64::MAX,
        },
{
    let n = cart.len();
    let mut total: u64 = 0;
    let mut i: usize = 0;
    while i < n
        invariant
            n == cart@.len(),
            i <= n,
            total == cart_total_spec(cart@.take(i as int)),
        decreases n - i,
    {
        proof {
            assert(cart@.take(i + 1).drop_last() =~= cart@.take(i as int));
            assert(cart@.take(i + 1).last() == cart@[i as int]);
        }
        let line_price = match cart[i].item.price.checked_mul(cart[i].quantity as u64) {
            Some(x) => x,
            None => {
                proof {
                    lemma_cart_total_prefix_le(cart@, i + 1);
                }
                return None;
            },
        };
        let next = match total.checked_add(line_price) {
            Some(x) => x,
            None => {
                proof {
                    lemma_cart_total_prefix_le(cart@, i + 1);
                }
                return None;
            },
        };
        total = next;
        i = i + 1;
    }
    proof {
        assert(cart@.take(n as int) =~= cart@);
    }
    Some(total)
}

/// Turns a one-based menu selection over `count` offers into the
/// selected index: `InvalidSelection` exactly when the selection is
/// zero or past the end.
pub fn validate_selection(selection: usize, count: usize) -> (r: Result<usize, MarketError>)
    ensures
        1 <= selection <= count ==> r == Ok::<usize, MarketError>((selection - 1) as usize),
        !(1 <= selection <= count) ==> r == Err::<usize, MarketError>(
            MarketError::InvalidSelection,
        ),
{
    if selection >= 1 && selection <= count {
        Ok(selection - 1)
    } else {
        Err(MarketError::InvalidSelection)
    }
}

} // verus!
