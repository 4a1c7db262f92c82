//! The catalog gateway's read side: lookup by id and keyword search,
//! plus listing a new item for sale.
//!
//! The engine only ever needs this read-only capability; the catalog
//! itself is a plain vector owned by the caller.

use vstd::prelude::*;

use crate::errors::MarketError;
use crate::models::Item;
use crate::numerals::dec_rep;
use crate::numerals::u64_to_string;

verus! {

/// The Unicode lowercasing of `s`.  `str::to_lowercase`'s result
/// depends on the characters alone; this names it, since the case
/// mapping is not restated here.
pub uninterp spec fn lower_of(s: Seq<char>) -> Seq<char>;

/// Relies on `str::to_lowercase` for the Unicode lowercase mapping.
#[verifier::external_body]
fn lowercase(s: &str) -> (r: String)
    ensures
        r@ == lower_of(s@),
{
    s.to_lowercase()
}

/// Whether `needle` occurs contiguously inside `haystack`.
pub open spec fn spec_contains(haystack: Seq<char>, needle: Seq<char>) -> bool {
    exists|i: int|
        0 <= i <= haystack.len() - needle.len() && #[trigger] haystack.subrange(
            i,
            i + needle.len(),
        ) == needle
}

/// Relies on `str::contains`: true exactly when the needle occurs as
/// a contiguous run of characters in the haystack.
#[verifier::external_body]
fn str_contains(haystack: &str, needle: &str) -> (r: bool)
    ensures
        r == spec_contains(haystack@, needle@),
{
    haystack.contains(needle)
}

/// Whether an item answers a search: the keyword occurs in the
/// lowercased name or in the lowercased description.
pub open spec fn item_matches(it: Item, keyword: Seq<char>) -> bool {
    spec_contains(lower_of(it.name@), keyword) || spec_contains(lower_of(it.description@), keyword)
}

/// A by-value copy of an item, field for field.
pub fn clone_item(it: &Item) -> (r: Item)
    ensures
        r == *it,
{
    Item {
        id: it.id.clone(),
        name: it.name.clone(),
        price: it.price,
        description: it.description.clone(),
    }
}

/// Whether some listed item carries this id.
pub open spec fn has_item(items: Seq<Item>, id: Seq<char>) -> bool {
    exists|i: int| 0 <= i < items.len() && items[i].id@ == id
}

/// Looks an item up by id.  Returns the first listed item with that
/// id, and `ItemNotFound` exactly when no listed item carries it.
pub fn find_item<'a>(items: &'a Vec<Item>, id: &String) -> (r: Result<&'a Item, MarketError>)
    ensures
        match r {
            Ok(it) => exists|i: int|
                {
                    &&& 0 <= i < items@.len()
                    &&& items@[i] == *it
                    &&& items@[i].id@ == id@
                    &&& forall|j: int| 0 <= j < i ==> items@[j].id@ != id@
                },
            Err(e) => e == MarketError::ItemNotFound && !has_item(items@, id@),
        },
        r is Ok <==> has_item(items@, id@),
{
    let n = items.len();
    let mut i: usize = 0;
    while i < n
        invariant
            n == items@.len(),
            i <= n,
            forall|j: int| 0 <= j < i ==> items@[j].id@ != id@,
        decreases n - i,
    {
        if items[i].id == *id {
            return Ok(&items[i]);
        }
        i = i + 1;
    }
    Err(MarketError::ItemNotFound)
}

/// Searches the catalog: every item whose lowercased name or
/// description contains the keyword, in catalog order.
pub fn search_items(items: &Vec<Item>, keyword: &String) -> (r: Vec<Item>)
    ensures
        r@ == items@.filter(|it: Item| item_matches(it, keyword@)),
{
    let ghost pred = |it: Item| item_matches(it, keyword@);
    let mut r: Vec<Item> = Vec::new();
    let n = items.len();
    let mut i: usize = 0;
    while i < n
        invariant
            n == items@.len(),
            i <= n,
            r@ == items@.take(i as int).filter(pred),
            pred == (|it: Item| item_matches(it, keyword@)),
        decreases n - i,
    {
        let name_lower = lowercase(items[i].name.as_str());
        let description_lower = lowercase(items[i].description.as_str());
        if str_contains(name_lower.as_str(), keyword.as_str()) || str_contains(
            description_lower.as_str(),
            keyword.as_str(),
        ) {
            r.push(clone_item(&items[i]));
        }
        proof {
            reveal(Seq::filter);
            assert(items@.take(i + 1).drop_last() =~= items@.take(i as int));
            assert(items@.take(i + 1).last() == items@[i as int]);
            assert(items@.take(i + 1).filter(pred) == if pred(items@[i as int]) {
                items@.take(i as int).filter(pred).push(items@[i as int])
            } else {
                items@.take(i as int).filter(pred)
            });
        }
        i = i + 1;
    }
    proof {
        assert(items@.take(n as int) =~= items@);
    }
    r
}

/// Lists a new item for sale: it is appended to the catalog under the
/// next free position's number, rendered in decimal, as its id.
pub fn post_item(posted_items: &mut Vec<Item>, name: String, price: u64, description: String)
    requires
        old(posted_items)@.len() < usize::MAX,
    ensures
        final(posted_items)@.len() == old(posted_items)@.len() + 1,
        forall|j: int|
            0 <= j < old(posted_items)@.len() ==> final(posted_items)@[j] == old(
                posted_items,
            )@[j],
        final(posted_items)@.last().id@ == dec_rep((old(posted_items)@.len() + 1) as nat),
        final(posted_items)@.last().name == name,
        final(posted_items)@.last().price == price,
        final(posted_items)@.last().description == description,
{
    let next = posted_items.len() + 1;
    let id = u64_to_string(next as u64);
    posted_items.push(Item { id, name, price, description });
}

} // verus!
