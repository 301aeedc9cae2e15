use vstd::prelude::*;
use crate::text::text_eq;

verus! {

/// A market as the markets file describes it.
///
/// `min_mov` and `price_scale` are floating-point numbers in the file; the
/// library carries them unchanged, as the IEEE-754 bit patterns of the `f64`
/// values (`f64::to_bits`), and never computes with them.
#[derive(Debug)]
pub struct RawMarket {
    pub name: String,
    pub address: String,
    pub is_pyth: bool,
    pub base_decimals: u8,
    pub quote_decimals: u8,
    pub min_mov: u64,
    pub price_scale: u64,
}

/// `k` is the position of the first market in `markets` whose name is `name`.
pub open spec fn first_named(markets: Seq<RawMarket>, name: Seq<char>, k: int) -> bool {
    &&& 0 <= k < markets.len()
    &&& markets[k].name@ == name
    &&& forall|j: int| 0 <= j < k ==> #[trigger] markets[j].name@ != name
}

/// Some market in `markets` is named `name`.
pub open spec fn has_market_named(markets: Seq<RawMarket>, name: Seq<char>) -> bool {
    exists|k: int| 0 <= k < markets.len() && #[trigger] markets[k].name@ == name
}

/// The position of the first market named `name`, if there is one.
pub fn find_market(markets: &[RawMarket], name: &str) -> (r: Option<usize>)
    ensures
        match r {
            Some(k) => first_named(markets@, name@, k as int),
            None => !has_market_named(markets@, name@),
        },
{
    let mut i: usize = 0;
    while i < markets.len()
        invariant
            i <= markets@.len(),
            forall|j: int| 0 <= j < i ==> #[trigger] markets@[j].name@ != name@,
        decreases markets@.len() - i,
    {
        if text_eq(markets[i].name.as_str(), name) {
            return Some(i);
        }
        i = i + 1;
    }
    None
}

/// A market of some name exists exactly when there is a first market of that
/// name: the lookups by name (`valid_market`, `SymbolInfo::new`, the symbol
/// and history requests) all succeed on the same names.
pub proof fn named_market_has_first(markets: Seq<RawMarket>, name: Seq<char>)
    ensures
        has_market_named(markets, name) <==> exists|k: int| first_named(markets, name, k),
{
    if has_market_named(markets, name) {
        let i = choose|i: int| 0 <= i < markets.len() && #[trigger] markets[i].name@ == name;
        lemma_first_at_or_before(markets, name, i);
    }
    if exists|k: int| first_named(markets, name, k) {
        let k = choose|k: int| first_named(markets, name, k);
        assert(markets[k].name@ == name);
    }
}

proof fn lemma_first_at_or_before(markets: Seq<RawMarket>, name: Seq<char>, i: int)
    requires
        0 <= i < markets.len(),
        markets[i].name@ == name,
    ensures
        exists|k: int| first_named(markets, name, k),
    decreases i,
{
    if exists|j: int| 0 <= j < i && #[trigger] markets[j].name@ == name {
        let j = choose|j: int| 0 <= j < i && #[trigger] markets[j].name@ == name;
        lemma_first_at_or_before(markets, name, j);
    } else {
        assert(first_named(markets, name, i));
    }
}

} // verus!
