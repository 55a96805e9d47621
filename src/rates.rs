use vstd::prelude::*;

verus! {

/// The score threshold of the tier that a credit score falls into.
pub open spec fn tier_of(credit_score: u32) -> u32 {
    if credit_score >= 800 {
        800
    } else if credit_score >= 700 {
        700
    } else if credit_score >= 600 {
        600
    } else if credit_score >= 500 {
        500
    } else if credit_score >= 400 {
        400
    } else {
        300
    }
}

/// The rate, in basis points, that a tier falls back to when the table has no entry for it.
pub open spec fn fallback_rate(threshold: u32) -> u32 {
    if threshold == 800 {
        800
    } else if threshold == 700 {
        1000
    } else if threshold == 600 {
        1200
    } else if threshold == 500 {
        1500
    } else if threshold == 400 {
        2000
    } else {
        2500
    }
}

/// The tier table installed at initialization: threshold -> rate in basis points.
pub open spec fn default_table() -> Seq<(u32, u32)> {
    seq![(300u32, 2500u32), (400u32, 2000u32), (500u32, 1500u32), (600u32, 1200u32), (700u32, 1000u32), (800u32, 800u32)]
}

/// Map lookup over a table of (key, value) entries; a later entry overrides an earlier one.
pub open spec fn table_get(table: Seq<(u32, u32)>, key: u32) -> Option<u32>
    decreases table.len(),
{
    if table.len() == 0 {
        None
    } else if table.last().0 == key {
        Some(table.last().1)
    } else {
        table_get(table.drop_last(), key)
    }
}

/// The rate for a credit score: the table's entry for its tier, else the tier's fallback.
pub open spec fn rate_spec(table: Seq<(u32, u32)>, credit_score: u32) -> u32 {
    match table_get(table, tier_of(credit_score)) {
        Some(r) => r,
        None => fallback_rate(tier_of(credit_score)),
    }
}

/// Builds the tier table installed at initialization.
pub fn default_rates() -> (r: Vec<(u32, u32)>)
    ensures
        r@ == default_table(),
{
    let r: Vec<(u32, u32)> = vec![(300, 2500), (400, 2000), (500, 1500), (600, 1200), (700, 1000), (800, 800)];
    assert(r@ =~= default_table());
    r
}

/// Looks a key up in the table; the last entry with that key wins.
pub fn table_lookup(table: &Vec<(u32, u32)>, key: u32) -> (r: Option<u32>)
    ensures
        r == table_get(table@, key),
{
    let mut i: usize = table.len();
    assert(table@.subrange(0, i as int) =~= table@);
    while i > 0
        invariant
            i <= table.len(),
            table_get(table@, key) == table_get(table@.subrange(0, i as int), key),
        decreases i,
    {
        let prefix = Ghost(table@.subrange(0, i as int));
        assert(prefix@.drop_last() =~= table@.subrange(0, i - 1));
        let entry = table[i - 1];
        if entry.0 == key {
            return Some(entry.1);
        }
        i = i - 1;
    }
    assert(table@.subrange(0, 0) =~= Seq::<(u32, u32)>::empty());
    None
}

/// Resolves the rate in basis points for a credit score against a tier table.
pub fn resolve_rate(table: &Vec<(u32, u32)>, credit_score: u32) -> (r: u32)
    ensures
        r == rate_spec(table@, credit_score),
{
    let (threshold, fallback): (u32, u32) = if credit_score >= 800 {
        (800, 800)
    } else if credit_score >= 700 {
        (700, 1000)
    } else if credit_score >= 600 {
        (600, 1200)
    } else if credit_score >= 500 {
        (500, 1500)
    } else if credit_score >= 400 {
        (400, 2000)
    } else {
        (300, 2500)
    };
    match table_lookup(table, threshold) {
        Some(r) => r,
        None => fallback,
    }
}

/// Against the installed table, a higher credit score never gets a higher rate.
pub proof fn lemma_rate_non_increasing(low: u32, high: u32)
    requires
        low <= high,
    ensures
        rate_spec(default_table(), high) <= rate_spec(default_table(), low),
{
    reveal_with_fuel(table_get, 7);
}

} // verus!
