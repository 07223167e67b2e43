//! Mass-quote records and the validation rules of a mass-quote request.
//!
//! Quote prices and amounts are decimal numbers handled outside the verified
//! core; the rules checked here read only the instrument and side of each
//! quote.

use vstd::prelude::*;
use crate::text::{
    ascii_lower, ascii_upper, eq_ignore_ascii_case, has_char, is_ascii_text, lemma_upper_matches_capital, lemma_split_concat, lemma_split_nonempty,
    lemma_split_without_sep, same_text, split, split_on, to_uppercase, uppercase_text,
};

verus! {

/// Mass quote response.
#[derive(Clone, Debug)]
pub struct MassQuoteResult {
    /// Number of successful quotes placed
    pub success_count: u32,
    /// Number of failed quotes
    pub error_count: u32,
    /// Detailed error information (if requested)
    pub errors: Option<Vec<QuoteError>>,
}

/// Quote error information.
#[derive(Clone, Debug)]
pub struct QuoteError {
    /// Instrument name that failed
    pub instrument_name: String,
    /// Side that failed
    pub side: String,
    /// Error code
    pub error_code: i32,
    /// Error message
    pub error_message: String,
}

/// Quote cancellation response.
#[derive(Clone, Debug)]
pub struct CancelQuotesResponse {
    /// Number of quotes cancelled
    pub cancelled_count: u32,
}

/// MMP trigger notification.
#[derive(Clone, Debug)]
pub struct MmpTrigger {
    /// Currency that triggered MMP
    pub currency: String,
    /// MMP group that was triggered (if specific)
    pub mmp_group: Option<String>,
    /// Trigger timestamp
    pub timestamp: u64,
    /// Trigger reason
    pub reason: String,
    /// Duration of freeze in milliseconds
    pub frozen_time: u64,
}

/// Largest number of quotes one mass-quote request may carry.
pub const MAX_MASS_QUOTES: usize = 100;

/// The place a quote takes in the book: its instrument and its side.
#[derive(Clone, Debug)]
pub struct QuoteSlot {
    /// Instrument name (e.g., "BTC-PERPETUAL")
    pub instrument_name: String,
    /// Quote side: "buy" or "sell"
    pub side: String,
}

/// Why a mass-quote request was refused.
#[derive(Clone, Copy, Debug, PartialEq, Eq, Structural)]
pub enum MassQuoteIssue {
    /// The request holds no quote.
    NoQuotes,
    /// The request holds more than `MAX_MASS_QUOTES` quotes.
    TooManyQuotes,
    /// The quotes are for more than one currency.
    MixedCurrencies,
    /// The quote at this index takes a slot that an earlier quote took.
    DuplicateQuote(usize),
}

/// The currency of an instrument: its name up to the first `-`.
pub open spec fn currency_of(instrument: Seq<char>) -> Seq<char> {
    split_on(instrument, '-')[0]
}

/// Two quotes take the same slot.
pub open spec fn same_slot(a: QuoteSlot, b: QuoteSlot) -> bool {
    a.instrument_name@ == b.instrument_name@ && a.side@ == b.side@
}

/// All quotes are for one currency.
pub open spec fn single_currency(q: Seq<QuoteSlot>) -> bool {
    forall|i: int, j: int|
        0 <= i < q.len() && 0 <= j < q.len() ==> currency_of(#[trigger] q[i].instrument_name@)
            == currency_of(#[trigger] q[j].instrument_name@)
}

/// The quote at `j` takes the slot of an earlier quote.
pub open spec fn repeats_earlier(q: Seq<QuoteSlot>, j: int) -> bool {
    exists|i: int| 0 <= i < j && #[trigger] same_slot(q[i], q[j])
}

/// No quote takes the slot of an earlier one before index `n`.
pub open spec fn no_repeat_before(q: Seq<QuoteSlot>, n: int) -> bool {
    forall|k: int| 0 <= k < n ==> !#[trigger] repeats_earlier(q, k)
}

/// The text of `s` before the first `sep` (all of `s` when there is none).
pub fn first_piece(s: &str, sep: char) -> (c: String)
    ensures
        c@ == split_on(s@, sep)[0],
{
    let parts = split(s, sep);
    proof {
        lemma_split_nonempty(s@, sep);
        assert(parts@.map_values(|p: String| p@)[0] == parts@[0]@);
    }
    parts[0].clone()
}

/// The currency of an instrument name.
pub fn instrument_currency(instrument: &str) -> (c: String)
    ensures
        c@ == currency_of(instrument@),
{
    first_piece(instrument, '-')
}

/// The currency that starts an MMP group name: its text before the first `_`.
pub open spec fn mmp_group_currency_of(group: Seq<char>) -> Seq<char> {
    split_on(group, '_')[0]
}

/// The largest quantity limit an MMP group may be given: 5000 for a group
/// whose currency is ETH (in any case), 500 otherwise (the BTC limit).
pub open spec fn mmp_quantity_cap_of(group: Seq<char>) -> u32 {
    if uppercase_text(mmp_group_currency_of(group)) == "ETH"@ {
        5000
    } else {
        500
    }
}

/// The currency that starts an MMP group name.
pub fn mmp_group_currency(group: &str) -> (c: String)
    ensures
        c@ == mmp_group_currency_of(group@),
{
    first_piece(group, '_')
}

/// The largest quantity limit allowed for an MMP group.
pub fn mmp_quantity_cap(group: &str) -> (cap: u32)
    ensures
        cap == mmp_quantity_cap_of(group@),
{
    let currency = mmp_group_currency(group);
    let upper = to_uppercase(currency.as_str());
    if same_text(upper.as_str(), "ETH") {
        5000
    } else {
        500
    }
}

/// The first piece of `a`, a separator, then anything is `a`, when `a` holds
/// no separator; so is the first piece of `a` alone.
proof fn lemma_first_piece_of(a: Seq<char>, t: Seq<char>, sep: char)
    requires
        !has_char(a, sep),
    ensures
        split_on(a + seq![sep] + t, sep)[0] == a,
        split_on(a, sep)[0] == a,
{
    lemma_split_concat(a, t, sep);
    lemma_split_without_sep(a, sep);
}

/// The currency of an instrument is its text before the first `-`: an
/// instrument named `c-rest` for a `c` without `-` has currency `c`, whatever
/// `rest` holds (more `-` included), and a name without `-` is its own
/// currency.
pub proof fn lemma_currency_is_text_before_first_dash(c: Seq<char>, rest: Seq<char>)
    requires
        !has_char(c, '-'),
    ensures
        currency_of(c + seq!['-'] + rest) == c,
        currency_of(c) == c,
{
    lemma_first_piece_of(c, rest, '-');
}

/// Quotes whose instruments all begin with the same currency `c` and a `-`
/// are for one currency, so a request of them is never refused for mixed
/// currencies.
pub proof fn lemma_shared_prefix_is_one_currency(q: Seq<QuoteSlot>, c: Seq<char>, rests: Seq<Seq<char>>)
    requires
        !has_char(c, '-'),
        rests.len() == q.len(),
        forall|k: int| 0 <= k < q.len() ==> #[trigger] q[k].instrument_name@ == c + seq!['-'] + rests[k],
    ensures
        single_currency(q),
{
    assert forall|k: int| 0 <= k < q.len() implies currency_of(#[trigger] q[k].instrument_name@) == c by {
        lemma_currency_is_text_before_first_dash(c, rests[k]);
    }
}

/// The currency of an MMP group is its text before the first `_`: a group
/// named `c_rest` for a `c` without `_` has currency `c`, whatever `rest`
/// holds (more `_` included), and a name without `_` is its own currency.
pub proof fn lemma_mmp_currency_is_text_before_first_underscore(c: Seq<char>, rest: Seq<char>)
    requires
        !has_char(c, '_'),
    ensures
        mmp_group_currency_of(c + seq!['_'] + rest) == c,
        mmp_group_currency_of(c) == c,
{
    lemma_first_piece_of(c, rest, '_');
}

/// A group whose name starts with `eth_` in any case of its letters (or is
/// `eth` itself) has the cap 5000; one that starts with any other ASCII
/// currency and `_` has the cap 500.
pub proof fn lemma_mmp_cap_by_group_prefix(c: Seq<char>, rest: Seq<char>)
    requires
        !has_char(c, '_'),
        is_ascii_text(c),
    ensures
        mmp_quantity_cap_of(c + seq!['_'] + rest) == (if eq_ignore_ascii_case(c, "ETH"@) { 5000u32 } else { 500u32 }),
        mmp_quantity_cap_of(c) == (if eq_ignore_ascii_case(c, "ETH"@) { 5000u32 } else { 500u32 }),
{
    lemma_mmp_currency_is_text_before_first_underscore(c, rest);
    reveal_strlit("ETH");
    let e = "ETH"@;
    let u = uppercase_text(c);
    if c.len() == 3 {
        assert forall|i: int| 0 <= i < 3 implies (u[i] == e[i]) == (ascii_lower(c[i]) == ascii_lower(e[i])) by {
            assert(u[i] == ascii_upper(c[i]) as char);
            lemma_upper_matches_capital(c[i], e[i]);
        }
        if eq_ignore_ascii_case(c, e) {
            assert(u =~= e);
        }
        if u == e {
            assert(eq_ignore_ascii_case(c, e));
        }
    }
}

/// Checks a mass-quote request: it holds between one and `MAX_MASS_QUOTES`
/// quotes, all for one currency, and no two quotes on the same instrument
/// and side. The first rule broken, in that order, is reported; for
/// duplicates, the first quote that repeats an earlier one.
pub fn validate_quotes(quotes: &Vec<QuoteSlot>) -> (r: Result<(), MassQuoteIssue>)
    ensures
        quotes@.len() == 0 ==> r == Err::<(), MassQuoteIssue>(MassQuoteIssue::NoQuotes),
        quotes@.len() > MAX_MASS_QUOTES ==> r == Err::<(), MassQuoteIssue>(
            MassQuoteIssue::TooManyQuotes,
        ),
        1 <= quotes@.len() <= MAX_MASS_QUOTES && !single_currency(quotes@) ==> r == Err::<
            (),
            MassQuoteIssue,
        >(MassQuoteIssue::MixedCurrencies),
        1 <= quotes@.len() <= MAX_MASS_QUOTES && single_currency(quotes@) ==> match r {
            Ok(()) => no_repeat_before(quotes@, quotes@.len() as int),
            Err(MassQuoteIssue::DuplicateQuote(j)) => {
                &&& j < quotes@.len()
                &&& repeats_earlier(quotes@, j as int)
                &&& no_repeat_before(quotes@, j as int)
            },
            Err(_) => false,
        },
{
    let n = quotes.len();
    if n == 0 {
        return Err(MassQuoteIssue::NoQuotes);
    }
    if n > MAX_MASS_QUOTES {
        return Err(MassQuoteIssue::TooManyQuotes);
    }
    let first = instrument_currency(quotes[0].instrument_name.as_str());
    let mut i: usize = 1;
    while i < n
        invariant
            n == quotes@.len(),
            n <= MAX_MASS_QUOTES,
            1 <= i <= n,
            first@ == currency_of(quotes@[0].instrument_name@),
            forall|k: int| 0 <= k < i ==> currency_of(#[trigger] quotes@[k].instrument_name@) == first@,
        decreases n - i,
    {
        let c = instrument_currency(quotes[i].instrument_name.as_str());
        if !same_text(c.as_str(), first.as_str()) {
            proof {
                assert(currency_of(quotes@[i as int].instrument_name@) != currency_of(
                    quotes@[0].instrument_name@,
                ));
            }
            return Err(MassQuoteIssue::MixedCurrencies);
        }
        i = i + 1;
    }
    let mut j: usize = 0;
    while j < n
        invariant
            n == quotes@.len(),
            n <= MAX_MASS_QUOTES,
            j <= n,
            single_currency(quotes@),
            no_repeat_before(quotes@, j as int),
        decreases n - j,
    {
        let mut k: usize = 0;
        while k < j
            invariant
                n == quotes@.len(),
                n <= MAX_MASS_QUOTES,
                k <= j < n,
                single_currency(quotes@),
                no_repeat_before(quotes@, j as int),
                forall|m: int| 0 <= m < k ==> !#[trigger] same_slot(quotes@[m], quotes@[j as int]),
            decreases j - k,
        {
            if same_text(quotes[k].instrument_name.as_str(), quotes[j].instrument_name.as_str())
                && same_text(quotes[k].side.as_str(), quotes[j].side.as_str())
            {
                proof {
                    assert(same_slot(quotes@[k as int], quotes@[j as int]));
                }
                return Err(MassQuoteIssue::DuplicateQuote(j));
            }
            k = k + 1;
        }
        proof {
            assert(!repeats_earlier(quotes@, j as int));
            assert forall|m: int| 0 <= m < j + 1 implies !#[trigger] repeats_earlier(quotes@, m) by {
                if m < j {
                    assert(no_repeat_before(quotes@, j as int));
                }
            }
        }
        j = j + 1;
    }
    Ok(())
}

} // verus!
