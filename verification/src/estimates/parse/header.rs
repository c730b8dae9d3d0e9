//! Finding the header of the table and its columns.
//!
//! In real estimates the header is almost never the first row: above it lie
//! the name of the object, requisites and empty rows. We look for a row where
//! known words ("наименование", "кол-во", "цена", "сумма") meet in at least
//! two DIFFERENT columns: two words in one cell are a sentence, not a header.
use vstd::prelude::*;

use super::Cell;
use crate::text::{
    all_basic, basic_lowercase, chars_of, contains, contains_chars, to_lowercase, unicode_lowercase,
};

verus! {

/// How deep we look for the header: below it the works begin.
pub const SEARCH_ROWS: usize = 40;

/// Known words must meet in at least this many different columns.
pub const MIN_MATCHED_COLUMNS: usize = 2;

#[derive(PartialEq, Eq, Structural, Debug, Clone, Copy)]
pub struct Columns {
    pub header_row: usize,
    pub title: Option<usize>,
    pub unit: Option<usize>,
    pub quantity: Option<usize>,
    pub price: Option<usize>,
    pub total: Option<usize>,
}

/// Words of a title column.
pub open spec fn title_words() -> Seq<&'static str> {
    seq!["наименование", "вид работ", "виды работ", "позиция", "товар", "работы"]
}

/// Words of a unit column.
pub open spec fn unit_words() -> Seq<&'static str> {
    seq!["ед.", "ед ", "единиц"]
}

/// Words of a quantity column; «кол» covers «Кол-во», «Количество» and «Кол».
pub open spec fn quantity_words() -> Seq<&'static str> {
    seq!["кол", "объем", "объём"]
}

/// Words of a price column. «стоимость единицы» is a price, so the price is
/// looked for before the total.
pub open spec fn price_words() -> Seq<&'static str> {
    seq!["цена", "расценка", "стоимость ед", "цена ед"]
}

/// Unambiguous words of a row total. A bare «стоимость» is not here: next
/// to «итого» it means the price of a unit.
pub open spec fn total_words() -> Seq<&'static str> {
    seq!["сумма", "всего", "итого"]
}

pub open spec fn cost_word() -> &'static str {
    "стоимость"
}

/// `text` holds one of `words`.
pub open spec fn has_word(text: Seq<char>, words: Seq<&'static str>) -> bool {
    exists|k: int| 0 <= k < words.len() && contains(text, #[trigger] words[k]@)
}

/// The first index `i` of `0..n` from `from` on for which `p(i)` holds.
pub open spec fn first_match(n: int, p: spec_fn(int) -> bool, from: int) -> Option<usize>
    decreases n - from,
{
    if from < 0 || from >= n {
        None
    } else if p(from) {
        Some(from as usize)
    } else {
        first_match(n, p, from + 1)
    }
}

/// `r` is the first index of `0..n` at which `p` holds.
pub open spec fn is_first(r: Option<usize>, n: int, p: spec_fn(int) -> bool) -> bool {
    match r {
        None => forall|j: int| 0 <= j < n ==> !#[trigger] p(j),
        Some(k) => 0 <= k < n && p(k as int) && forall|j: int| 0 <= j < k ==> !#[trigger] p(j),
    }
}

proof fn lemma_first_match_skip(n: int, p: spec_fn(int) -> bool, from: int, to: int)
    requires
        0 <= from <= to,
        forall|j: int| from <= j < to ==> !#[trigger] p(j),
    ensures
        first_match(n, p, from) == first_match(n, p, to),
    decreases to - from,
{
    if from < to && from < n {
        lemma_first_match_skip(n, p, from + 1, to);
    } else if from < to {
        lemma_first_match_none(n, p, from);
        lemma_first_match_none(n, p, to);
    }
}

proof fn lemma_first_match_none(n: int, p: spec_fn(int) -> bool, from: int)
    requires
        from >= n,
    ensures
        first_match(n, p, from) is None,
{
}

proof fn lemma_first_match_at_least(n: int, p: spec_fn(int) -> bool, from: int)
    requires
        0 <= from,
        n <= usize::MAX + 1,
    ensures
        first_match(n, p, from) matches Some(m) ==> from <= m < n && p(m as int),
    decreases n - from,
{
    if from < n && !p(from) {
        lemma_first_match_at_least(n, p, from + 1);
    }
}

/// What the first matches of a prefix say of the first match of the whole.
pub proof fn lemma_first_prefix(r: Option<usize>, index: int, n: int, p: spec_fn(int) -> bool)
    requires
        0 <= index <= n <= usize::MAX + 1,
        is_first(r, index, p),
    ensures
        r matches Some(k) ==> first_match(n, p, 0) == Some(k),
        r is None ==> (first_match(n, p, 0) matches Some(m) ==> m >= index),
{
    match r {
        Some(k) => {
            lemma_first_match_skip(n, p, 0, k as int);
        },
        None => {
            lemma_first_match_skip(n, p, 0, index);
            lemma_first_match_at_least(n, p, index);
        },
    }
}

pub proof fn lemma_first_match(r: Option<usize>, n: int, p: spec_fn(int) -> bool)
    requires
        0 <= n <= usize::MAX + 1,
        is_first(r, n, p),
    ensures
        first_match(n, p, 0) == r,
{
    lemma_first_prefix(r, n, n, p);
    if r is None {
        lemma_first_match_at_least(n, p, 0);
    }
}

/// After looking at `index`, the first match over `0..index + 1`.
proof fn lemma_first_step(r: Option<usize>, index: int, p: spec_fn(int) -> bool)
    requires
        0 <= index < usize::MAX,
        is_first(r, index, p),
    ensures
        is_first(if r is None && p(index) { Some(index as usize) } else { r }, index + 1, p),
{
}

/// The lowercased texts of a row's cells.
pub open spec fn lowered<N>(row: Seq<Cell<N>>) -> Seq<Seq<char>> {
    row.map_values(|c: Cell<N>| unicode_lowercase(c.text@))
}

/// The texts of a row's cells lowercased by `basic_lowercase`.
pub open spec fn basic_lowered<N>(row: Seq<Cell<N>>) -> Seq<Seq<char>> {
    row.map_values(|c: Cell<N>| basic_lowercase(c.text@))
}

/// Every cell of the row holds ASCII and basic Cyrillic alone.
pub open spec fn all_basic_cells<N>(row: Seq<Cell<N>>) -> bool {
    forall|j: int| 0 <= j < row.len() ==> all_basic(#[trigger] row[j].text@)
}

/// The non-empty cell `i` holds one of `words`.
pub open spec fn word_at(t: Seq<Seq<char>>, words: Seq<&'static str>) -> spec_fn(int) -> bool {
    |i: int| t[i].len() > 0 && has_word(t[i], words)
}

/// Cell `i` may be the row total: a total word, and not the price's cell.
pub open spec fn total_at(t: Seq<Seq<char>>, price: Option<usize>) -> spec_fn(int) -> bool {
    |i: int| t[i].len() > 0 && has_word(t[i], total_words()) && price != Some(i as usize)
}

/// Cell `i` holds a bare «стоимость» and is neither the price nor the total.
pub open spec fn cost_at(t: Seq<Seq<char>>, price: Option<usize>, total: Option<usize>) -> spec_fn(
    int,
) -> bool {
    |i: int|
        t[i].len() > 0 && contains(t[i], cost_word()@) && price != Some(i as usize) && total
            != Some(i as usize)
}

/// What the cells of one row say about the columns, if that row is the
/// header `header_row`. Each slot takes the first non-empty cell with a word
/// of its kind; the total may not take the price's cell. A bare «стоимость»
/// in a cell that is neither price nor total is the row total when no other
/// total was found, and the unit price when there is a total but no price.
pub open spec fn header_columns(t: Seq<Seq<char>>, header_row: usize) -> Columns {
    let n = t.len() as int;
    let price = first_match(n, word_at(t, price_words()), 0);
    let total = first_match(n, total_at(t, price), 0);
    let cost = first_match(n, cost_at(t, price, total), 0);
    let (price, total) = match (total, cost) {
        (None, Some(c)) => (price, Some(c)),
        (Some(_), Some(c)) => if price is None {
            (Some(c), total)
        } else {
            (price, total)
        },
        _ => (price, total),
    };
    Columns {
        header_row,
        title: first_match(n, word_at(t, title_words()), 0),
        unit: first_match(n, word_at(t, unit_words()), 0),
        quantity: first_match(n, word_at(t, quantity_words()), 0),
        price,
        total,
    }
}

/// How many different values `s` holds.
pub open spec fn distinct_count(s: Seq<usize>) -> nat
    decreases s.len(),
{
    if s.len() == 0 {
        0
    } else {
        distinct_count(s.drop_last()) + if s.drop_last().contains(s.last()) {
            0nat
        } else {
            1nat
        }
    }
}

pub open spec fn opt_seq(o: Option<usize>) -> Seq<usize> {
    match o {
        Some(v) => seq![v],
        None => Seq::<usize>::empty(),
    }
}

impl Columns {
    /// The recognised columns, in slot order.
    pub open spec fn slots(self) -> Seq<usize> {
        opt_seq(self.title) + opt_seq(self.unit) + opt_seq(self.quantity) + opt_seq(self.price)
            + opt_seq(self.total)
    }

    /// How many DIFFERENT columns were recognised: slots that met in one
    /// column count once, or else an ordinary sentence would become a header.
    pub fn matched_columns(&self) -> (r: usize)
        ensures
            r == distinct_count(self.slots()),
    {
        let mut v: Vec<usize> = Vec::new();
        push_opt(&mut v, self.title);
        push_opt(&mut v, self.unit);
        push_opt(&mut v, self.quantity);
        push_opt(&mut v, self.price);
        push_opt(&mut v, self.total);
        assert(v@ =~= self.slots());
        count_distinct(&v)
    }
}

fn push_opt(v: &mut Vec<usize>, o: Option<usize>)
    ensures
        final(v)@ == old(v)@ + opt_seq(o),
{
    match o {
        Some(x) => {
            v.push(x);
            assert(old(v)@.push(x) =~= old(v)@ + seq![x]);
        },
        None => {
            assert(old(v)@ + Seq::<usize>::empty() =~= old(v)@);
        },
    }
}

fn count_distinct(v: &Vec<usize>) -> (r: usize)
    ensures
        r == distinct_count(v@),
{
    let mut count: usize = 0;
    let mut i: usize = 0;
    while i < v.len()
        invariant
            i <= v@.len(),
            count == distinct_count(v@.take(i as int)),
            count <= i,
        decreases v@.len() - i,
    {
        let mut seen = false;
        let mut j: usize = 0;
        while j < i
            invariant
                j <= i < v@.len(),
                seen == exists|k: int| 0 <= k < j && v@[k] == v@[i as int],
            decreases i - j,
        {
            if v[j] == v[i] {
                seen = true;
            }
            j += 1;
        }
        proof {
            let pre = v@.take(i + 1);
            assert(pre.drop_last() =~= v@.take(i as int));
            assert(pre.last() == v@[i as int]);
            if seen {
                let k = choose|k: int| 0 <= k < i && v@[k] == v@[i as int];
                assert(v@.take(i as int)[k] == v@[i as int]);
            } else {
                assert forall|k: int| 0 <= k < i implies v@.take(i as int)[k] != v@[i as int] by {}
            }
        }
        if !seen {
            count += 1;
        }
        i += 1;
    }
    assert(v@.take(v@.len() as int) =~= v@);
    count
}

/// Whether `text` holds one of `words`.
fn any_word(text: &[char], words: &[&'static str]) -> (r: bool)
    ensures
        r == has_word(text@, words@),
{
    let mut k: usize = 0;
    while k < words.len()
        invariant
            k <= words@.len(),
            forall|j: int| 0 <= j < k ==> !contains(text@, #[trigger] words@[j]@),
        decreases words@.len() - k,
    {
        let w = chars_of(words[k]);
        if contains_chars(text, w.as_slice()) {
            return true;
        }
        k += 1;
    }
    false
}

/// The columns the cells of `row` name, if `row` is the header `header_row`.
pub fn columns_of<N>(header_row: usize, row: &[Cell<N>]) -> (r: Columns)
    ensures
        r == header_columns(lowered(row@), header_row),
        all_basic_cells(row@) ==> lowered(row@) == basic_lowered(row@) && r == header_columns(
            basic_lowered(row@),
            header_row,
        ),
{
    let ghost t = lowered(row@);
    let ghost n = row@.len() as int;
    let title_list: [&'static str; 6] = [
        "наименование",
        "вид работ",
        "виды работ",
        "позиция",
        "товар",
        "работы",
    ];
    let unit_list: [&'static str; 3] = ["ед.", "ед ", "единиц"];
    let quantity_list: [&'static str; 3] = ["кол", "объем", "объём"];
    let price_list: [&'static str; 4] = ["цена", "расценка", "стоимость ед", "цена ед"];
    let total_list: [&'static str; 3] = ["сумма", "всего", "итого"];
    assert(title_list@ =~= title_words());
    assert(unit_list@ =~= unit_words());
    assert(quantity_list@ =~= quantity_words());
    assert(price_list@ =~= price_words());
    assert(total_list@ =~= total_words());
    let cost_text = chars_of("стоимость");
    let ghost big_p = first_match(n, word_at(t, price_words()), 0);
    let ghost big_t = first_match(n, total_at(t, big_p), 0);
    let mut title: Option<usize> = None;
    let mut unit: Option<usize> = None;
    let mut quantity: Option<usize> = None;
    let mut price: Option<usize> = None;
    let mut total: Option<usize> = None;
    let mut cost: Option<usize> = None;
    let mut index: usize = 0;
    while index < row.len()
        invariant
            index <= n,
            n == row@.len(),
            t == lowered(row@),
            cost_text@ == cost_word()@,
            title_list@ == title_words(),
            unit_list@ == unit_words(),
            quantity_list@ == quantity_words(),
            price_list@ == price_words(),
            total_list@ == total_words(),
            big_p == first_match(n, word_at(t, price_words()), 0),
            big_t == first_match(n, total_at(t, big_p), 0),
            is_first(title, index as int, word_at(t, title_words())),
            is_first(unit, index as int, word_at(t, unit_words())),
            is_first(quantity, index as int, word_at(t, quantity_words())),
            is_first(price, index as int, word_at(t, price_words())),
            is_first(total, index as int, total_at(t, big_p)),
            is_first(cost, index as int, cost_at(t, big_p, big_t)),
            forall|j: int|
                0 <= j < index ==> all_basic(#[trigger] row@[j].text@) ==> unicode_lowercase(
                    row@[j].text@,
                ) == basic_lowercase(row@[j].text@),
        decreases n - index,
    {
        let lower = to_lowercase(row[index].text.as_str());
        let text = chars_of(lower.as_str());
        assert(text@ == t[index as int]);
        let nonempty = text.len() > 0;
        let is_title = nonempty && any_word(text.as_slice(), &title_list);
        let is_unit = nonempty && any_word(text.as_slice(), &unit_list);
        let is_quantity = nonempty && any_word(text.as_slice(), &quantity_list);
        let is_price = nonempty && any_word(text.as_slice(), &price_list);
        let is_total = nonempty && any_word(text.as_slice(), &total_list);
        let is_cost = nonempty && contains_chars(text.as_slice(), cost_text.as_slice());
        proof {
            lemma_first_step(title, index as int, word_at(t, title_words()));
            lemma_first_step(unit, index as int, word_at(t, unit_words()));
            lemma_first_step(quantity, index as int, word_at(t, quantity_words()));
            lemma_first_step(price, index as int, word_at(t, price_words()));
        }
        if title.is_none() && is_title {
            title = Some(index);
        }
        if unit.is_none() && is_unit {
            unit = Some(index);
        }
        if quantity.is_none() && is_quantity {
            quantity = Some(index);
        }
        if price.is_none() && is_price {
            price = Some(index);
        }
        proof {
            lemma_first_prefix(price, index + 1, n, word_at(t, price_words()));
            assert((price == Some(index)) == (big_p == Some(index)));
            lemma_first_step(total, index as int, total_at(t, big_p));
        }
        if price != Some(index) && total.is_none() && is_total {
            total = Some(index);
        }
        proof {
            lemma_first_prefix(total, index + 1, n, total_at(t, big_p));
            assert((total == Some(index)) == (big_t == Some(index)));
            lemma_first_step(cost, index as int, cost_at(t, big_p, big_t));
        }
        if cost.is_none() && price != Some(index) && total != Some(index) && is_cost {
            cost = Some(index);
        }
        index += 1;
    }
    proof {
        if all_basic_cells(row@) {
            assert(lowered(row@) =~= basic_lowered(row@));
        }
        lemma_first_match(title, n, word_at(t, title_words()));
        lemma_first_match(unit, n, word_at(t, unit_words()));
        lemma_first_match(quantity, n, word_at(t, quantity_words()));
        lemma_first_match(price, n, word_at(t, price_words()));
        lemma_first_match(total, n, total_at(t, big_p));
        lemma_first_match(cost, n, cost_at(t, big_p, big_t));
    }
    match (total, cost) {
        (None, Some(c)) => total = Some(c),
        (Some(_), Some(c)) => {
            if price.is_none() {
                price = Some(c);
            }
        },
        _ => {},
    }
    Columns { header_row, title, unit, quantity, price, total }
}

/// Row `i` has known words in at least two different columns.
pub open spec fn header_found<N>(rows: Seq<Seq<Cell<N>>>) -> spec_fn(int) -> bool {
    |i: int|
        distinct_count(header_columns(lowered(rows[i]), i as usize).slots())
            >= MIN_MATCHED_COLUMNS
}

/// The header of the table among its first rows: the first row whose known
/// words meet in at least two different columns.
pub open spec fn header_at<N>(rows: Seq<Seq<Cell<N>>>) -> Option<Columns> {
    let n = if rows.len() < SEARCH_ROWS {
        rows.len() as int
    } else {
        SEARCH_ROWS as int
    };
    let found = first_match(n, header_found(rows), 0);
    match found {
        Some(i) => Some(header_columns(lowered(rows[i as int]), i)),
        None => None,
    }
}

/// Find the header of the table.
pub fn find<N>(rows: &[Vec<Cell<N>>]) -> (r: Option<Columns>)
    ensures
        r == header_at(rows@.map_values(|row: Vec<Cell<N>>| row@)),
{
    let ghost views = rows@.map_values(|row: Vec<Cell<N>>| row@);
    let n = if rows.len() < SEARCH_ROWS {
        rows.len()
    } else {
        SEARCH_ROWS
    };
    let ghost p = header_found(views);
    let mut index: usize = 0;
    while index < n
        invariant
            index <= n <= rows@.len(),
            n == if rows@.len() < SEARCH_ROWS {
                rows@.len() as int
            } else {
                SEARCH_ROWS as int
            },
            views == rows@.map_values(|row: Vec<Cell<N>>| row@),
            p == header_found(views),
            forall|j: int| 0 <= j < index ==> !#[trigger] p(j),
        decreases n - index,
    {
        let columns = columns_of(index, rows[index].as_slice());
        assert(views[index as int] == rows@[index as int]@);
        if columns.matched_columns() >= MIN_MATCHED_COLUMNS {
            proof {
                assert(is_first(Some(index), n as int, p));
                lemma_first_match(Some(index), n as int, p);
            }
            return Some(columns);
        }
        index += 1;
    }
    proof {
        assert(is_first(None, n as int, p));
        lemma_first_match(None, n as int, p);
    }
    None
}

} // verus!
