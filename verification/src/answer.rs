//! Inline-query answer assembly: one result item per definition, in order,
//! each titled with the query text, bodied as `"<query> = <definition>"`, and
//! carrying an id unique within the answer (the item's position in decimal,
//! a colon, then the definition).

use vstd::prelude::*;

use crate::models::InlineQueryEvent;

verus! {

/// The decimal digit characters, as a predicate.
pub open spec fn is_dec_digit(c: char) -> bool {
    c == '0' || c == '1' || c == '2' || c == '3' || c == '4' || c == '5' || c == '6' || c == '7'
        || c == '8' || c == '9'
}

/// The digit character for one value below ten.
pub open spec fn digit_char(d: int) -> char {
    if d == 0 {
        '0'
    } else if d == 1 {
        '1'
    } else if d == 2 {
        '2'
    } else if d == 3 {
        '3'
    } else if d == 4 {
        '4'
    } else if d == 5 {
        '5'
    } else if d == 6 {
        '6'
    } else if d == 7 {
        '7'
    } else if d == 8 {
        '8'
    } else {
        '9'
    }
}

/// The usual decimal rendering of a number, most significant digit first.
pub open spec fn decimal_digits(n: nat) -> Seq<char>
    decreases n,
{
    if n < 10 {
        seq![digit_char(n as int)]
    } else {
        decimal_digits(n / 10).push(digit_char((n % 10) as int))
    }
}

/// A decimal rendering is never empty, and has at least two digits from ten
/// upwards.
pub proof fn lemma_decimal_len(n: nat)
    ensures
        decimal_digits(n).len() >= 1,
        n >= 10 ==> decimal_digits(n).len() >= 2,
    decreases n,
{
    if n >= 10 {
        lemma_decimal_len(n / 10);
    }
}

/// Every character of a decimal rendering is a digit.
pub proof fn lemma_decimal_chars(n: nat)
    ensures
        forall|k: int|
            0 <= k < decimal_digits(n).len() ==> is_dec_digit(#[trigger] decimal_digits(n)[k]),
    decreases n,
{
    if n < 10 {
        assert(decimal_digits(n)[0] == digit_char(n as int));
    } else {
        lemma_decimal_chars(n / 10);
        let pre = decimal_digits(n / 10);
        let c = digit_char((n % 10) as int);
        assert forall|k: int|
            0 <= k < decimal_digits(n).len() implies is_dec_digit(
            #[trigger] decimal_digits(n)[k],
        ) by {
            if k < pre.len() {
                assert(decimal_digits(n)[k] == pre[k]);
            } else {
                assert(decimal_digits(n)[k] == c);
            }
        }
    }
}

/// Distinct values below ten render as distinct digit characters.
pub proof fn lemma_digit_char_injective(x: int, y: int)
    requires
        0 <= x < 10,
        0 <= y < 10,
        digit_char(x) == digit_char(y),
    ensures
        x == y,
{
}

/// Distinct numbers have distinct decimal renderings.
pub proof fn lemma_decimal_injective(a: nat, b: nat)
    requires
        a != b,
    ensures
        decimal_digits(a) != decimal_digits(b),
    decreases a + b,
{
    lemma_decimal_len(a);
    lemma_decimal_len(b);
    let da = decimal_digits(a);
    let db = decimal_digits(b);
    if a < 10 && b < 10 {
        if da == db {
            assert(da[0] == db[0]);
            lemma_digit_char_injective(a as int, b as int);
            assert(false);
        }
    } else if a < 10 {
        if da == db {
            assert(da.len() == db.len());
            assert(false);
        }
    } else if b < 10 {
        if da == db {
            assert(da.len() == db.len());
            assert(false);
        }
    } else {
        if da == db {
            assert(da.last() == digit_char((a % 10) as int));
            assert(db.last() == digit_char((b % 10) as int));
            lemma_digit_char_injective((a % 10) as int, (b % 10) as int);
            assert(da.drop_last() =~= decimal_digits(a / 10));
            assert(db.drop_last() =~= decimal_digits(b / 10));
            if a / 10 == b / 10 {
                assert(a == (a / 10) * 10 + a % 10);
                assert(b == (b / 10) * 10 + b % 10);
                assert(false);
            } else {
                lemma_decimal_injective(a / 10, b / 10);
                assert(false);
            }
        }
    }
}

/// The id of the result item at one position: the position in decimal, a
/// colon, then the definition itself.
pub open spec fn id_view(k: int, def: Seq<char>) -> Seq<char>
    recommends
        k >= 0,
{
    decimal_digits(k as nat) + ":"@ + def
}

/// The body of one result item: `"<query> = <definition>"`.
pub open spec fn body_view(query_text: Seq<char>, def: Seq<char>) -> Seq<char> {
    query_text + " = "@ + def
}

/// Result-id law: items at distinct positions carry distinct ids, whatever
/// the definitions are — identical definitions included.
pub proof fn lemma_id_unique(k1: int, def1: Seq<char>, k2: int, def2: Seq<char>)
    requires
        0 <= k1,
        0 <= k2,
        k1 != k2,
    ensures
        id_view(k1, def1) != id_view(k2, def2),
{
    reveal_strlit(":");
    lemma_decimal_len(k1 as nat);
    lemma_decimal_len(k2 as nat);
    lemma_decimal_chars(k1 as nat);
    lemma_decimal_chars(k2 as nat);
    lemma_decimal_injective(k1 as nat, k2 as nat);
    let d1 = decimal_digits(k1 as nat);
    let d2 = decimal_digits(k2 as nat);
    let i1 = id_view(k1, def1);
    let i2 = id_view(k2, def2);
    if i1 == i2 {
        if d1.len() == d2.len() {
            assert forall|m: int| 0 <= m < d1.len() implies d1[m] == d2[m] by {
                assert(i1[m] == i2[m]);
                assert(i1[m] == d1[m]);
                assert(i2[m] == d2[m]);
            }
            assert(d1 =~= d2);
            assert(false);
        } else if d1.len() < d2.len() {
            let m = d1.len() as int;
            assert(i1[m] == ':');
            assert(i2[m] == d2[m]);
            assert(is_dec_digit(d2[m]));
            assert(false);
        } else {
            let m = d2.len() as int;
            assert(i2[m] == ':');
            assert(i1[m] == d1[m]);
            assert(is_dec_digit(d1[m]));
            assert(false);
        }
    }
}

/// One selectable result offered back to the user.
pub struct ResultItem {
    pub id: String,
    pub title: String,
    pub body: String,
    pub rich_text: bool,
    pub link_preview: bool,
}

/// The full answer to one inline query, keyed by the query's own id.
pub struct AnswerPayload {
    pub query_id: String,
    pub results: Vec<ResultItem>,
}

/// What the item at position `k` must look like for the given query text and
/// definition.
pub open spec fn item_matches(r: ResultItem, k: int, query_text: Seq<char>, def: Seq<char>) -> bool {
    &&& r.title@ == query_text
    &&& r.body@ == body_view(query_text, def)
    &&& r.id@ == id_view(k, def)
    &&& r.rich_text
    &&& !r.link_preview
}

/// What a whole answer must look like: the query id echoed verbatim, and one
/// item per definition, in order.
pub open spec fn answer_matches(
    p: AnswerPayload,
    query_id: Seq<char>,
    query_text: Seq<char>,
    defs: Seq<Seq<char>>,
) -> bool {
    &&& p.query_id@ == query_id
    &&& p.results@.len() == defs.len()
    &&& forall|i: int|
        0 <= i < defs.len() ==> item_matches(#[trigger] p.results@[i], i, query_text, defs[i])
}

/// Builds the answer to one inline query from the definitions looked up for
/// it: the query id echoed verbatim, one result item per definition in the
/// order given (none at all when the lookup came back empty — an empty answer
/// is still submitted), each titled with the query text, bodied as
/// `"<query> = <definition>"` with rich text on and link previews off.
pub fn build_answer(query: &InlineQueryEvent, definitions: &Vec<&str>) -> (p: AnswerPayload)
    ensures
        answer_matches(p, query.query_id@, query.query_text@, definitions.deep_view()),
{
    let ghost defs = definitions.deep_view();
    let mut results: Vec<ResultItem> = Vec::new();
    let n = definitions.len();
    let mut i: usize = 0;
    while i < n
        invariant
            i <= n,
            n == definitions@.len(),
            defs == definitions.deep_view(),
            results@.len() == i,
            forall|j: int|
                0 <= j < i ==> item_matches(#[trigger] results@[j], j, query.query_text@, defs[j]),
        decreases n - i,
    {
        let def: &str = definitions[i];
        proof {
            assert(defs[i as int] == def@);
        }
        let id = u64_decimal(i as u64).concat(":").concat(def);
        let title = String::from_str(query.query_text.as_str());
        let body = String::from_str(query.query_text.as_str()).concat(" = ").concat(def);
        proof {
            assert(id@ =~= id_view(i as int, def@));
            assert(body@ =~= body_view(query.query_text@, def@));
        }
        results.push(ResultItem { id, title, body, rich_text: true, link_preview: false });
        i = i + 1;
    }
    AnswerPayload { query_id: String::from_str(query.query_id.as_str()), results }
}

/// Result ids are unique within one answer: any well-formed answer carries
/// pairwise distinct ids, identical definitions included.
pub proof fn lemma_answer_ids_distinct(
    p: AnswerPayload,
    query_id: Seq<char>,
    query_text: Seq<char>,
    defs: Seq<Seq<char>>,
)
    requires
        answer_matches(p, query_id, query_text, defs),
    ensures
        forall|i: int, j: int|
            0 <= i < j < p.results@.len() ==> (#[trigger] p.results@[i].id@) != (
            #[trigger] p.results@[j].id@),
{
    assert forall|i: int, j: int|
        0 <= i < j < p.results@.len() implies (#[trigger] p.results@[i].id@) != (
    #[trigger] p.results@[j].id@) by {
        lemma_id_unique(i, defs[i], j, defs[j]);
    }
}

/// The single digit characters, as string slices.
fn digit_str(d: u64) -> (s: &'static str)
    requires
        d < 10,
    ensures
        s@ == seq![digit_char(d as int)],
{
    let s: &'static str = match d {
        0 => "0",
        1 => "1",
        2 => "2",
        3 => "3",
        4 => "4",
        5 => "5",
        6 => "6",
        7 => "7",
        8 => "8",
        _ => "9",
    };
    proof {
        reveal_strlit("0");
        reveal_strlit("1");
        reveal_strlit("2");
        reveal_strlit("3");
        reveal_strlit("4");
        reveal_strlit("5");
        reveal_strlit("6");
        reveal_strlit("7");
        reveal_strlit("8");
        reveal_strlit("9");
        assert(s@ =~= seq![digit_char(d as int)]);
    }
    s
}

/// Renders a number in decimal, matching `decimal_digits` exactly.
pub fn u64_decimal(n: u64) -> (s: String)
    ensures
        s@ == decimal_digits(n as nat),
    decreases n,
{
    if n < 10 {
        String::from_str(digit_str(n))
    } else {
        let mut s = u64_decimal(n / 10);
        s.append(digit_str(n % 10));
        proof {
            assert(s@ =~= decimal_digits(n as nat));
        }
        s
    }
}

} // verus!
