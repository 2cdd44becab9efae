//! The compact JSON text of strings, numbers and lists of string lists, the
//! pieces of a Nostr event's id commitment.
use vstd::prelude::*;
use crate::hexcode::hex_char;

verus! {

/// How `serde_json` writes one character inside a string literal.
pub open spec fn json_escape_char(c: char) -> Seq<char> {
    if c == '"' {
        seq!['\\', '"']
    } else if c == '\\' {
        seq!['\\', '\\']
    } else if c == '\u{8}' {
        seq!['\\', 'b']
    } else if c == '\u{c}' {
        seq!['\\', 'f']
    } else if c == '\n' {
        seq!['\\', 'n']
    } else if c == '\r' {
        seq!['\\', 'r']
    } else if c == '\t' {
        seq!['\\', 't']
    } else if (c as u32) < 0x20 {
        seq!['\\', 'u', '0', '0', hex_char((c as u32) as int / 16), hex_char((c as u32) as int % 16)]
    } else {
        seq![c]
    }
}

/// The escaped contents of a string literal.
pub open spec fn json_escape(s: Seq<char>) -> Seq<char>
    decreases s.len(),
{
    if s.len() == 0 {
        seq![]
    } else {
        json_escape_char(s[0]) + json_escape(s.drop_first())
    }
}

/// A JSON string literal.
pub open spec fn json_quoted(s: Seq<char>) -> Seq<char> {
    seq!['"'] + json_escape(s) + seq!['"']
}

/// The decimal digit of `d < 10`.
pub open spec fn digit_char(d: nat) -> char {
    hex_char(d as int)
}

/// The decimal text of a natural number, without leading zeros.
pub open spec fn decimal(n: nat) -> Seq<char>
    decreases n,
{
    if n < 10 {
        seq![digit_char(n)]
    } else {
        decimal(n / 10).push(digit_char(n % 10))
    }
}

/// The string literals of `items`, separated by commas.
pub open spec fn join_quoted(items: Seq<Seq<char>>) -> Seq<char>
    decreases items.len(),
{
    if items.len() == 0 {
        seq![]
    } else if items.len() == 1 {
        json_quoted(items[0])
    } else {
        join_quoted(items.drop_last()) + seq![','] + json_quoted(items.last())
    }
}

/// A JSON array of strings.
pub open spec fn json_string_list(items: Seq<Seq<char>>) -> Seq<char> {
    seq!['['] + join_quoted(items) + seq![']']
}

/// The string arrays of `lists`, separated by commas.
pub open spec fn join_lists(lists: Seq<Seq<Seq<char>>>) -> Seq<char>
    decreases lists.len(),
{
    if lists.len() == 0 {
        seq![]
    } else if lists.len() == 1 {
        json_string_list(lists[0])
    } else {
        join_lists(lists.drop_last()) + seq![','] + json_string_list(lists.last())
    }
}

/// A JSON array of arrays of strings (the tags of an event).
pub open spec fn json_list_of_lists(lists: Seq<Seq<Seq<char>>>) -> Seq<char> {
    seq!['['] + join_lists(lists) + seq![']']
}

/// The strings of two non-empty lists, joined, are the join of each list
/// with a comma between: every string of both lists is kept, in order.
pub proof fn lemma_join_quoted_concat(a: Seq<Seq<char>>, b: Seq<Seq<char>>)
    requires
        a.len() > 0,
        b.len() > 0,
    ensures
        join_quoted(a + b) == join_quoted(a) + seq![','] + join_quoted(b),
    decreases b.len(),
{
    if b.len() == 1 {
        assert((a + b).drop_last() =~= a);
        assert((a + b).last() == b[0]);
    } else {
        assert((a + b).drop_last() =~= a + b.drop_last());
        assert((a + b).last() == b.last());
        lemma_join_quoted_concat(a, b.drop_last());
        assert(join_quoted(a + b) =~= join_quoted(a) + seq![','] + join_quoted(b));
    }
}

/// The JSON array of strings: `[]` for no strings, `["s"]` for one, and the
/// arrays of two non-empty lists combine by a comma.
pub proof fn lemma_string_list_shape(a: Seq<Seq<char>>, b: Seq<Seq<char>>, x: Seq<char>)
    ensures
        json_string_list(Seq::empty()) == seq!['[', ']'],
        json_string_list(seq![x]) == seq!['['] + json_quoted(x) + seq![']'],
        a.len() > 0 && b.len() > 0 ==> json_string_list(a + b) == seq!['['] + join_quoted(a)
            + seq![','] + join_quoted(b) + seq![']'],
{
    assert(json_string_list(Seq::empty()) =~= seq!['[', ']']);
    if a.len() > 0 && b.len() > 0 {
        lemma_join_quoted_concat(a, b);
        assert(json_string_list(a + b) =~= seq!['['] + join_quoted(a) + seq![','] + join_quoted(b)
            + seq![']']);
    }
}

/// The arrays of two non-empty lists of lists, joined, are the join of each
/// with a comma between: every list, with every one of its strings, is kept.
pub proof fn lemma_join_lists_concat(a: Seq<Seq<Seq<char>>>, b: Seq<Seq<Seq<char>>>)
    requires
        a.len() > 0,
        b.len() > 0,
    ensures
        join_lists(a + b) == join_lists(a) + seq![','] + join_lists(b),
    decreases b.len(),
{
    if b.len() == 1 {
        assert((a + b).drop_last() =~= a);
        assert((a + b).last() == b[0]);
    } else {
        assert((a + b).drop_last() =~= a + b.drop_last());
        assert((a + b).last() == b.last());
        lemma_join_lists_concat(a, b.drop_last());
        assert(join_lists(a + b) =~= join_lists(a) + seq![','] + join_lists(b));
    }
}

/// The JSON of tags: `[]` for no tags; a single tag `l` gives `[` + the
/// whole array of `l` + `]`, every string of `l` kept; the tags of two
/// non-empty lists combine by a comma.
pub proof fn lemma_tags_json_shape(
    a: Seq<Seq<Seq<char>>>,
    b: Seq<Seq<Seq<char>>>,
    l: Seq<Seq<char>>,
)
    ensures
        json_list_of_lists(Seq::empty()) == seq!['[', ']'],
        json_list_of_lists(seq![l]) == seq!['['] + json_string_list(l) + seq![']'],
        a.len() > 0 && b.len() > 0 ==> json_list_of_lists(a + b) == seq!['['] + join_lists(a)
            + seq![','] + join_lists(b) + seq![']'],
{
    assert(json_list_of_lists(Seq::empty()) =~= seq!['[', ']']);
    if a.len() > 0 && b.len() > 0 {
        lemma_join_lists_concat(a, b);
        assert(json_list_of_lists(a + b) =~= seq!['['] + join_lists(a) + seq![','] + join_lists(b)
            + seq![']']);
    }
}

/// Escaping works character by character: the escape of two strings put
/// together is the two escapes put together.
pub proof fn lemma_escape_concat(a: Seq<char>, b: Seq<char>)
    ensures
        json_escape(a + b) == json_escape(a) + json_escape(b),
    decreases a.len(),
{
    if a.len() == 0 {
        assert(a + b =~= b);
    } else {
        assert((a + b).drop_first() =~= a.drop_first() + b);
        assert((a + b)[0] == a[0]);
        lemma_escape_concat(a.drop_first(), b);
        assert(json_escape(a + b) =~= json_escape(a) + json_escape(b));
    }
}

/// Text without quotes, backslashes or control characters is written as it
/// is.
pub proof fn lemma_plain_text_unescaped(s: Seq<char>)
    requires
        forall|i: int|
            0 <= i < s.len() ==> (#[trigger] s[i]) != '"' && s[i] != '\\' && (s[i] as u32) >= 0x20,
    ensures
        json_escape(s) == s,
        json_quoted(s) == seq!['"'] + s + seq!['"'],
    decreases s.len(),
{
    if s.len() > 0 {
        assert forall|i: int| 0 <= i < s.drop_first().len() implies (#[trigger] s.drop_first()[i]) != '"'
            && s.drop_first()[i] != '\\' && (s.drop_first()[i] as u32) >= 0x20 by {
            assert(s.drop_first()[i] == s[i + 1]);
        }
        lemma_plain_text_unescaped(s.drop_first());
        assert(s[0] != '\u{8}' && s[0] != '\u{c}' && s[0] != '\n' && s[0] != '\r' && s[0] != '\t');
        assert(json_escape(s) =~= s);
    }
}

/// A decimal digit character.
pub open spec fn is_digit_char(c: char) -> bool {
    '0' <= c && c <= '9'
}

/// The decimal text of a number is made of digits, is never empty, and
/// has no leading zero unless the number is zero.
pub proof fn lemma_decimal_digits(n: nat)
    ensures
        decimal(n).len() > 0,
        forall|i: int| 0 <= i < decimal(n).len() ==> is_digit_char(#[trigger] decimal(n)[i]),
        n >= 10 ==> decimal(n)[0] != '0',
        n < 10 <==> decimal(n).len() == 1,
    decreases n,
{
    if n >= 10 {
        lemma_decimal_digits(n / 10);
        let d = decimal(n / 10);
        assert(decimal(n) == d.push(digit_char(n % 10)));
        assert forall|i: int| 0 <= i < decimal(n).len() implies is_digit_char(#[trigger] decimal(n)[i]) by {
            if i < d.len() {
                assert(decimal(n)[i] == d[i]);
            }
        }
        if n / 10 >= 10 {
            assert(decimal(n)[0] == d[0]);
        } else {
            assert(decimal(n)[0] == digit_char(n / 10));
        }
    }
}

/// Different numbers have different decimal texts.
pub proof fn lemma_decimal_injective(a: nat, b: nat)
    requires
        decimal(a) == decimal(b),
    ensures
        a == b,
    decreases a,
{
    lemma_decimal_digits(a);
    lemma_decimal_digits(b);
    if a < 10 {
        assert(b < 10);
        assert(decimal(a)[0] == digit_char(a));
        assert(decimal(b)[0] == digit_char(b));
    } else {
        assert(b >= 10);
        let da = decimal(a / 10);
        let db = decimal(b / 10);
        assert(decimal(a).drop_last() =~= da);
        assert(decimal(b).drop_last() =~= db);
        lemma_decimal_injective(a / 10, b / 10);
        assert(decimal(a).last() == digit_char(a % 10));
        assert(decimal(b).last() == digit_char(b % 10));
        assert(a % 10 == b % 10);
    }
}

/// A number's decimal text followed by a comma can be read back: if
/// `decimal(a) + [','] + x == decimal(b) + [','] + y` then `a == b` and
/// `x == y`.
pub proof fn lemma_decimal_then_comma(a: nat, b: nat, x: Seq<char>, y: Seq<char>)
    requires
        decimal(a) + seq![','] + x == decimal(b) + seq![','] + y,
    ensures
        a == b,
        x == y,
{
    lemma_decimal_digits(a);
    lemma_decimal_digits(b);
    let da = decimal(a);
    let db = decimal(b);
    let sa = da + seq![','] + x;
    let sb = db + seq![','] + y;
    if da.len() < db.len() {
        assert(sa[da.len() as int] == ',');
        assert(sb[da.len() as int] == db[da.len() as int]);
        assert(is_digit_char(db[da.len() as int]));
        assert(false);
    } else if db.len() < da.len() {
        assert(sb[db.len() as int] == ',');
        assert(sa[db.len() as int] == da[db.len() as int]);
        assert(is_digit_char(da[db.len() as int]));
        assert(false);
    }
    assert(da =~= sa.subrange(0, da.len() as int));
    assert(db =~= sb.subrange(0, db.len() as int));
    lemma_decimal_injective(a, b);
    assert(x =~= sa.subrange(da.len() as int + 1, sa.len() as int));
    assert(y =~= sb.subrange(db.len() as int + 1, sb.len() as int));
}

/// `serde_json::to_string` of a string: the string literal with `"`, `\` and
/// the control characters escaped (short escapes where JSON has them, else
/// `\u00XX` with lowercase hex digits); nothing else is escaped.
#[verifier::external_body]
pub(crate) fn json_quote(s: &str) -> (r: String)
    ensures
        r@ == json_quoted(s@),
{
    serde_json::to_string(s).unwrap()
}

/// `serde_json::to_string` of an unsigned integer: its decimal digits.
#[verifier::external_body]
pub(crate) fn json_number(n: u64) -> (r: String)
    ensures
        r@ == decimal(n as nat),
{
    serde_json::to_string(&n).unwrap()
}

/// The compact JSON array of the given strings.
pub fn string_list_json(items: &Vec<String>) -> (r: String)
    ensures
        r@ == json_string_list(items.deep_view()),
{
    proof {
        reveal_strlit("[");
        reveal_strlit(",");
        reveal_strlit("]");
    }
    let ghost all = items.deep_view();
    let mut out = String::new();
    out.append("[");
    let n = items.len();
    for i in 0..n
        invariant
            n == items@.len(),
            all == items.deep_view(),
            out@ == seq!['['] + join_quoted(all.take(i as int)),
    {
        let q = json_quote(items[i].as_str());
        let ghost before = out@;
        proof {
            reveal_strlit(",");
        }
        assert(q@ == json_quoted(all[i as int]));
        assert(all[i as int] == items@[i as int]@);
        assert(all.take(i + 1).drop_last() =~= all.take(i as int));
        if i > 0 {
            out.append(",");
        }
        out.append(q.as_str());
        assert(i == 0 ==> out@ == before + q@);
        assert(i > 0 ==> out@ == before + seq![','] + q@);
        let ghost prefix = all.take(i + 1);
        assert(prefix.last() == all[i as int]);
        if i == 0 {
            assert(join_quoted(prefix) == json_quoted(prefix[0]));
        } else {
            assert(join_quoted(prefix) == join_quoted(prefix.drop_last()) + seq![','] + json_quoted(prefix.last()));
        }
        assert(out@ =~= seq!['['] + join_quoted(all.take(i + 1)));
    }
    assert(all.take(n as int) =~= all);
    out.append("]");
    out
}

/// The compact JSON array of arrays of the given strings.
pub fn list_of_lists_json(lists: &Vec<Vec<String>>) -> (r: String)
    ensures
        r@ == json_list_of_lists(lists.deep_view()),
{
    proof {
        reveal_strlit("[");
        reveal_strlit(",");
        reveal_strlit("]");
    }
    let ghost all = lists.deep_view();
    let mut out = String::new();
    out.append("[");
    let n = lists.len();
    for i in 0..n
        invariant
            n == lists@.len(),
            all == lists.deep_view(),
            out@ == seq!['['] + join_lists(all.take(i as int)),
    {
        let l = string_list_json(&lists[i]);
        let ghost before = out@;
        proof {
            reveal_strlit(",");
        }
        assert(l@ == json_string_list(all[i as int]));
        assert(all[i as int] == lists@[i as int].deep_view());
        assert(all.take(i + 1).drop_last() =~= all.take(i as int));
        if i > 0 {
            out.append(",");
        }
        out.append(l.as_str());
        assert(i == 0 ==> out@ == before + l@);
        assert(i > 0 ==> out@ == before + seq![','] + l@);
        let ghost prefix = all.take(i + 1);
        assert(prefix.last() == all[i as int]);
        if i == 0 {
            assert(join_lists(prefix) == json_string_list(prefix[0]));
        } else {
            assert(join_lists(prefix) == join_lists(prefix.drop_last()) + seq![','] + json_string_list(prefix.last()));
        }
        assert(out@ =~= seq!['['] + join_lists(all.take(i + 1)));
    }
    assert(all.take(n as int) =~= all);
    out.append("]");
    out
}

} // verus!
