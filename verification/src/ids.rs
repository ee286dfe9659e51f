use vstd::prelude::*;

verus! {

/// The character of a decimal digit `d` (0–9).
pub open spec fn digit_char(d: nat) -> char {
    if d == 0 { '0' }
    else if d == 1 { '1' }
    else if d == 2 { '2' }
    else if d == 3 { '3' }
    else if d == 4 { '4' }
    else if d == 5 { '5' }
    else if d == 6 { '6' }
    else if d == 7 { '7' }
    else if d == 8 { '8' }
    else { '9' }
}

/// The decimal representation of `n`, without leading zeros ("0" for zero).
pub open spec fn decimal(n: nat) -> Seq<char>
    decreases n,
{
    if n < 10 {
        seq![digit_char(n)]
    } else {
        decimal(n / 10).push(digit_char(n % 10))
    }
}

/// The decimal representation of `v`, with a leading minus sign when it is
/// negative.
pub open spec fn signed_decimal(v: int) -> Seq<char> {
    if v < 0 {
        seq!['-'] + decimal((-v) as nat)
    } else {
        decimal(v as nat)
    }
}

/// The identifier made of `prefix` followed by the decimal form of `n`.
pub open spec fn id_text(prefix: Seq<char>, n: nat) -> Seq<char> {
    prefix + decimal(n)
}

/// The identifier made of `prefix`, the decimal form of `n`, an underscore
/// and the decimal form of `k`, as in "t3_12".
pub open spec fn sub_id_text(prefix: Seq<char>, n: nat, k: nat) -> Seq<char> {
    id_text(prefix, n) + seq!['_'] + decimal(k)
}

fn digit_str(d: u128) -> (s: &'static str)
    requires
        d < 10,
    ensures
        s@ == seq![digit_char(d as nat)],
{
    if d == 0 {
        proof { reveal_strlit("0"); }
        "0"
    } else if d == 1 {
        proof { reveal_strlit("1"); }
        "1"
    } else if d == 2 {
        proof { reveal_strlit("2"); }
        "2"
    } else if d == 3 {
        proof { reveal_strlit("3"); }
        "3"
    } else if d == 4 {
        proof { reveal_strlit("4"); }
        "4"
    } else if d == 5 {
        proof { reveal_strlit("5"); }
        "5"
    } else if d == 6 {
        proof { reveal_strlit("6"); }
        "6"
    } else if d == 7 {
        proof { reveal_strlit("7"); }
        "7"
    } else if d == 8 {
        proof { reveal_strlit("8"); }
        "8"
    } else {
        proof { reveal_strlit("9"); }
        "9"
    }
}

fn append_decimal(s: &mut String, n: u128)
    ensures
        final(s)@ == old(s)@ + decimal(n as nat),
    decreases n,
{
    if n >= 10 {
        append_decimal(s, n / 10);
    }
    s.append(digit_str(n % 10));
    proof {
        if n >= 10 {
            assert(decimal(n as nat) == decimal((n / 10) as nat).push(digit_char((n % 10) as nat)));
        }
    }
}

/// Appends the decimal form of `v`, signed, to `s`.
pub(crate) fn append_signed(s: &mut String, v: i128)
    ensures
        final(s)@ == old(s)@ + signed_decimal(v as int),
{
    if v < 0 {
        s.append("-");
        proof {
            reveal_strlit("-");
        }
        let magnitude: u128 = ((-(v + 1)) as u128) + 1;
        append_decimal(s, magnitude);
        proof {
            assert(seq!['-'] + decimal((-v) as nat) =~= "-"@ + decimal(magnitude as nat));
        }
        assert(s@ =~= old(s)@ + signed_decimal(v as int));
    } else {
        append_decimal(s, v as u128);
    }
}

/// Builds `prefix` followed by the decimal form of `n`, as the contracts name
/// their records ("c_7", "tr12", ...).
pub fn format_id(prefix: &str, n: u64) -> (id: String)
    ensures
        id@ == id_text(prefix@, n as nat),
{
    let mut id = prefix.to_owned();
    append_decimal(&mut id, n as u128);
    id
}

/// Builds `prefix`, the decimal form of `n`, an underscore and the decimal
/// form of `k`.
pub fn format_sub_id(prefix: &str, n: u64, k: u64) -> (id: String)
    ensures
        id@ == sub_id_text(prefix@, n as nat, k as nat),
{
    let mut id = prefix.to_owned();
    append_decimal(&mut id, n as u128);
    id.append("_");
    proof {
        reveal_strlit("_");
    }
    append_decimal(&mut id, k as u128);
    proof {
        assert(id@ =~= sub_id_text(prefix@, n as nat, k as nat));
    }
    id
}

proof fn lemma_digit_char_injective(a: nat, b: nat)
    requires
        a < 10,
        b < 10,
        digit_char(a) == digit_char(b),
    ensures
        a == b,
{
}

proof fn lemma_decimal_len(n: nat)
    ensures
        decimal(n).len() >= 1,
        n >= 10 ==> decimal(n).len() >= 2,
    decreases n,
{
    if n >= 10 {
        lemma_decimal_len(n / 10);
    }
}

/// Distinct numbers have distinct decimal forms.
pub proof fn lemma_decimal_injective(a: nat, b: nat)
    requires
        decimal(a) == decimal(b),
    ensures
        a == b,
    decreases a,
{
    lemma_decimal_len(a);
    lemma_decimal_len(b);
    if a < 10 && b < 10 {
        assert(decimal(a)[0] == digit_char(a));
        assert(decimal(b)[0] == digit_char(b));
        lemma_digit_char_injective(a, b);
    } else if a >= 10 && b >= 10 {
        lemma_decimal_len(a / 10);
        lemma_decimal_len(b / 10);
        let da = decimal(a / 10);
        let db = decimal(b / 10);
        assert(decimal(a).last() == digit_char(a % 10));
        assert(decimal(b).last() == digit_char(b % 10));
        lemma_digit_char_injective(a % 10, b % 10);
        assert(decimal(a).drop_last() =~= da);
        assert(decimal(b).drop_last() =~= db);
        lemma_decimal_injective(a / 10, b / 10);
    } else if a < 10 {
        lemma_decimal_len(b / 10);
        assert(decimal(a).len() == 1);
    } else {
        lemma_decimal_len(a / 10);
        assert(decimal(b).len() == 1);
    }
}

/// Identifiers built from one prefix and different counters never collide.
pub proof fn law_ids_unique(prefix: Seq<char>, a: nat, b: nat)
    requires
        a != b,
    ensures
        id_text(prefix, a) != id_text(prefix, b),
{
    if id_text(prefix, a) == id_text(prefix, b) {
        assert(id_text(prefix, a).subrange(prefix.len() as int, id_text(prefix, a).len() as int)
            =~= decimal(a));
        assert(id_text(prefix, b).subrange(prefix.len() as int, id_text(prefix, b).len() as int)
            =~= decimal(b));
        lemma_decimal_injective(a, b);
    }
}

/// A decimal form holds no underscore.
proof fn lemma_decimal_no_underscore(n: nat)
    ensures
        forall|i: int| 0 <= i < decimal(n).len() ==> #[trigger] decimal(n)[i] != '_',
    decreases n,
{
    if n >= 10 {
        lemma_decimal_no_underscore(n / 10);
        assert forall|i: int| 0 <= i < decimal(n).len() implies #[trigger] decimal(n)[i] != '_' by {
            if i < decimal(n / 10).len() {
                assert(decimal(n)[i] == decimal(n / 10)[i]);
            }
        }
    }
}

/// Identifiers with an underscore built from one prefix and different pairs
/// of numbers never collide.
pub proof fn law_sub_ids_unique(prefix: Seq<char>, n1: nat, k1: nat, n2: nat, k2: nat)
    requires
        n1 != n2 || k1 != k2,
    ensures
        sub_id_text(prefix, n1, k1) != sub_id_text(prefix, n2, k2),
{
    let s1 = sub_id_text(prefix, n1, k1);
    let s2 = sub_id_text(prefix, n2, k2);
    if s1 == s2 {
        let p = prefix.len() as int;
        let l1 = decimal(n1).len() as int;
        let l2 = decimal(n2).len() as int;
        lemma_decimal_len(n1);
        lemma_decimal_len(n2);
        lemma_decimal_no_underscore(n1);
        lemma_decimal_no_underscore(n2);
        lemma_decimal_len(k1);
        lemma_decimal_len(k2);
        assert(s1[p + l1] == '_');
        assert(s2[p + l2] == '_');
        if l1 < l2 {
            assert(s2[p + l1] == decimal(n2)[l1]);
        } else if l2 < l1 {
            assert(s1[p + l2] == decimal(n1)[l2]);
        }
        assert(l1 == l2);
        assert(s1.subrange(p, p + l1) =~= decimal(n1));
        assert(s2.subrange(p, p + l2) =~= decimal(n2));
        lemma_decimal_injective(n1, n2);
        assert(s1.subrange(p + l1 + 1, s1.len() as int) =~= decimal(k1));
        assert(s2.subrange(p + l2 + 1, s2.len() as int) =~= decimal(k2));
        lemma_decimal_injective(k1, k2);
    }
}

/// An identifier with an underscore never equals one without, built from the
/// same prefix.
pub proof fn law_sub_id_differs_from_id(prefix: Seq<char>, m: nat, n: nat, k: nat)
    ensures
        id_text(prefix, m) != sub_id_text(prefix, n, k),
{
    let s1 = id_text(prefix, m);
    let s2 = sub_id_text(prefix, n, k);
    if s1 == s2 {
        let p = prefix.len() as int;
        let l = decimal(n).len() as int;
        lemma_decimal_len(k);
        lemma_decimal_no_underscore(m);
        assert(s2[p + l] == '_');
        assert(s2.len() == p + l + 1 + decimal(k).len());
        assert(l < decimal(m).len());
        assert(s1[p + l] == decimal(m)[l]);
    }
}

} // verus!
