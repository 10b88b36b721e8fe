//! Uids that no object holds yet: the texts in use, and a run of spare uids, one for
//! each number, to fall back on where a random uid is already taken.
use vstd::prelude::*;
use vstd::string::*;

use crate::kubeapi::controller::inventory::{is_lower_hex, is_uuid_v4_text};
use crate::model::DynamicObjectView;
use crate::text::str_eq;

verus! {

/// `text` is one of the strings in `texts`.
pub open spec fn holds_text(texts: Seq<String>, text: Seq<char>) -> bool {
    exists|i: int| 0 <= i < texts.len() && #[trigger] texts[i]@ == text
}

/// Every uid that an object in `objects` holds is one of the strings in `texts`.
pub open spec fn texts_cover(objects: Map<Seq<char>, DynamicObjectView>, texts: Seq<String>) -> bool {
    forall|k: Seq<char>| #[trigger]
        objects.contains_key(k) ==> (objects[k].metadata.uid matches Some(u) ==> holds_text(
            texts,
            u,
        ))
}

/// No object in `objects` holds `uid`.
pub open spec fn uid_unused(objects: Map<Seq<char>, DynamicObjectView>, uid: Seq<char>) -> bool {
    forall|k: Seq<char>| #[trigger]
        objects.contains_key(k) ==> objects[k].metadata.uid != Some(uid)
}

/// A text that is none of `texts` is the uid of no object whose uids `texts` covers.
pub proof fn lemma_uncovered_is_unused(
    objects: Map<Seq<char>, DynamicObjectView>,
    texts: Seq<String>,
    uid: Seq<char>,
)
    requires
        texts_cover(objects, texts),
        !holds_text(texts, uid),
    ensures
        uid_unused(objects, uid),
{
}

/// Covering holds on for a longer list of texts.
pub proof fn lemma_cover_grows(
    objects: Map<Seq<char>, DynamicObjectView>,
    a: Seq<String>,
    b: Seq<String>,
)
    requires
        texts_cover(objects, a),
        forall|u: Seq<char>| #[trigger] holds_text(a, u) ==> holds_text(b, u),
    ensures
        texts_cover(objects, b),
{
    assert forall|k: Seq<char>| #[trigger] objects.contains_key(k) implies (
    objects[k].metadata.uid matches Some(u) ==> holds_text(b, u)) by {
        if let Some(u) = objects[k].metadata.uid {
            assert(holds_text(a, u));
        }
    }
}

/// Whether `text` is one of the strings in `texts`.
pub fn holds_text_exec(texts: &Vec<String>, text: &str) -> (res: bool)
    ensures
        res == holds_text(texts@, text@),
{
    let n: usize = texts.len();
    let mut i: usize = 0;
    while i < n
        invariant
            n == texts@.len(),
            i <= n,
            forall|j: int| 0 <= j < i ==> #[trigger] texts@[j]@ != text@,
        decreases n - i,
    {
        if str_eq(texts[i].as_str(), text) {
            return true;
        }
        i = i + 1;
    }
    false
}

/// The lower-case hexadecimal digit of `x`, for `x` below 16.
pub open spec fn hex_digit(x: u64) -> char {
    if x == 0 {
        '0'
    } else if x == 1 {
        '1'
    } else if x == 2 {
        '2'
    } else if x == 3 {
        '3'
    } else if x == 4 {
        '4'
    } else if x == 5 {
        '5'
    } else if x == 6 {
        '6'
    } else if x == 7 {
        '7'
    } else if x == 8 {
        '8'
    } else if x == 9 {
        '9'
    } else if x == 10 {
        'a'
    } else if x == 11 {
        'b'
    } else if x == 12 {
        'c'
    } else if x == 13 {
        'd'
    } else if x == 14 {
        'e'
    } else {
        'f'
    }
}

/// Digit `i` of `j` in base 16, counted from the most significant of 16 digits.
pub open spec fn nibble(j: u64, i: int) -> u64 {
    (j >> ((60 - 4 * i) as u64)) & 15u64
}

/// `j` as 16 lower-case hexadecimal digits.
pub open spec fn hex16(j: u64) -> Seq<char> {
    Seq::new(16, |i: int| hex_digit(nibble(j, i)))
}

/// The spare uid numbered `j`: `00000000-`, four digits of `j`, `-4000-8000-`, and its
/// twelve other digits.
pub open spec fn fallback_uid(j: u64) -> Seq<char> {
    "00000000-"@ + hex16(j).subrange(0, 4) + "-4000-8000-"@ + hex16(j).subrange(4, 16)
}

/// Digits below 16 with the same character are equal.
proof fn lemma_hex_digit_injective(x: u64, y: u64)
    requires
        x < 16,
        y < 16,
        hex_digit(x) == hex_digit(y),
    ensures
        x == y,
{
    assert(x == 0 || x == 1 || x == 2 || x == 3 || x == 4 || x == 5 || x == 6 || x == 7 || x == 8
        || x == 9 || x == 10 || x == 11 || x == 12 || x == 13 || x == 14 || x == 15);
}

proof fn lemma_nibble_small(j: u64, shift: u64)
    by (bit_vector)
    ensures
        (j >> shift) & 15u64 < 16u64,
{
}

proof fn lemma_nibbles_determine(a: u64, b: u64)
    by (bit_vector)
    requires
        (a >> 60u64) & 15u64 == (b >> 60u64) & 15u64,
        (a >> 56u64) & 15u64 == (b >> 56u64) & 15u64,
        (a >> 52u64) & 15u64 == (b >> 52u64) & 15u64,
        (a >> 48u64) & 15u64 == (b >> 48u64) & 15u64,
        (a >> 44u64) & 15u64 == (b >> 44u64) & 15u64,
        (a >> 40u64) & 15u64 == (b >> 40u64) & 15u64,
        (a >> 36u64) & 15u64 == (b >> 36u64) & 15u64,
        (a >> 32u64) & 15u64 == (b >> 32u64) & 15u64,
        (a >> 28u64) & 15u64 == (b >> 28u64) & 15u64,
        (a >> 24u64) & 15u64 == (b >> 24u64) & 15u64,
        (a >> 20u64) & 15u64 == (b >> 20u64) & 15u64,
        (a >> 16u64) & 15u64 == (b >> 16u64) & 15u64,
        (a >> 12u64) & 15u64 == (b >> 12u64) & 15u64,
        (a >> 8u64) & 15u64 == (b >> 8u64) & 15u64,
        (a >> 4u64) & 15u64 == (b >> 4u64) & 15u64,
        (a >> 0u64) & 15u64 == (b >> 0u64) & 15u64,
    ensures
        a == b,
{
}

/// Two numbers with the same 16 hexadecimal digits are equal.
proof fn lemma_hex16_injective(a: u64, b: u64)
    requires
        hex16(a) == hex16(b),
    ensures
        a == b,
{
    assert forall|i: int| 0 <= i < 16 implies nibble(a, i) == nibble(b, i) by {
        assert(hex16(a)[i] == hex16(b)[i]);
        assert(hex16(a)[i] == hex_digit(nibble(a, i)));
        assert(hex16(b)[i] == hex_digit(nibble(b, i)));
        lemma_nibble_small(a, (60 - 4 * i) as u64);
        lemma_nibble_small(b, (60 - 4 * i) as u64);
        lemma_hex_digit_injective(nibble(a, i), nibble(b, i));
    }
    assert(nibble(a, 0) == nibble(b, 0));
    assert(nibble(a, 1) == nibble(b, 1));
    assert(nibble(a, 2) == nibble(b, 2));
    assert(nibble(a, 3) == nibble(b, 3));
    assert(nibble(a, 4) == nibble(b, 4));
    assert(nibble(a, 5) == nibble(b, 5));
    assert(nibble(a, 6) == nibble(b, 6));
    assert(nibble(a, 7) == nibble(b, 7));
    assert(nibble(a, 8) == nibble(b, 8));
    assert(nibble(a, 9) == nibble(b, 9));
    assert(nibble(a, 10) == nibble(b, 10));
    assert(nibble(a, 11) == nibble(b, 11));
    assert(nibble(a, 12) == nibble(b, 12));
    assert(nibble(a, 13) == nibble(b, 13));
    assert(nibble(a, 14) == nibble(b, 14));
    assert(nibble(a, 15) == nibble(b, 15));
    lemma_nibbles_determine(a, b);
}

/// Spare uids of different numbers differ.
pub proof fn lemma_fallback_uid_injective(a: u64, b: u64)
    requires
        fallback_uid(a) == fallback_uid(b),
    ensures
        a == b,
{
    reveal_strlit("00000000-");
    reveal_strlit("-4000-8000-");
    let fa = fallback_uid(a);
    let fb = fallback_uid(b);
    assert forall|i: int| 0 <= i < 16 implies hex16(a)[i] == hex16(b)[i] by {
        if i < 4 {
            assert(fa[9 + i] == hex16(a)[i]);
            assert(fb[9 + i] == hex16(b)[i]);
        } else {
            assert(fa[20 + i] == hex16(a)[i]);
            assert(fb[20 + i] == hex16(b)[i]);
        }
    }
    assert(hex16(a) =~= hex16(b));
    lemma_hex16_injective(a, b);
}

/// Every spare uid has the text form of a version 4 uuid.
pub proof fn lemma_fallback_uid_is_v4(j: u64)
    ensures
        is_uuid_v4_text(fallback_uid(j)),
{
    reveal_strlit("00000000-");
    reveal_strlit("-4000-8000-");
    let head = "00000000-"@;
    let mid = "-4000-8000-"@;
    assert(head =~= seq!['0', '0', '0', '0', '0', '0', '0', '0', '-']);
    assert(mid =~= seq!['-', '4', '0', '0', '0', '-', '8', '0', '0', '0', '-']);
    let s = fallback_uid(j);
    let h = hex16(j);
    assert(s.len() == 36);
    assert forall|i: int| 0 <= i < 16 implies is_lower_hex(#[trigger] h[i]) by {
        let d = nibble(j, i);
        assert(h[i] == hex_digit(d));
    }
    assert forall|i: int| 0 <= i < 36 implies (if i == 8 || i == 13 || i == 18 || i == 23 {
        #[trigger] s[i] == '-'
    } else {
        is_lower_hex(s[i])
    }) by {
        if i < 9 {
            assert(s[i] == head[i]);
        } else if i < 13 {
            assert(s[i] == h[i - 9]);
        } else if i < 24 {
            assert(s[i] == mid[i - 13]);
        } else {
            assert(s[i] == h[i - 20]);
        }
    }
    assert(s[14] == mid[1]);
    assert(s[19] == mid[6]);
}

/// Of the spare uids numbered `0` to `n`, where `n` texts are in use, one is not in
/// use: the last, where all the others are.
pub proof fn lemma_last_fallback_free(texts: Seq<String>)
    requires
        texts.len() <= u64::MAX,
        forall|j: u64| j < texts.len() ==> #[trigger] holds_text(texts, fallback_uid(j)),
    ensures
        !holds_text(texts, fallback_uid(texts.len() as u64)),
{
    broadcast use vstd::seq_lib::seq_to_set_is_finite;

    let n = texts.len();
    let views = texts.map_values(|s: String| s@);
    let spares = Seq::new(n + 1, |j: int| fallback_uid(j as u64));
    if holds_text(texts, fallback_uid(n as u64)) {
        assert forall|a: int, b: int|
            0 <= a < spares.len() && 0 <= b < spares.len() && a != b implies spares[a]
            != spares[b] by {
            if spares[a] == spares[b] {
                lemma_fallback_uid_injective(a as u64, b as u64);
            }
        }
        spares.unique_seq_to_set();
        assert forall|x: Seq<char>| spares.to_set().contains(x) implies views.to_set().contains(
            x,
        ) by {
            let j: int = choose|j: int| 0 <= j < spares.len() && spares[j] == x;
            let ju: u64 = j as u64;
            assert(holds_text(texts, fallback_uid(ju)));
            let i: int = choose|i: int| 0 <= i < texts.len() && #[trigger] texts[i]@ == fallback_uid(
                ju,
            );
            assert(views[i] == x);
        }
        vstd::set_lib::lemma_len_subset(spares.to_set(), views.to_set());
        views.lemma_cardinality_of_set();
    }
}

/// The hexadecimal digit of `d` as text.
fn hex_str(d: u64) -> (res: &'static str)
    requires
        d < 16,
    ensures
        res@ == seq![hex_digit(d)],
{
    proof {
        reveal_strlit("0");
        reveal_strlit("1");
        reveal_strlit("2");
        reveal_strlit("3");
        reveal_strlit("4");
        reveal_strlit("5");
        reveal_strlit("6");
        reveal_strlit("7");
        reveal_strlit("8");
        reveal_strlit("9");
        reveal_strlit("a");
        reveal_strlit("b");
        reveal_strlit("c");
        reveal_strlit("d");
        reveal_strlit("e");
        reveal_strlit("f");
    }
    let res = if d == 0 {
        "0"
    } else if d == 1 {
        "1"
    } else if d == 2 {
        "2"
    } else if d == 3 {
        "3"
    } else if d == 4 {
        "4"
    } else if d == 5 {
        "5"
    } else if d == 6 {
        "6"
    } else if d == 7 {
        "7"
    } else if d == 8 {
        "8"
    } else if d == 9 {
        "9"
    } else if d == 10 {
        "a"
    } else if d == 11 {
        "b"
    } else if d == 12 {
        "c"
    } else if d == 13 {
        "d"
    } else if d == 14 {
        "e"
    } else {
        "f"
    };
    assert(res@ =~= seq![hex_digit(d)]);
    res
}

/// `out` followed by the hexadecimal digits `from` to `to` of `j`.
fn push_hex_digits(out: String, j: u64, from: u64, to: u64) -> (res: String)
    requires
        from <= to <= 16,
    ensures
        res@ == out@ + hex16(j).subrange(from as int, to as int),
{
    let mut s = out;
    let mut i: u64 = from;
    assert(hex16(j).subrange(from as int, from as int) =~= Seq::<char>::empty());
    assert(s@ =~= out@ + hex16(j).subrange(from as int, from as int));
    while i < to
        invariant
            from <= i <= to <= 16,
            s@ == out@ + hex16(j).subrange(from as int, i as int),
        decreases to - i,
    {
        let shift: u64 = 60 - 4 * i;
        let d: u64 = (j >> shift) & 15;
        proof {
            lemma_nibble_small(j, shift);
        }
        assert(d == nibble(j, i as int));
        s = s.concat(hex_str(d));
        assert(hex16(j).subrange(from as int, i + 1) =~= hex16(j).subrange(from as int, i as int).push(
            hex_digit(d),
        ));
        assert(s@ =~= out@ + hex16(j).subrange(from as int, i + 1));
        i = i + 1;
    }
    s
}

/// The spare uid numbered `j`.
pub fn fallback_uid_exec(j: u64) -> (res: String)
    ensures
        res@ == fallback_uid(j),
{
    let head = push_hex_digits(String::from_str("00000000-"), j, 0, 4);
    let res = push_hex_digits(head.concat("-4000-8000-"), j, 4, 16);
    assert(res@ =~= fallback_uid(j));
    res
}

} // verus!
