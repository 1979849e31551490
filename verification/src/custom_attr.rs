//! Names of custom (`data-*`) attributes: the mapping from a dataset key to
//! the attribute's local name, and the rule that says which keys may be set.

use crate::names::push_char;
use vstd::prelude::*;
use vstd::string::*;

verus! {

/// The character is one of `A` to `Z`.
pub open spec fn is_ascii_uppercase(c: char) -> bool {
    'A' <= c && c <= 'Z'
}

/// The character is one of `a` to `z`.
pub open spec fn is_ascii_lowercase(c: char) -> bool {
    'a' <= c && c <= 'z'
}

/// The lowercase form of an uppercase ASCII letter.
pub open spec fn ascii_lowercase_of(c: char) -> char
    recommends
        is_ascii_uppercase(c),
{
    ((c as u8) + 32) as char
}

/// What one character of a key contributes to the attribute name: an
/// uppercase ASCII letter becomes a hyphen and its lowercase form, any other
/// character stays as it is.
pub open spec fn snake_case_char(c: char) -> Seq<char> {
    if is_ascii_uppercase(c) {
        seq!['-', ascii_lowercase_of(c)]
    } else {
        seq![c]
    }
}

/// The prefix of every custom attribute's local name, `data-`.
pub open spec fn data_prefix() -> Seq<char> {
    seq!['d', 'a', 't', 'a', '-']
}

/// The characters of `key`, each replaced by what it contributes.
pub open spec fn snake_case_chars(key: Seq<char>) -> Seq<char> {
    key.flat_map(|c: char| snake_case_char(c))
}

/// The local name of the attribute that stores the dataset key `key`.
pub open spec fn spec_to_snake_case(key: Seq<char>) -> Seq<char> {
    data_prefix() + snake_case_chars(key)
}

/// The position `i` holds the first hyphen of `key`.
pub open spec fn is_first_hyphen(key: Seq<char>, i: int) -> bool {
    &&& 0 <= i < key.len()
    &&& key[i] == '-'
    &&& forall|j: int| 0 <= j < i ==> key[j] != '-'
}

/// The key is one that may not be set: it has a hyphen, and the character
/// directly after its first hyphen is a lowercase ASCII letter.
pub open spec fn is_rejected_key(key: Seq<char>) -> bool {
    exists|i: int|
        is_first_hyphen(key, i) && i + 1 < key.len() && is_ascii_lowercase(#[trigger] key[i + 1])
}

/// No hyphen of the key is directly followed by a lowercase ASCII letter.
pub open spec fn no_hyphen_before_lowercase(key: Seq<char>) -> bool {
    forall|i: int|
        0 <= i && i + 1 < key.len() && key[i] == '-' ==> !is_ascii_lowercase(#[trigger] key[i + 1])
}

/// Appending a character to a key appends its contribution to the name.
pub proof fn lemma_snake_case_chars_push(key: Seq<char>, c: char)
    ensures
        snake_case_chars(key.push(c)) == snake_case_chars(key) + snake_case_char(c),
{
    let f = |c: char| snake_case_char(c);
    assert(key.push(c).map_values(f) =~= key.map_values(f).push(f(c)));
    key.map_values(f).lemma_flatten_push(f(c));
}

fn to_ascii_lowercase(c: char) -> (lower: char)
    requires
        is_ascii_uppercase(c),
    ensures
        lower == ascii_lowercase_of(c),
{
    let code: u8 = c as u8;
    (code + 32) as char
}

/// The local name of the attribute that stores the dataset key `name`:
/// `data-`, then the key with every uppercase ASCII letter replaced by a
/// hyphen and the letter's lowercase form.
pub fn to_snake_case(name: &str) -> (attr_name: String)
    ensures
        attr_name@ == spec_to_snake_case(name@),
{
    let mut attr_name = String::from_str("data-");
    proof {
        reveal_strlit("data-");
        assert(snake_case_chars(Seq::<char>::empty()) =~= Seq::<char>::empty()) by {
            reveal_with_fuel(Seq::flatten, 1);
        }
    }
    for ch in it: name.chars()
        invariant
            it.seq() == name@,
            attr_name@ == data_prefix() + snake_case_chars(name@.take(it.index() as int)),
    {
        proof {
            let done = name@.take(it.index() as int);
            assert(name@.take(it.index() + 1) =~= done.push(ch));
            lemma_snake_case_chars_push(done, ch);
        }
        if ch >= 'A' && ch <= 'Z' {
            push_char(&mut attr_name, '-');
            push_char(&mut attr_name, to_ascii_lowercase(ch));
        } else {
            push_char(&mut attr_name, ch);
        }
    }
    proof {
        assert(name@.take(name@.len() as int) =~= name@);
    }
    attr_name
}

/// Whether `name` is a key that may not be set: the character directly after
/// its first hyphen is a lowercase ASCII letter.
pub fn is_rejected(name: &str) -> (rejected: bool)
    ensures
        rejected == is_rejected_key(name@),
{
    let mut after_hyphen = false;
    for ch in it: name.chars()
        invariant
            it.seq() == name@,
            after_hyphen ==> it.index() > 0 && is_first_hyphen(name@, it.index() - 1),
            !after_hyphen ==> forall|j: int| 0 <= j < it.index() ==> name@[j] != '-',
    {
        if after_hyphen {
            let rejected = ch >= 'a' && ch <= 'z';
            proof {
                let h = it.index() - 1;
                if rejected {
                    assert(is_ascii_lowercase(name@[h + 1]));
                } else {
                    assert forall|i: int|
                        is_first_hyphen(name@, i) && i + 1 < name@.len() implies !is_ascii_lowercase(
                        #[trigger] name@[i + 1],
                    ) by {
                        assert(i == h);
                    }
                }
            }
            return rejected;
        }
        if ch == '-' {
            after_hyphen = true;
        }
    }
    proof {
        assert forall|i: int|
            is_first_hyphen(name@, i) && i + 1 < name@.len() implies !is_ascii_lowercase(
            #[trigger] name@[i + 1],
        ) by {
            if after_hyphen {
                assert(i == name@.len() - 1);
            }
        }
    }
    false
}

/// A key in which no hyphen is directly followed by a lowercase ASCII letter
/// may be set.
pub proof fn lemma_no_hyphen_before_lowercase_is_accepted(key: Seq<char>)
    requires
        no_hyphen_before_lowercase(key),
    ensures
        !is_rejected_key(key),
{
}

/// A key's contribution starts with that of its first character.
proof fn lemma_snake_case_chars_first(key: Seq<char>)
    requires
        key.len() > 0,
    ensures
        snake_case_chars(key) == snake_case_char(key[0]) + snake_case_chars(key.drop_first()),
{
    let f = |c: char| snake_case_char(c);
    assert(key.map_values(f).drop_first() =~= key.drop_first().map_values(f));
}

/// What holds of a key's hyphens holds of those after its first character.
proof fn lemma_tail_has_no_hyphen_before_lowercase(key: Seq<char>)
    requires
        key.len() > 0,
        no_hyphen_before_lowercase(key),
    ensures
        no_hyphen_before_lowercase(key.drop_first()),
{
    let tail = key.drop_first();
    assert forall|i: int| 0 <= i && i + 1 < tail.len() && tail[i] == '-' implies !is_ascii_lowercase(
        #[trigger] tail[i + 1],
    ) by {
        assert(tail[i + 1] == key[i + 1 + 1]);
    }
}

/// Two keys in which no hyphen is directly followed by a lowercase ASCII
/// letter, and whose characters contribute the same text, are the same key.
proof fn lemma_snake_case_chars_injective(a: Seq<char>, b: Seq<char>)
    requires
        no_hyphen_before_lowercase(a),
        no_hyphen_before_lowercase(b),
        snake_case_chars(a) == snake_case_chars(b),
    ensures
        a == b,
    decreases a.len() + b.len(),
{
    let empty = Seq::<char>::empty();
    assert(snake_case_chars(empty) =~= empty) by {
        reveal_with_fuel(Seq::flatten, 1);
    }
    if a.len() == 0 || b.len() == 0 {
        // A key that is not empty contributes at least one character.
        if a.len() > 0 {
            lemma_snake_case_chars_first(a);
        }
        if b.len() > 0 {
            lemma_snake_case_chars_first(b);
        }
    } else {
        let x = a[0];
        let y = b[0];
        let a1 = a.drop_first();
        let b1 = b.drop_first();
        lemma_snake_case_chars_first(a);
        lemma_snake_case_chars_first(b);
        let ea = snake_case_chars(a);
        let ea1 = snake_case_chars(a1);
        let eb1 = snake_case_chars(b1);
        lemma_tail_has_no_hyphen_before_lowercase(a);
        lemma_tail_has_no_hyphen_before_lowercase(b);
        if is_ascii_uppercase(x) == is_ascii_uppercase(y) {
            // Both first characters contribute texts of the same length, so
            // they are the same character, and the rests contribute the same.
            assert(x == y) by {
                if is_ascii_uppercase(x) {
                    assert(ea[1] == ascii_lowercase_of(x));
                    assert(ea[1] == ascii_lowercase_of(y));
                } else {
                    assert(ea[0] == x);
                    assert(ea[0] == y);
                }
            }
            let n = snake_case_char(x).len() as int;
            assert(ea1 =~= ea.skip(n));
            assert(eb1 =~= ea.skip(n));
            lemma_snake_case_chars_injective(a1, b1);
            assert(a =~= seq![x] + a1);
            assert(b =~= seq![y] + b1);
        } else {
            // One key starts with an uppercase letter and the other with the
            // hyphen that the letter contributes: the other key then goes on
            // with the letter's lowercase form, which it may not.
            let (u, w, w1) = if is_ascii_uppercase(x) {
                (x, b, b1)
            } else {
                (y, a, a1)
            };
            assert(ea[0] == '-');
            assert(w[0] == '-');
            assert(ea[1] == ascii_lowercase_of(u));
            assert(snake_case_chars(w1)[0] == ea[1]);
            if w1.len() > 0 {
                lemma_snake_case_chars_first(w1);
                assert(w1[0] == w[1]);
                assert(is_ascii_lowercase(w[1]));
            }
            assert(false);
        }
    }
}

/// Two keys in which no hyphen is directly followed by a lowercase ASCII
/// letter never name the same attribute: the attribute tells which key it
/// stores.
pub proof fn lemma_to_snake_case_injective(a: Seq<char>, b: Seq<char>)
    requires
        no_hyphen_before_lowercase(a),
        no_hyphen_before_lowercase(b),
        spec_to_snake_case(a) == spec_to_snake_case(b),
    ensures
        a == b,
{
    let n = data_prefix().len() as int;
    assert(snake_case_chars(a) =~= spec_to_snake_case(a).skip(n));
    assert(snake_case_chars(b) =~= spec_to_snake_case(b).skip(n));
    lemma_snake_case_chars_injective(a, b);
}

} // verus!
