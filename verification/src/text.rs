//! Small text helpers shared by the widget and URL-building code: a couple
//! of contracts for `String` editing methods that `vstd` does not cover, a
//! verified decimal formatter, and a verified string join.

use vstd::prelude::*;
use vstd::string::StringExecFns;

verus! {

/// Relies on `alloc::string::String::push`: appends one character to the
/// end of the string.
pub assume_specification[ std::string::String::push ](s: &mut String, c: char)
    ensures
        final(s)@ == old(s)@.push(c),
;

/// Relies on `alloc::string::String::pop`: removes and returns the last
/// character, or returns `None` and leaves the string alone when it is
/// empty.
pub assume_specification[ std::string::String::pop ](s: &mut String) -> (r: Option<char>)
    ensures
        old(s)@.len() == 0 ==> r is None && final(s)@ == old(s)@,
        old(s)@.len() > 0 ==> r == Some(old(s)@.last()) && final(s)@ == old(s)@.drop_last(),
;

/// The decimal digit character for a value below ten.
pub open spec fn dec_digit(d: nat) -> char {
    ((48 + d) as u32) as char
}

/// The decimal rendering of a natural number, most significant digit first.
pub open spec fn dec_str(n: nat) -> Seq<char>
    decreases n,
{
    if n < 10 {
        seq![dec_digit(n)]
    } else {
        dec_str(n / 10).push(dec_digit(n % 10))
    }
}

/// A sequence reversed: element `i` of the result is element `len - 1 - i`
/// of the input.
pub open spec fn rev_chars(s: Seq<char>) -> Seq<char> {
    Seq::new(s.len(), |i: int| s[s.len() - 1 - i])
}

proof fn lemma_rev_push(s: Seq<char>, c: char)
    ensures
        rev_chars(s.push(c)) == seq![c] + rev_chars(s),
{
    assert(rev_chars(s.push(c)) =~= seq![c] + rev_chars(s));
}

/// Renders `x` in decimal.
pub fn u32_to_string(x: u32) -> (r: String)
    ensures
        r@ == dec_str(x as nat),
{
    let mut digits: Vec<char> = Vec::new();
    let mut n: u32 = x;
    if n == 0 {
        let mut r = String::new();
        r.push('0');
        assert(r@ =~= dec_str(0));
        return r;
    }
    assert(dec_str(x as nat) =~= dec_str(n as nat) + rev_chars(digits@));
    loop
        invariant_except_break
            n > 0,
            dec_str(x as nat) == dec_str(n as nat) + rev_chars(digits@),
        ensures
            dec_str(x as nat) == rev_chars(digits@),
        decreases n,
    {
        let d: u32 = n % 10;
        let c: char = (48u8 + d as u8) as char;
        assert(c == dec_digit((n % 10) as nat));
        proof {
            lemma_rev_push(digits@, c);
            if n >= 10 {
                assert(dec_str(n as nat) == dec_str((n / 10) as nat).push(dec_digit(
                    (n % 10) as nat,
                )));
                assert(dec_str((n / 10) as nat) + (seq![c] + rev_chars(digits@)) =~= (dec_str(
                    (n / 10) as nat,
                ).push(c)) + rev_chars(digits@));
            } else {
                assert(dec_str(n as nat) == seq![dec_digit(n as nat)]);
                assert(seq![c] + rev_chars(digits@) =~= dec_str(n as nat) + rev_chars(digits@));
            }
        }
        digits.push(c);
        n = n / 10;
        if n == 0 {
            break;
        }
    }
    let ghost target = dec_str(x as nat);
    assert(target == rev_chars(digits@));
    assert(target.len() == digits@.len());
    let mut r = String::new();
    let len = digits.len();
    let mut j: usize = 0;
    while j < len
        invariant
            len == digits@.len(),
            len == target.len(),
            target == rev_chars(digits@),
            j <= len,
            r@ == target.take(j as int),
        decreases len - j,
    {
        let c = digits[len - 1 - j];
        assert(c == target[j as int]);
        r.push(c);
        assert(r@ =~= target.take(j as int + 1));
        j = j + 1;
    }
    assert(r@ =~= target);
    r
}

/// Duplicates a string vector, element by element.
pub fn clone_string_vec(v: &Vec<String>) -> (r: Vec<String>)
    ensures
        r@ == v@,
{
    let mut r: Vec<String> = Vec::new();
    let mut i: usize = 0;
    while i < v.len()
        invariant
            i <= v@.len(),
            r@ == v@.take(i as int),
        decreases v@.len() - i,
    {
        r.push(v[i].clone());
        assert(r@ =~= v@.take(i as int + 1));
        i = i + 1;
    }
    assert(v@.take(v@.len() as int) =~= v@);
    r
}

/// Duplicates an optional string.
pub fn clone_opt_string(o: &Option<String>) -> (r: Option<String>)
    ensures
        r == *o,
{
    match o {
        Some(s) => Some(s.clone()),
        None => None,
    }
}

/// Duplicates an optional string vector, element by element.
pub fn clone_opt_string_vec(o: &Option<Vec<String>>) -> (r: Option<Vec<String>>)
    ensures
        match *o {
            Option::Some(v) => r matches Some(v2) && v2@ == v@,
            Option::None => r is None,
        },
{
    match o {
        Some(v) => Some(clone_string_vec(v)),
        None => None,
    }
}

/// The string behind an optional value, or the empty string.
pub fn opt_or_empty(o: &Option<String>) -> (r: String)
    ensures
        r@ == (match *o {
            Option::Some(s) => s@,
            Option::None => Seq::<char>::empty(),
        }),
{
    match o {
        Some(s) => s.clone(),
        None => String::new(),
    }
}

/// The parts joined with `sep` between neighbours.
pub open spec fn join_with(parts: Seq<Seq<char>>, sep: Seq<char>) -> Seq<char>
    decreases parts.len(),
{
    if parts.len() == 0 {
        Seq::empty()
    } else if parts.len() == 1 {
        parts[0]
    } else {
        join_with(parts.drop_last(), sep) + sep + parts.last()
    }
}

/// The views of a sequence of strings.
pub open spec fn seq_views(ss: Seq<String>) -> Seq<Seq<char>> {
    ss.map_values(|s: String| s@)
}

/// Joins the strings with the separator between neighbours.
pub fn join_strings(parts: &Vec<String>, sep: &str) -> (r: String)
    ensures
        r@ == join_with(seq_views(parts@), sep@),
{
    let mut r = String::new();
    let mut i: usize = 0;
    while i < parts.len()
        invariant
            i <= parts@.len(),
            r@ == join_with(seq_views(parts@).take(i as int), sep@),
        decreases parts@.len() - i,
    {
        if i > 0 {
            r.append(sep);
        }
        r.append(parts[i].as_str());
        proof {
            let vs = seq_views(parts@);
            assert(vs.take(i as int + 1).drop_last() =~= vs.take(i as int));
            assert(vs.take(i as int + 1).last() == parts@[i as int]@);
            if i == 0 {
                assert(r@ =~= join_with(vs.take(i as int + 1), sep@));
            } else {
                assert(join_with(vs.take(i as int + 1), sep@) == join_with(
                    vs.take(i as int),
                    sep@,
                ) + sep@ + parts@[i as int]@);
            }
        }
        i = i + 1;
    }
    proof {
        assert(seq_views(parts@).take(parts@.len() as int) =~= seq_views(parts@));
    }
    r
}

} // verus!
