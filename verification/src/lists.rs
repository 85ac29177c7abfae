//! The comma-separated lists given on the command line: splitting them and
//! reading their numeric entries.
use vstd::prelude::*;

use crate::numbers::all_digits;
use crate::numbers::digits_val;
use crate::numbers::digit_val;
use crate::numbers::is_digit;

verus! {

/// The pieces joined back together with a comma between neighbours.
pub open spec fn join_commas(pieces: Seq<Seq<char>>) -> Seq<char>
    decreases pieces.len(),
{
    if pieces.len() == 0 {
        Seq::<char>::empty()
    } else if pieces.len() == 1 {
        pieces[0]
    } else {
        pieces[0] + seq![','] + join_commas(pieces.drop_first())
    }
}

/// The pieces each followed by a comma.
pub open spec fn join_terminated(pieces: Seq<Seq<char>>) -> Seq<char> {
    if pieces.len() == 0 {
        Seq::<char>::empty()
    } else {
        join_commas(pieces) + seq![',']
    }
}

proof fn lemma_join_snoc(done: Seq<Seq<char>>, last: Seq<char>)
    ensures
        join_commas(done.push(last)) =~= join_terminated(done) + last,
    decreases done.len(),
{
    if done.len() == 0 {
        assert(done.push(last)[0] == last);
        assert(join_commas(done.push(last)) == last);
    } else {
        assert(done.push(last).drop_first() =~= done.drop_first().push(last));
        assert(done.push(last)[0] == done[0]);
        lemma_join_snoc(done.drop_first(), last);
        if done.len() == 1 {
            assert(join_commas(done) == done[0]);
        } else {
            assert(join_commas(done) == done[0] + seq![','] + join_commas(done.drop_first()));
        }
    }
}

/// Splits text at every comma. The pieces are exactly the comma-free runs:
/// joining them back with commas reproduces the text, and neighbouring or
/// leading/trailing commas yield empty pieces.
pub fn split_commas(s: &str) -> (r: Vec<String>)
    ensures
        r@.len() >= 1,
        join_commas(r.deep_view()) == s@,
        forall|i: int| 0 <= i < r@.len() ==> !(#[trigger] r.deep_view()[i]).contains(','),
{
    let n = s.unicode_len();
    let mut pieces: Vec<String> = Vec::new();
    let mut start: usize = 0;
    let mut i: usize = 0;
    proof {
        assert(s@.subrange(0, 0) =~= Seq::<char>::empty());
        assert(join_terminated(pieces.deep_view()) =~= Seq::<char>::empty());
    }
    while i < n
        invariant
            0 <= start <= i <= n,
            n == s@.len(),
            join_terminated(pieces.deep_view()) == s@.subrange(0, start as int),
            forall|k: int|
                0 <= k < pieces@.len() ==> !(#[trigger] pieces.deep_view()[k]).contains(','),
            forall|k: int| start <= k < i ==> s@[k] != ',',
        decreases n - i,
    {
        let c = s.get_char(i);
        if c == ',' {
            let piece = String::from_str(s.substring_char(start, i));
            let ghost prev = pieces.deep_view();
            let ghost pv = piece@;
            proof {
                assert(forall|k: int| 0 <= k < pv.len() ==> pv[k] == s@[start + k]);
                assert(!pv.contains(',')) by {
                    assert(forall|k: int| 0 <= k < pv.len() ==> #[trigger] pv[k] != ',');
                }
            }
            pieces.push(piece);
            proof {
                assert(pieces.deep_view() =~= prev.push(pv));
                lemma_join_snoc(prev, pv);
                assert(join_commas(prev.push(pv)) + seq![','] =~= s@.subrange(0, i + 1));
            }
            start = i + 1;
        }
        i = i + 1;
    }
    let piece = String::from_str(s.substring_char(start, n));
    let ghost prev = pieces.deep_view();
    let ghost pv = piece@;
    proof {
        assert(forall|k: int| 0 <= k < pv.len() ==> pv[k] == s@[start + k]);
        assert(!pv.contains(',')) by {
            assert(forall|k: int| 0 <= k < pv.len() ==> #[trigger] pv[k] != ',');
        }
    }
    pieces.push(piece);
    proof {
        assert(pieces.deep_view() =~= prev.push(pv));
        lemma_join_snoc(prev, pv);
        assert(join_terminated(prev) + pv =~= s@);
    }
    pieces
}

/// Reads a plain decimal numeral. Returns the exact value when the text is
/// one or more digits and the value fits, and nothing otherwise.
pub fn parse_u32(s: &str) -> (r: Option<u32>)
    ensures
        r is Some <==> s@.len() >= 1 && all_digits(s@) && digits_val(s@) <= u32::MAX,
        r matches Some(v) ==> v == digits_val(s@),
{
    let n = s.unicode_len();
    if n == 0 {
        return None;
    }
    let mut acc: u32 = 0;
    let mut i: usize = 0;
    proof {
        assert(s@.subrange(0, 0) =~= Seq::<char>::empty());
    }
    while i < n
        invariant
            0 <= i <= n,
            n == s@.len(),
            acc == digits_val(s@.subrange(0, i as int)),
            all_digits(s@.subrange(0, i as int)),
        decreases n - i,
    {
        let c = s.get_char(i);
        let x = c as u32;
        if x < 48 || x > 57 {
            proof {
                assert(!is_digit(s@[i as int]));
                assert(!all_digits(s@));
            }
            return None;
        }
        let d = x - 48;
        proof {
            assert(is_digit(s@[i as int]));
            assert(d == digit_val(s@[i as int]));
            assert(s@.subrange(0, i + 1).drop_last() =~= s@.subrange(0, i as int));
            assert(s@.subrange(0, i + 1).last() == s@[i as int]);
        }
        let step = match acc.checked_mul(10) {
            Some(m) => m.checked_add(d),
            None => None,
        };
        match step {
            Some(v) => {
                acc = v;
            },
            None => {
                proof {
                    crate::numbers::lemma_digits_val_prefix_le(s@, i + 1);
                }
                return None;
            },
        }
        i = i + 1;
    }
    proof {
        assert(s@.subrange(0, n as int) =~= s@);
    }
    Some(acc)
}

/// Reads every entry of a list as a decimal numeral. Returns the exact
/// values when every entry is one, and nothing as soon as any entry is not.
pub fn parse_u32_list(items: &Vec<String>) -> (r: Option<Vec<u32>>)
    ensures
        r is Some <==> (forall|i: int|
            0 <= i < items@.len() ==> {
                let t = (#[trigger] items@[i])@;
                t.len() >= 1 && all_digits(t) && digits_val(t) <= u32::MAX
            }),
        r matches Some(v) ==> {
            &&& v@.len() == items@.len()
            &&& forall|i: int| 0 <= i < items@.len() ==> v@[i] == digits_val(items@[i]@)
        },
{
    let mut out: Vec<u32> = Vec::new();
    let mut i: usize = 0;
    while i < items.len()
        invariant
            0 <= i <= items@.len(),
            out@.len() == i,
            forall|k: int|
                0 <= k < i ==> {
                    let t = (#[trigger] items@[k])@;
                    t.len() >= 1 && all_digits(t) && digits_val(t) <= u32::MAX
                },
            forall|k: int| 0 <= k < i ==> out@[k] == digits_val(items@[k]@),
        decreases items@.len() - i,
    {
        match parse_u32(items[i].as_str()) {
            Some(v) => out.push(v),
            None => {
                return None;
            },
        }
        i = i + 1;
    }
    Some(out)
}

} // verus!
