//! Wrapping input text into rows of a given display width.

use vstd::prelude::*;

use crate::ext::{chars_of, collect_chars, display_width, measure_char_width};

verus! {

/// The rows joined back together.
pub open spec fn concat_rows(rows: Seq<Seq<char>>) -> Seq<char>
    decreases rows.len(),
{
    if rows.len() == 0 {
        Seq::empty()
    } else {
        concat_rows(rows.drop_last()) + rows.last()
    }
}

/// Splits the input into rows that fit the given display width, breaking
/// before a character that would overflow the row.  No character is lost
/// or added: the rows joined back together are exactly the input.  A
/// character wider than the whole row stands in a row of its own.
pub fn split_each(input: String, width: usize) -> (r: Vec<String>)
    requires
        1 <= width <= usize::MAX - 4,
    ensures
        concat_rows(r@.map_values(|s: String| s@)) == input@,
        r@.len() == 0 <==> input@.len() == 0,
{
    let chars = chars_of(input.as_str());
    let mut split: Vec<String> = Vec::new();
    let mut row: Vec<char> = Vec::new();
    let mut index: usize = 0;
    let n = chars.len();
    for i in 0..n
        invariant
            n == chars.len(),
            chars@ == input@,
            index <= width || index <= 3,
            concat_rows(split@.map_values(|s: String| s@)) + row@ == chars@.take(i as int),
            i > 0 ==> row@.len() > 0,
            i == 0 ==> split@.len() == 0,
    {
        let c = chars[i];
        let w = measure_char_width(c);
        if (index != 0 && index == width) || index + w > width {
            let ghost rows_pre = split@.map_values(|s: String| s@);
            split.push(collect_chars(&row));
            proof {
                assert(split@.map_values(|s: String| s@) =~= rows_pre.push(row@));
                assert(split@.map_values(|s: String| s@).drop_last() =~= rows_pre);
            }
            row.clear();
            index = 0;
        }
        row.push(c);
        index = index + w;
        proof {
            assert(chars@.take(i + 1) =~= chars@.take(i as int).push(chars@[i as int]));
            assert(concat_rows(split@.map_values(|s: String| s@)) + row@ =~= chars@.take(i + 1));
        }
    }
    proof {
        assert(chars@.take(n as int) =~= chars@);
    }
    if row.len() > 0 {
        let ghost rows_pre = split@.map_values(|s: String| s@);
        split.push(collect_chars(&row));
        proof {
            assert(split@.map_values(|s: String| s@) =~= rows_pre.push(row@));
            assert(split@.map_values(|s: String| s@).drop_last() =~= rows_pre);
        }
    } else {
        proof {
            assert(row@ =~= Seq::<char>::empty());
            assert(concat_rows(split@.map_values(|s: String| s@)) + Seq::<char>::empty()
                =~= concat_rows(split@.map_values(|s: String| s@)));
        }
    }
    proof {
        if input@.len() == 0 {
            assert(split@.map_values(|s: String| s@).len() == 0) by {
                lemma_concat_rows_len(split@.map_values(|s: String| s@));
            }
        }
        if input@.len() > 0 {
            if split@.len() == 0 {
                lemma_concat_rows_len(split@.map_values(|s: String| s@));
            }
        }
    }
    split
}

/// No rows, no characters.
proof fn lemma_concat_rows_len(rows: Seq<Seq<char>>)
    ensures
        rows.len() == 0 ==> concat_rows(rows).len() == 0,
        concat_rows(rows).len() == 0 && rows.len() > 0 ==> rows.last().len() == 0,
{
}

} // verus!
