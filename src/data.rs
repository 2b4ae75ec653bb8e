//! The layout of a data file: one sample per line, an x value and a y value
//! separated by a single space.

use vstd::prelude::*;

verus! {

/// `s` holds exactly one space, at index `k`.
pub open spec fn single_space_at(s: Seq<char>, k: int) -> bool {
    &&& 0 <= k < s.len()
    &&& s[k] == ' '
    &&& forall|j: int| 0 <= j < s.len() && j != k ==> s[j] != ' '
}

/// Splits a data row into its two fields, the text before and after its one
/// space. A row with no space or with more than one has no such split.
pub fn split_row<'a>(line: &'a str) -> (r: Option<(&'a str, &'a str)>)
    ensures
        match r {
            Some((x, y)) => exists|k: int|
                #![trigger single_space_at(line@, k)]
                single_space_at(line@, k) && x@ == line@.subrange(0, k) && y@ == line@.subrange(
                    k + 1,
                    line@.len() as int,
                ),
            None => forall|k: int| !single_space_at(line@, k),
        },
{
    let n = line.unicode_len();
    let mut found: Option<usize> = None;
    let mut i: usize = 0;
    while i < n
        invariant
            n == line@.len(),
            i <= n,
            match found {
                None => forall|j: int| 0 <= j < i ==> line@[j] != ' ',
                Some(k) => {
                    &&& k < i
                    &&& line@[k as int] == ' '
                    &&& forall|j: int| 0 <= j < i && j != k ==> line@[j] != ' '
                },
            },
        decreases n - i,
    {
        if line.get_char(i) == ' ' {
            match found {
                Some(k) => {
                    assert forall|m: int| !single_space_at(line@, m) by {
                        if single_space_at(line@, m) {
                            assert(m == k as int);
                            assert(line@[i as int] == ' ');
                        }
                    }
                    return None;
                },
                None => {
                    found = Some(i);
                },
            }
        }
        i = i + 1;
    }
    match found {
        None => {
            assert forall|m: int| !single_space_at(line@, m) by {
                if single_space_at(line@, m) {
                    assert(line@[m] == ' ');
                }
            }
            None
        },
        Some(k) => {
            assert(single_space_at(line@, k as int));
            let x = line.substring_char(0, k);
            let y = line.substring_char(k + 1, n);
            Some((x, y))
        },
    }
}

} // verus!
