//! Reading the `SleepDisabled` setting out of the text that `pmset -g`
//! prints.

use vstd::prelude::*;
use crate::text::{chars_of, has_prefix, is_ws, white, split_on, split_chars};

verus! {

/// `k` is where the leading white space of `s` ends.
pub open spec fn leading_end(s: Seq<char>, k: int) -> bool {
    &&& 0 <= k <= s.len()
    &&& forall|j: int| 0 <= j < k ==> is_ws(#[trigger] s[j])
    &&& (k == s.len() || !is_ws(s[k]))
}

/// `e` is where the trailing white space of `s` begins.
pub open spec fn trailing_start(s: Seq<char>, e: int) -> bool {
    &&& 0 <= e <= s.len()
    &&& forall|j: int| e <= j < s.len() ==> is_ws(#[trigger] s[j])
    &&& (e == 0 || !is_ws(s[e - 1]))
}

/// After its leading white space, the line begins with `SleepDisabled`.
pub open spec fn names_sleep_disabled(line: Seq<char>) -> bool {
    exists|k: int|
        leading_end(line, k) && has_prefix(
            #[trigger] line.subrange(k, line.len() as int),
            "SleepDisabled"@,
        )
}

/// The last white-space-separated word of the line is `1`.
pub open spec fn last_word_is_one(line: Seq<char>) -> bool {
    exists|e: int|
        #[trigger] trailing_start(line, e) && e >= 1 && line[e - 1] == '1' && (e == 1 || is_ws(
            line[e - 2],
        ))
}

/// The reading of the first line naming `SleepDisabled`; `false` when no
/// line does.
pub open spec fn first_reading(lines: Seq<Seq<char>>) -> bool
    decreases lines.len(),
{
    if lines.len() == 0 {
        false
    } else if names_sleep_disabled(lines[0]) {
        last_word_is_one(lines[0])
    } else {
        first_reading(lines.drop_first())
    }
}

/// Whether `pmset -g` output says system sleep is disabled.
pub open spec fn sleep_disabled_reading(text: Seq<char>) -> bool {
    first_reading(split_on(text, '\n'))
}

proof fn lemma_leading_unique(s: Seq<char>, a: int, b: int)
    requires
        leading_end(s, a),
        leading_end(s, b),
    ensures
        a == b,
{
    if a < b {
        assert(is_ws(s[a]));
    } else if b < a {
        assert(is_ws(s[b]));
    }
}

proof fn lemma_trailing_unique(s: Seq<char>, a: int, b: int)
    requires
        trailing_start(s, a),
        trailing_start(s, b),
    ensures
        a == b,
{
    if a < b {
        assert(is_ws(s[b - 1]));
    } else if b < a {
        assert(is_ws(s[a - 1]));
    }
}

fn line_names_sleep_disabled(line: &Vec<char>) -> (r: bool)
    ensures
        r == names_sleep_disabled(line@),
{
    let mut k: usize = 0;
    while k < line.len() && white(line[k])
        invariant
            k <= line.len(),
            forall|j: int| 0 <= j < k ==> is_ws(#[trigger] line@[j]),
        decreases line.len() - k,
    {
        k = k + 1;
    }
    assert(leading_end(line@, k as int));
    let key = chars_of("SleepDisabled");
    if line.len() - k < key.len() {
        proof {
            if names_sleep_disabled(line@) {
                let k2 = choose|k2: int|
                    leading_end(line@, k2) && has_prefix(
                        #[trigger] line@.subrange(k2, line@.len() as int),
                        "SleepDisabled"@,
                    );
                lemma_leading_unique(line@, k as int, k2);
            }
        }
        return false;
    }
    let mut i: usize = 0;
    while i < key.len()
        invariant
            k + key.len() <= line.len(),
            key@ == "SleepDisabled"@,
            leading_end(line@, k as int),
            i <= key.len(),
            forall|j: int| 0 <= j < i ==> line@[k + j] == key@[j],
        decreases key.len() - i,
    {
        if line[k + i] != key[i] {
            proof {
                if names_sleep_disabled(line@) {
                    let k2 = choose|k2: int|
                        leading_end(line@, k2) && has_prefix(
                            #[trigger] line@.subrange(k2, line@.len() as int),
                            "SleepDisabled"@,
                        );
                    lemma_leading_unique(line@, k as int, k2);
                    assert(line@.subrange(k as int, line@.len() as int)[i as int] == line@[k + i]);
                }
            }
            return false;
        }
        i = i + 1;
    }
    assert(line@.subrange(k as int, line@.len() as int).subrange(0, key@.len() as int) =~= key@);
    assert(has_prefix(line@.subrange(k as int, line@.len() as int), "SleepDisabled"@));
    true
}

fn line_last_word_is_one(line: &Vec<char>) -> (r: bool)
    ensures
        r == last_word_is_one(line@),
{
    let mut e: usize = line.len();
    while e > 0 && white(line[e - 1])
        invariant
            e <= line.len(),
            forall|j: int| e <= j < line.len() ==> is_ws(#[trigger] line@[j]),
        decreases e,
    {
        e = e - 1;
    }
    assert(trailing_start(line@, e as int));
    let r = e >= 1 && line[e - 1] == '1' && (e == 1 || white(line[e - 2]));
    proof {
        if last_word_is_one(line@) {
            let e2 = choose|e2: int|
                #[trigger] trailing_start(line@, e2) && e2 >= 1 && line@[e2 - 1] == '1' && (e2 == 1
                    || is_ws(line@[e2 - 2]));
            lemma_trailing_unique(line@, e as int, e2);
        }
    }
    r
}

/// Whether `pmset -g` output says system sleep is disabled: the first line
/// that, after leading white space, begins with `SleepDisabled` decides,
/// by whether its last word is `1`; without such a line, it is not.
pub fn parse_sleep_disabled(text: &str) -> (r: bool)
    ensures
        r == sleep_disabled_reading(text@),
{
    let t = chars_of(text);
    let lines = split_chars(&t, '\n');
    let ghost all = split_on(t@, '\n');
    assert(all.subrange(0, all.len() as int) =~= all);
    let mut i: usize = 0;
    while i < lines.len()
        invariant
            all == split_on(text@, '\n'),
            lines@.len() == all.len(),
            forall|j: int| 0 <= j < lines@.len() ==> #[trigger] lines@[j]@ == all[j],
            i <= lines.len(),
            first_reading(all) == first_reading(all.subrange(i as int, all.len() as int)),
        decreases lines.len() - i,
    {
        let ghost rest = all.subrange(i as int, all.len() as int);
        assert(rest[0] == all[i as int]);
        assert(rest.drop_first() =~= all.subrange(i + 1, all.len() as int));
        proof {
            assert(lines@[i as int]@ == all[i as int]);
        }
        if line_names_sleep_disabled(&lines[i]) {
            let b = line_last_word_is_one(&lines[i]);
            assert(first_reading(rest) == last_word_is_one(rest[0]));
            return b;
        }
        i = i + 1;
    }
    assert(all.subrange(i as int, all.len() as int).len() == 0);
    false
}

} // verus!
