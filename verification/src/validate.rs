//! Validation of user input: IP address syntax and the rules for adding a
//! saved entry (non-empty trimmed name, no case-insensitive duplicate,
//! syntactically valid addresses).

use vstd::prelude::*;
use vstd::string::{StrSliceExecFns, StringExecFns};

use crate::domain::SavedDnsEntry;
use crate::text::{eq_ignore_ascii_case_str, eq_ignore_case_view, trim_str, trimmed_view};

verus! {

/// A decimal digit.
pub open spec fn is_digit_char(c: char) -> bool {
    '0' as int <= c as int && c as int <= '9' as int
}

/// The value of a decimal digit.
pub open spec fn digit_val(c: char) -> int {
    c as int - '0' as int
}

/// The numeric value of a run of decimal digits.
pub open spec fn digits_val(s: Seq<char>) -> int
    decreases s.len(),
{
    if s.len() == 0 {
        0
    } else {
        digits_val(s.drop_last()) * 10 + digit_val(s.last())
    }
}

/// A non-empty run of decimal digits whose value is at most 255.
pub open spec fn valid_octet(s: Seq<char>) -> bool {
    s.len() > 0 && (forall|i: int| 0 <= i < s.len() ==> is_digit_char(s[i])) && digits_val(s)
        <= 255
}

/// The dot-separated parts of `s`, in order; one more part than there are
/// dots, and the empty string has one empty part.
pub open spec fn split_at_dots(s: Seq<char>) -> Seq<Seq<char>>
    decreases s.len(),
{
    if s.len() == 0 {
        seq![Seq::<char>::empty()]
    } else if s[0] == '.' {
        seq![Seq::<char>::empty()] + split_at_dots(s.drop_first())
    } else {
        let rest = split_at_dots(s.drop_first());
        seq![seq![s[0]] + rest[0]] + rest.drop_first()
    }
}

proof fn lemma_split_nonempty(s: Seq<char>)
    ensures
        split_at_dots(s).len() >= 1,
    decreases s.len(),
{
    if s.len() > 0 {
        lemma_split_nonempty(s.drop_first());
    }
}

/// A string with no dot splits into the single part that is itself.
pub proof fn lemma_split_no_dot(s: Seq<char>)
    requires
        forall|i: int| 0 <= i < s.len() ==> s[i] != '.',
    ensures
        split_at_dots(s) == seq![s],
    decreases s.len(),
{
    if s.len() == 0 {
        assert(seq![Seq::<char>::empty()] =~~= seq![s]);
    } else {
        lemma_split_no_dot(s.drop_first());
        let rest = split_at_dots(s.drop_first());
        assert(rest == seq![s.drop_first()]);
        assert(seq![s[0]] + rest[0] =~= s);
        assert(rest.drop_first() =~= Seq::<Seq<char>>::empty());
        assert(seq![seq![s[0]] + rest[0]] + rest.drop_first() =~= seq![s]);
    }
}

/// Splitting at the first dot: the part before it, then the split of what
/// follows it.
pub proof fn lemma_split_at_first_dot(s: Seq<char>, k: int)
    requires
        0 <= k < s.len(),
        s[k] == '.',
        forall|i: int| 0 <= i < k ==> s[i] != '.',
    ensures
        split_at_dots(s) == seq![s.subrange(0, k)] + split_at_dots(
            s.subrange(k + 1, s.len() as int),
        ),
    decreases k,
{
    if k == 0 {
        assert(s.subrange(0, 0) =~= Seq::<char>::empty());
        assert(s.drop_first() =~= s.subrange(1, s.len() as int));
        assert(seq![Seq::<char>::empty()] + split_at_dots(s.drop_first()) =~= seq![
            s.subrange(0, 0),
        ] + split_at_dots(s.subrange(1, s.len() as int)));
    } else {
        lemma_split_at_first_dot(s.drop_first(), k - 1);
        lemma_split_nonempty(s.drop_first().subrange(k, s.drop_first().len() as int));
        let rest = split_at_dots(s.drop_first());
        assert(rest == seq![s.drop_first().subrange(0, k - 1)] + split_at_dots(
            s.drop_first().subrange(k, s.drop_first().len() as int),
        ));
        assert(s.drop_first().subrange(0, k - 1) =~= s.subrange(1, k));
        assert(s.drop_first().subrange(k, s.drop_first().len() as int) =~= s.subrange(
            k + 1,
            s.len() as int,
        ));
        assert(seq![s[0]] + rest[0] =~= s.subrange(0, k));
        assert(rest.drop_first() =~= split_at_dots(s.subrange(k + 1, s.len() as int)));
        assert(seq![seq![s[0]] + rest[0]] + rest.drop_first() =~= seq![s.subrange(0, k)]
            + split_at_dots(s.subrange(k + 1, s.len() as int)));
    }
}

/// Valid IP syntax: exactly four dot-separated parts, each a valid octet.
pub open spec fn is_valid_ip_view(s: Seq<char>) -> bool {
    split_at_dots(s).len() == 4 && (forall|i: int|
        0 <= i < 4 ==> valid_octet(#[trigger] split_at_dots(s)[i]))
}

/// Whether some saved entry's trimmed name equals `name` up to ASCII case.
/// `name` is expected to be already trimmed.
pub open spec fn name_taken(entries: Seq<SavedDnsEntry>, name: Seq<char>) -> bool {
    exists|k: int|
        0 <= k < entries.len() && eq_ignore_case_view(
            trimmed_view(#[trigger] entries[k].name@),
            name,
        )
}

/// Whether the three input fields pass validation for a new saved entry.
pub open spec fn new_entry_fields_ok(
    name: Seq<char>,
    primary: Seq<char>,
    secondary: Seq<char>,
) -> bool {
    trimmed_view(name).len() > 0 && trimmed_view(primary).len() > 0 && is_valid_ip_view(primary)
        && trimmed_view(secondary).len() > 0 && is_valid_ip_view(secondary)
}

/// The error message shown when the chosen name is already in use.
pub open spec fn duplicate_name_message(trimmed_name: Seq<char>) -> Seq<char> {
    "A DNS entry with the name '"@ + trimmed_name + "' already exists"@
}

/// The error message shown when a field fails validation.
pub open spec fn invalid_fields_message() -> Seq<char> {
    "Please enter a valid name and DNS IP addresses"@
}

/// Checks the three input fields against the current entries. A duplicate
/// (trimmed, case-insensitive) name is reported first; otherwise all three
/// fields must be valid, and the validated entry carries the trimmed fields.
pub fn validate_new_entry(
    name: &str,
    primary: &str,
    secondary: &str,
    entries: &Vec<SavedDnsEntry>,
) -> (r: Result<SavedDnsEntry, String>)
    ensures
        match r {
            Result::Ok(e) => !name_taken(entries@, trimmed_view(name@)) && new_entry_fields_ok(
                name@,
                primary@,
                secondary@,
            ) && e.name@ == trimmed_view(name@) && e.primary@ == trimmed_view(primary@)
                && e.secondary@ == trimmed_view(secondary@),
            Result::Err(m) => {
                &&& name_taken(entries@, trimmed_view(name@)) || !new_entry_fields_ok(
                    name@,
                    primary@,
                    secondary@,
                )
                &&& name_taken(entries@, trimmed_view(name@)) ==> m@ == duplicate_name_message(
                    trimmed_view(name@),
                )
                &&& !name_taken(entries@, trimmed_view(name@)) ==> m@ == invalid_fields_message()
            },
        },
{
    let name_t = trim_str(name);
    let mut taken = false;
    let mut k: usize = 0;
    while k < entries.len()
        invariant
            0 <= k <= entries@.len(),
            taken == exists|j: int|
                0 <= j < k && eq_ignore_case_view(
                    trimmed_view(#[trigger] entries@[j].name@),
                    trimmed_view(name@),
                ),
            name_t@ == trimmed_view(name@),
        decreases entries@.len() - k,
    {
        if eq_ignore_ascii_case_str(trim_str(entries[k].name.as_str()), name_t) {
            taken = true;
        }
        k = k + 1;
    }
    if taken {
        let mut m = "A DNS entry with the name '".to_owned();
        m.append(name_t);
        m.append("' already exists");
        return Err(m);
    }
    let primary_t = trim_str(primary);
    let secondary_t = trim_str(secondary);
    let name_ok = !name_t.is_empty();
    let primary_ok = !primary_t.is_empty() && is_valid_ip(primary);
    let secondary_ok = !secondary_t.is_empty() && is_valid_ip(secondary);
    if name_ok && primary_ok && secondary_ok {
        Ok(
            SavedDnsEntry {
                name: name_t.to_owned(),
                primary: primary_t.to_owned(),
                secondary: secondary_t.to_owned(),
            },
        )
    } else {
        Err("Please enter a valid name and DNS IP addresses".to_owned())
    }
}

/// Validates IP address syntax: four dot-separated octets, each a non-empty
/// run of decimal digits with value at most 255.
pub fn is_valid_ip(ip: &str) -> (r: bool)
    ensures
        r == is_valid_ip_view(ip@),
{
    let n = ip.unicode_len();
    let ghost s = ip@;
    let mut i: usize = 0;
    let mut start: usize = 0;
    let mut parts: usize = 0;
    let mut all_ok = true;
    let ghost mut done: Seq<Seq<char>> = Seq::empty();
    proof {
        assert(s.subrange(0, n as int) =~= s);
        assert(done + split_at_dots(s.subrange(0, n as int)) =~= split_at_dots(s));
    }
    while i < n
        invariant
            0 <= start <= i <= n,
            n == s.len(),
            s == ip@,
            parts == done.len(),
            parts <= i,
            forall|q: int| start <= q < i ==> s[q] != '.',
            split_at_dots(s) == done + split_at_dots(s.subrange(start as int, n as int)),
            all_ok == forall|j: int| 0 <= j < done.len() ==> valid_octet(#[trigger] done[j]),
        decreases n - i,
    {
        let c = ip.get_char(i);
        if c == '.' {
            let ok = check_octet(ip, start, i);
            let prev_ok = all_ok;
            proof {
                let t = s.subrange(start as int, n as int);
                lemma_split_at_first_dot(t, i - start);
                assert(t.subrange(0, i - start) =~= s.subrange(start as int, i as int));
                assert(t.subrange(i - start + 1, t.len() as int) =~= s.subrange(
                    i + 1,
                    n as int,
                ));
                let part = s.subrange(start as int, i as int);
                let done2 = done.push(part);
                assert(done + (seq![part] + split_at_dots(s.subrange(i + 1, n as int))) =~= done2
                    + split_at_dots(s.subrange(i + 1, n as int)));
                assert(forall|j: int| 0 <= j < done.len() ==> done2[j] == #[trigger] done[j]);
                assert(done2[done.len() as int] == part);
                if prev_ok && ok {
                    assert(forall|j: int| 0 <= j < done2.len() ==> valid_octet(
                        #[trigger] done2[j],
                    ));
                } else if !prev_ok {
                    assert(exists|j: int| 0 <= j < done.len() && !valid_octet(#[trigger] done[j]));
                    let j = choose|j: int| 0 <= j < done.len() && !valid_octet(#[trigger] done[j]);
                    assert(!valid_octet(done2[j]));
                } else {
                    assert(!valid_octet(done2[done.len() as int]));
                }
                done = done2;
            }
            all_ok = prev_ok && ok;
            parts = parts + 1;
            start = i + 1;
        }
        i = i + 1;
    }
    let last_ok = check_octet(ip, start, n);
    proof {
        let t = s.subrange(start as int, n as int);
        lemma_split_no_dot(t);
        assert(split_at_dots(s) == done + seq![t]);
        assert(split_at_dots(s).len() == parts + 1);
        assert(split_at_dots(s)[parts as int] == t);
        assert(forall|j: int| 0 <= j < done.len() ==> split_at_dots(s)[j] == #[trigger] done[j]);
    }
    let r = parts == 3 && all_ok && last_ok;
    proof {
        if r {
            assert(forall|j: int| 0 <= j < 4 ==> valid_octet(#[trigger] split_at_dots(s)[j]));
        } else if parts == 3 && split_at_dots(s).len() == 4 {
            if !all_ok {
                let j = choose|j: int|
                    0 <= j < done.len() && !valid_octet(#[trigger] done[j]);
                assert(!valid_octet(split_at_dots(s)[j]));
            }
        }
    }
    r
}

/// Checks that the characters of `s` in `[start, end)` form a valid octet.
spec fn octet_acc_ok(p: Seq<char>, val: u32) -> bool {
    (val as int == digits_val(p) && val <= 255) || (val == 256 && digits_val(p) > 255)
}

fn check_octet(s: &str, start: usize, end: usize) -> (r: bool)
    requires
        start <= end <= s@.len(),
    ensures
        r == valid_octet(s@.subrange(start as int, end as int)),
{
    if start == end {
        return false;
    }
    let mut i: usize = start;
    let mut val: u32 = 0;
    while i < end
        invariant
            start <= i <= end <= s@.len(),
            forall|q: int| start <= q < i ==> is_digit_char(s@[q]),
            octet_acc_ok(s@.subrange(start as int, i as int), val),
        decreases end - i,
    {
        let c = s.get_char(i);
        let u = c as u32;
        if u < '0' as u32 || u > '9' as u32 {
            proof {
                assert(!is_digit_char(s@[i as int]));
                assert(s@.subrange(start as int, end as int)[i - start] == s@[i as int]);
            }
            return false;
        }
        let d = u - '0' as u32;
        proof {
            let p = s@.subrange(start as int, i as int);
            let p2 = s@.subrange(start as int, i + 1);
            assert(p2.drop_last() =~= p);
            assert(p2.last() == s@[i as int]);
            assert(digits_val(p2) == digits_val(p) * 10
                + digit_val(s@[i as int]));
        }
        if val == 256 {
            // stays saturated
        } else if val * 10 + d > 255 {
            val = 256;
        } else {
            val = val * 10 + d;
        }
        i = i + 1;
    }
    val <= 255
}

} // verus!
