//! Collision-free download file names.
//!
//! Given the names already present in the target directory and a desired
//! file name, pick the bare name when it is free; otherwise try
//! `stem (1).ext`, `stem (2).ext`, … in order and return the first name not
//! yet present.

use vstd::prelude::*;
use vstd::string::{StrSliceExecFns, StringExecFns};

use crate::text::{push_char, str_eq};

verus! {

/// The character for a single decimal digit.
pub open spec fn digit_char(d: nat) -> char {
    if d == 0 {
        '0'
    } else if d == 1 {
        '1'
    } else if d == 2 {
        '2'
    } else if d == 3 {
        '3'
    } else if d == 4 {
        '4'
    } else if d == 5 {
        '5'
    } else if d == 6 {
        '6'
    } else if d == 7 {
        '7'
    } else if d == 8 {
        '8'
    } else {
        '9'
    }
}

/// The canonical decimal digits of `n`, most significant first.
pub open spec fn dec_rep(n: nat) -> Seq<char>
    decreases n,
{
    if n < 10 {
        seq![digit_char(n)]
    } else {
        dec_rep(n / 10).push(digit_char(n % 10))
    }
}

/// One digit renders one character; more digits render more.
proof fn lemma_dec_rep_len(n: nat)
    ensures
        dec_rep(n).len() >= 1,
        n < 10 <==> dec_rep(n).len() == 1,
    decreases n,
{
    if n >= 10 {
        lemma_dec_rep_len(n / 10);
    }
}

/// Distinct numbers render distinct digit strings.
proof fn lemma_dec_rep_injective(a: nat, b: nat)
    requires
        dec_rep(a) == dec_rep(b),
    ensures
        a == b,
    decreases a,
{
    lemma_dec_rep_len(a);
    lemma_dec_rep_len(b);
    if a < 10 && b < 10 {
        assert(dec_rep(a)[0] == digit_char(a));
        assert(dec_rep(b)[0] == digit_char(b));
    } else if a >= 10 && b >= 10 {
        assert(dec_rep(a).last() == digit_char(a % 10));
        assert(dec_rep(b).last() == digit_char(b % 10));
        assert(a % 10 == b % 10);
        assert(dec_rep(a).drop_last() =~= dec_rep(a / 10));
        assert(dec_rep(b).drop_last() =~= dec_rep(b / 10));
        lemma_dec_rep_injective(a / 10, b / 10);
        assert(a == 10 * (a / 10) + a % 10) by {
            vstd::arithmetic::div_mod::lemma_fundamental_div_mod(a as int, 10);
        }
        assert(b == 10 * (b / 10) + b % 10) by {
            vstd::arithmetic::div_mod::lemma_fundamental_div_mod(b as int, 10);
        }
    }
}

/// The character for digit `d`.
fn digit_to_char(d: u64) -> (c: char)
    requires
        d < 10,
    ensures
        c == digit_char(d as nat),
{
    if d == 0 {
        '0'
    } else if d == 1 {
        '1'
    } else if d == 2 {
        '2'
    } else if d == 3 {
        '3'
    } else if d == 4 {
        '4'
    } else if d == 5 {
        '5'
    } else if d == 6 {
        '6'
    } else if d == 7 {
        '7'
    } else if d == 8 {
        '8'
    } else {
        '9'
    }
}

/// Renders `n` in decimal.
pub fn u64_to_string(n: u64) -> (r: String)
    ensures
        r@ == dec_rep(n as nat),
    decreases n,
{
    if n < 10 {
        let mut s = String::new();
        push_char(&mut s, digit_to_char(n));
        proof {
            assert(s@ =~= seq![digit_char(n as nat)]);
        }
        s
    } else {
        let mut s = u64_to_string(n / 10);
        push_char(&mut s, digit_to_char(n % 10));
        s
    }
}

/// Position of the last dot that separates an extension: the last `.` at
/// index 1 or later.  A dot at the very start marks a hidden file, not an
/// extension.  `-1` when there is no such dot.
pub open spec fn last_ext_dot(name: Seq<char>) -> int
    decreases name.len(),
{
    if name.len() <= 1 {
        -1
    } else if name[name.len() - 1] == '.' {
        name.len() - 1
    } else {
        last_ext_dot(name.drop_last())
    }
}

/// The last extension dot, when there is one, lies strictly inside the
/// name.
proof fn lemma_last_ext_dot_in_range(name: Seq<char>)
    ensures
        last_ext_dot(name) == -1 || (1 <= last_ext_dot(name) < name.len()),
    decreases name.len(),
{
    if name.len() <= 1 {
    } else if name[name.len() - 1] == '.' {
    } else {
        lemma_last_ext_dot_in_range(name.drop_last());
    }
}

/// The part of `name` before the extension dot, or all of it.
pub open spec fn stem_of(name: Seq<char>) -> Seq<char> {
    if last_ext_dot(name) >= 0 {
        name.subrange(0, last_ext_dot(name))
    } else {
        name
    }
}

/// The part of `name` after the extension dot, or nothing.
pub open spec fn ext_of(name: Seq<char>) -> Seq<char> {
    if last_ext_dot(name) >= 0 {
        name.subrange(last_ext_dot(name) + 1, name.len() as int)
    } else {
        Seq::<char>::empty()
    }
}

/// The `k`-th numbered variant of a split name: `stem (k)` when there is no
/// extension, `stem (k).ext` otherwise.
pub open spec fn numbered_variant(stem: Seq<char>, ext: Seq<char>, k: nat) -> Seq<char> {
    if ext.len() == 0 {
        stem + " ("@ + dec_rep(k) + ")"@
    } else {
        stem + " ("@ + dec_rep(k) + ")."@ + ext
    }
}

/// The `k`-th numbered variant of a whole file name.
pub open spec fn numbered_name(name: Seq<char>, k: nat) -> Seq<char> {
    numbered_variant(stem_of(name), ext_of(name), k)
}

/// Is `name` one of the names in `existing`?
pub open spec fn name_is_taken(existing: Seq<String>, name: Seq<char>) -> bool {
    exists|i: int| 0 <= i < existing.len() && existing[i]@ == name
}

/// Distinct counters give distinct numbered variants of one split name.
proof fn lemma_numbered_variant_injective(stem: Seq<char>, ext: Seq<char>, k1: nat, k2: nat)
    requires
        numbered_variant(stem, ext, k1) == numbered_variant(stem, ext, k2),
    ensures
        k1 == k2,
{
    reveal_strlit(" (");
    reveal_strlit(")");
    reveal_strlit(").");
    let c1 = numbered_variant(stem, ext, k1);
    let c2 = numbered_variant(stem, ext, k2);
    let d1 = dec_rep(k1);
    let d2 = dec_rep(k2);
    assert(c1.len() == c2.len());
    assert(d1.len() == d2.len());
    assert(d1 =~= d2) by {
        assert forall|idx: int| 0 <= idx < d1.len() implies d1[idx] == d2[idx] by {
            assert(c1[stem.len() + 2 + idx] == d1[idx]);
            assert(c2[stem.len() + 2 + idx] == d2[idx]);
        }
    }
    lemma_dec_rep_injective(k1, k2);
}

/// There are more numbered variants with counters up to `bound` than there
/// are taken names, so one of them is free.
proof fn lemma_some_variant_free(existing: Seq<String>, stem: Seq<char>, ext: Seq<char>, bound: nat)
    requires
        bound > existing.len(),
    ensures
        exists|k: nat|
            1 <= k <= bound && !name_is_taken(existing, #[trigger] numbered_variant(stem, ext, k)),
{
    broadcast use vstd::seq_lib::seq_to_set_is_finite;

    if !(exists|k: nat|
        1 <= k <= bound && !name_is_taken(existing, #[trigger] numbered_variant(stem, ext, k))) {
        assert(forall|k: nat|
            1 <= k <= bound ==> name_is_taken(existing, #[trigger] numbered_variant(stem, ext, k)));
        let variants = Seq::new(bound, |i: int| numbered_variant(stem, ext, (i + 1) as nat));
        assert(variants.no_duplicates()) by {
            assert forall|i: int, j: int|
                0 <= i < variants.len() && 0 <= j < variants.len() && i != j implies variants[i]
                != variants[j] by {
                if variants[i] == variants[j] {
                    lemma_numbered_variant_injective(stem, ext, (i + 1) as nat, (j + 1) as nat);
                }
            }
        }
        variants.unique_seq_to_set();
        let taken_views = existing.map_values(|s: String| s@);
        assert(variants.to_set().subset_of(taken_views.to_set())) by {
            assert forall|v: Seq<char>| variants.to_set().contains(v) implies taken_views.to_set()
                .contains(v) by {
                let i = choose|i: int| 0 <= i < variants.len() && variants[i] == v;
                assert(name_is_taken(existing, numbered_variant(stem, ext, (i + 1) as nat)));
                let w = choose|w: int| 0 <= w < existing.len() && existing[w]@ == v;
                assert(taken_views[w] == v);
                assert(taken_views.contains(v));
            }
        }
        taken_views.lemma_cardinality_of_set();
        vstd::set_lib::lemma_len_subset(variants.to_set(), taken_views.to_set());
    }
}

/// Is `name` one of the strings in `existing`?
fn taken(existing: &Vec<String>, name: &str) -> (r: bool)
    ensures
        r == name_is_taken(existing@, name@),
{
    let mut i: usize = 0;
    while i < existing.len()
        invariant
            i <= existing@.len(),
            forall|j: int| 0 <= j < i ==> existing@[j]@ != name@,
        decreases existing@.len() - i,
    {
        if str_eq(existing[i].as_str(), name) {
            return true;
        }
        i += 1;
    }
    false
}

/// The position of the last extension dot, scanning from the end.
fn find_ext_dot(name: &str) -> (r: Option<usize>)
    ensures
        match r {
            Option::Some(d) => d as int == last_ext_dot(name@),
            Option::None => last_ext_dot(name@) == -1,
        },
{
    let len = name.unicode_len();
    let mut i: usize = len;
    proof {
        assert(name@.subrange(0, len as int) =~= name@);
    }
    while i > 1
        invariant
            i <= len,
            len == name@.len(),
            last_ext_dot(name@) == last_ext_dot(name@.subrange(0, i as int)),
        decreases i,
    {
        let ghost pre = name@.subrange(0, i as int);
        proof {
            assert(pre.len() == i);
            assert(pre[i - 1] == name@[i - 1]);
        }
        if name.get_char(i - 1) == '.' {
            return Option::Some(i - 1);
        }
        proof {
            assert(pre.drop_last() =~= name@.subrange(0, i - 1));
        }
        i -= 1;
    }
    proof {
        assert(name@.subrange(0, i as int).len() <= 1);
    }
    Option::None
}

/// Builds `stem (k)` or `stem (k).ext`.
fn build_numbered_variant(stem: &String, ext: &String, k: u64) -> (r: String)
    ensures
        r@ == numbered_variant(stem@, ext@, k as nat),
{
    let mut s = stem.clone();
    s.append(" (");
    let digits = u64_to_string(k);
    s.append(digits.as_str());
    if ext.as_str().is_empty() {
        s.append(")");
    } else {
        s.append(").");
        s.append(ext.as_str());
    }
    s
}

/// The part of an object key after its last slash: the name the object
/// would be saved under.  Empty when the key ends in a slash.
pub open spec fn filename_of_key(key: Seq<char>) -> Seq<char>
    decreases key.len(),
{
    if key.len() == 0 {
        Seq::<char>::empty()
    } else if key[key.len() - 1] == '/' {
        Seq::<char>::empty()
    } else {
        filename_of_key(key.drop_last()).push(key[key.len() - 1])
    }
}

/// The name the object with this key is saved under: everything after the
/// last slash.
pub fn object_filename(key: &str) -> (r: String)
    ensures
        r@ == filename_of_key(key@),
{
    let len = key.unicode_len();
    let mut i: usize = len;
    proof {
        assert(key@.subrange(0, len as int) =~= key@);
        assert(filename_of_key(key@) + key@.subrange(len as int, len as int) =~= filename_of_key(
            key@,
        ));
    }
    while i > 0
        invariant
            i <= len,
            len == key@.len(),
            filename_of_key(key@) == filename_of_key(key@.subrange(0, i as int)) + key@.subrange(
                i as int,
                len as int,
            ),
        decreases i,
    {
        let ghost head = key@.subrange(0, i as int);
        proof {
            assert(head.len() == i);
            assert(head[i - 1] == key@[i - 1]);
        }
        if key.get_char(i - 1) == '/' {
            proof {
                assert(filename_of_key(head) =~= Seq::<char>::empty());
            }
            let tail = key.substring_char(i, len);
            proof {
                assert(filename_of_key(key@) =~= tail@);
            }
            return tail.to_owned();
        }
        proof {
            assert(head.drop_last() =~= key@.subrange(0, i - 1));
            assert(filename_of_key(head) == filename_of_key(head.drop_last()).push(key@[i - 1]));
            assert(filename_of_key(head.drop_last()).push(key@[i - 1]) + key@.subrange(
                i as int,
                len as int,
            ) =~= filename_of_key(head.drop_last()) + key@.subrange(i - 1, len as int));
        }
        i -= 1;
    }
    proof {
        assert(key@.subrange(0, 0) =~= Seq::<char>::empty());
        assert(key@.subrange(0, len as int) =~= key@);
        assert(filename_of_key(key@) =~= key@);
    }
    key.to_owned()
}

/// Picks a file name not yet present in the directory: the bare `filename`
/// when it is free, else the numbered variant `stem (k).ext` with the
/// smallest counter `k >= 1` whose name is free.
pub fn create_unique_filepath(existing: &Vec<String>, filename: &str) -> (r: String)
    requires
        existing@.len() < usize::MAX,
    ensures
        !name_is_taken(existing@, r@),
        !name_is_taken(existing@, filename@) ==> r@ == filename@,
        name_is_taken(existing@, filename@) ==> exists|k: nat|
            1 <= k && r@ == numbered_name(filename@, k) && !name_is_taken(
                existing@,
                numbered_name(filename@, k),
            ) && (forall|j: nat|
                1 <= j < k ==> name_is_taken(existing@, #[trigger] numbered_name(filename@, j))),
{
    if !taken(existing, filename) {
        return filename.to_owned();
    }
    let len = filename.unicode_len();
    proof {
        lemma_last_ext_dot_in_range(filename@);
    }
    let (stem, ext): (String, String) = match find_ext_dot(filename) {
        Option::Some(d) => (
            filename.substring_char(0, d).to_owned(),
            filename.substring_char(d + 1, len).to_owned(),
        ),
        Option::None => (filename.to_owned(), String::new()),
    };
    proof {
        assert(stem@ == stem_of(filename@));
        assert(ext@ =~= ext_of(filename@));
    }
    let bound: u64 = (existing.len() as u64) + 1;
    let mut k: u64 = 1;
    loop
        invariant
            1 <= k <= bound,
            bound == existing@.len() + 1,
            stem@ == stem_of(filename@),
            ext@ == ext_of(filename@),
            existing@.len() < usize::MAX,
            name_is_taken(existing@, filename@),
            forall|j: nat|
                1 <= j < k ==> name_is_taken(existing@, #[trigger] numbered_variant(stem@, ext@, j)),
        decreases bound - k,
    {
        let candidate = build_numbered_variant(&stem, &ext, k);
        if !taken(existing, candidate.as_str()) {
            proof {
                assert(numbered_name(filename@, k as nat) == candidate@);
            }
            return candidate;
        }
        proof {
            assert(name_is_taken(existing@, numbered_variant(stem@, ext@, k as nat)));
            if k == bound {
                lemma_some_variant_free(existing@, stem@, ext@, bound as nat);
                let fk = choose|j: nat|
                    1 <= j <= bound && !name_is_taken(
                        existing@,
                        #[trigger] numbered_variant(stem@, ext@, j),
                    );
                assert(fk < bound ==> name_is_taken(existing@, numbered_variant(stem@, ext@, fk)));
                assert(false);
            }
        }
        k = k + 1;
    }
}

} // verus!
