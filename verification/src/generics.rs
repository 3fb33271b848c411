//! Extension of a generic-parameter list: synthesizing fresh, non-colliding
//! lifetime parameters and appending extra trait-bound predicates.
//!
//! Fresh lifetime names are derived deterministically from a counter scoped
//! to one generation pass; a name already taken by the wrapper type's own
//! parameters is skipped.

use vstd::prelude::*;
use vstd::string::StringExecFns;

use crate::props::Generics;
use crate::text::{spec_decimal, spec_digit, decimal, str_eq};

verus! {

/// The lifetime name derived from the given counter.
pub open spec fn spec_lifetime_name(c: nat) -> Seq<char> {
    "'__"@ + spec_decimal(c)
}

/// Renders the lifetime name derived from the given counter.
pub fn lifetime_name(c: u64) -> (r: String)
    ensures
        r@ == spec_lifetime_name(c as nat),
{
    let mut r = String::from_str("'__");
    r.append(decimal(c).as_str());
    r
}

proof fn lemma_digit_len(d: nat)
    ensures
        spec_digit(d).len() == 1,
{
    reveal_strlit("0");
    reveal_strlit("1");
    reveal_strlit("2");
    reveal_strlit("3");
    reveal_strlit("4");
    reveal_strlit("5");
    reveal_strlit("6");
    reveal_strlit("7");
    reveal_strlit("8");
    reveal_strlit("9");
}

proof fn lemma_digit_concrete()
    ensures
        spec_digit(0) == seq!['0'],
        spec_digit(1) == seq!['1'],
        spec_digit(2) == seq!['2'],
        spec_digit(3) == seq!['3'],
        spec_digit(4) == seq!['4'],
        spec_digit(5) == seq!['5'],
        spec_digit(6) == seq!['6'],
        spec_digit(7) == seq!['7'],
        spec_digit(8) == seq!['8'],
        spec_digit(9) == seq!['9'],
        spec_digit(0)[0] == '0',
        spec_digit(1)[0] == '1',
        spec_digit(2)[0] == '2',
        spec_digit(3)[0] == '3',
        spec_digit(4)[0] == '4',
        spec_digit(5)[0] == '5',
        spec_digit(6)[0] == '6',
        spec_digit(7)[0] == '7',
        spec_digit(8)[0] == '8',
        spec_digit(9)[0] == '9',
{
    reveal_strlit("0");
    reveal_strlit("1");
    reveal_strlit("2");
    reveal_strlit("3");
    reveal_strlit("4");
    reveal_strlit("5");
    reveal_strlit("6");
    reveal_strlit("7");
    reveal_strlit("8");
    reveal_strlit("9");
    assert(spec_digit(0) =~= seq!['0']);
    assert(spec_digit(1) =~= seq!['1']);
    assert(spec_digit(2) =~= seq!['2']);
    assert(spec_digit(3) =~= seq!['3']);
    assert(spec_digit(4) =~= seq!['4']);
    assert(spec_digit(5) =~= seq!['5']);
    assert(spec_digit(6) =~= seq!['6']);
    assert(spec_digit(7) =~= seq!['7']);
    assert(spec_digit(8) =~= seq!['8']);
    assert(spec_digit(9) =~= seq!['9']);
    assert(seq!['0'][0] == '0');
    assert(seq!['1'][0] == '1');
    assert(seq!['2'][0] == '2');
    assert(seq!['3'][0] == '3');
    assert(seq!['4'][0] == '4');
    assert(seq!['5'][0] == '5');
    assert(seq!['6'][0] == '6');
    assert(seq!['7'][0] == '7');
    assert(seq!['8'][0] == '8');
    assert(seq!['9'][0] == '9');
}

proof fn lemma_digit_injective(a: nat, b: nat)
    requires
        a < 10,
        b < 10,
        spec_digit(a) == spec_digit(b),
    ensures
        a == b,
{
    lemma_digit_concrete();
    if a != b {
        assert(spec_digit(a)[0] == spec_digit(b)[0]);
        assert(spec_digit(a)[0] == spec_digit(a)[0]);
        if a == 0 {
        } else if a == 1 {
        } else if a == 2 {
        } else if a == 3 {
        } else if a == 4 {
        } else if a == 5 {
        } else if a == 6 {
        } else if a == 7 {
        } else if a == 8 {
        }
        assert(false);
    }
}

proof fn lemma_decimal_len(n: nat)
    ensures
        spec_decimal(n).len() >= 1,
        n >= 10 ==> spec_decimal(n).len() >= 2,
    decreases n,
{
    lemma_digit_len(n % 10);
    if n < 10 {
        lemma_digit_len(n);
    } else {
        lemma_decimal_len(n / 10);
    }
}

/// Two distinct numbers render to distinct decimal texts.
proof fn lemma_decimal_injective(a: nat, b: nat)
    requires
        spec_decimal(a) == spec_decimal(b),
    ensures
        a == b,
    decreases a + b,
{
    if a < 10 && b < 10 {
        lemma_digit_injective(a, b);
    } else if a < 10 {
        lemma_digit_len(a);
        lemma_decimal_len(b);
        assert(false);
    } else if b < 10 {
        lemma_digit_len(b);
        lemma_decimal_len(a);
        assert(false);
    } else {
        let xa = spec_decimal(a / 10);
        let sa = spec_digit(a % 10);
        let xb = spec_decimal(b / 10);
        let sb = spec_digit(b % 10);
        lemma_digit_len(a % 10);
        lemma_digit_len(b % 10);
        assert(spec_decimal(a) == xa + sa);
        assert(spec_decimal(b) == xb + sb);
        assert((xa + sa).len() == xa.len() + 1);
        assert((xb + sb).len() == xb.len() + 1);
        assert(xa.len() == xb.len());
        assert(sa =~= (xa + sa).subrange(xa.len() as int, (xa + sa).len() as int));
        assert(sb =~= (xb + sb).subrange(xb.len() as int, (xb + sb).len() as int));
        lemma_digit_injective(a % 10, b % 10);
        assert(xa =~= (xa + sa).subrange(0, xa.len() as int));
        assert(xb =~= (xb + sb).subrange(0, xb.len() as int));
        lemma_decimal_injective(a / 10, b / 10);
        vstd::arithmetic::div_mod::lemma_fundamental_div_mod(a as int, 10);
        vstd::arithmetic::div_mod::lemma_fundamental_div_mod(b as int, 10);
    }
}

/// Two distinct counters derive distinct lifetime names.
proof fn lemma_lifetime_name_injective(a: nat, b: nat)
    requires
        spec_lifetime_name(a) == spec_lifetime_name(b),
    ensures
        a == b,
{
    let p = "'__"@;
    assert(spec_decimal(a) =~= (p + spec_decimal(a)).subrange(
        p.len() as int,
        (p + spec_decimal(a)).len() as int,
    ));
    assert(spec_decimal(b) =~= (p + spec_decimal(b)).subrange(
        p.len() as int,
        (p + spec_decimal(b)).len() as int,
    ));
    lemma_decimal_injective(a, b);
}

/// The names produced by scanning counters upward from `c`, skipping names
/// among `existing`, until `n` fresh names are found or the fuel runs out.
pub open spec fn spec_fresh_scan(existing: Seq<Seq<char>>, n: nat, c: nat, fuel: nat) -> Seq<
    Seq<char>,
>
    decreases fuel,
{
    if fuel == 0 || n == 0 {
        Seq::empty()
    } else if existing.contains(spec_lifetime_name(c)) {
        spec_fresh_scan(existing, n, (c + 1) as nat, (fuel - 1) as nat)
    } else {
        seq![spec_lifetime_name(c)] + spec_fresh_scan(
            existing,
            (n - 1) as nat,
            (c + 1) as nat,
            (fuel - 1) as nat,
        )
    }
}

/// The `n` fresh lifetime names synthesized against the given existing
/// names.
pub open spec fn spec_fresh_lifetimes(existing: Seq<Seq<char>>, n: nat) -> Seq<Seq<char>> {
    spec_fresh_scan(existing, n, 0, (existing.len() + n + 1) as nat)
}

/// Synthesizes `num_lifetimes` fresh lifetime parameters and appends
/// `extra_preds` to the where-clause predicates. The fresh names are
/// pairwise distinct and collide with no existing lifetime parameter; they
/// are returned alongside the extended list, appended in order.
pub fn extend_generics(generics: &Generics, num_lifetimes: usize, extra_preds: &Vec<String>) -> (r:
    (Generics, Vec<String>))
    requires
        generics.lifetimes@.len() + num_lifetimes < usize::MAX,
    ensures
        r.0.lifetimes@ == generics.lifetimes@ + r.1@,
        r.0.type_params@ == generics.type_params@,
        r.0.predicates@ == generics.predicates@ + extra_preds@,
        r.1@.len() == num_lifetimes,
        crate::props::seq_views(r.1@) == spec_fresh_lifetimes(
            crate::props::seq_views(generics.lifetimes@),
            num_lifetimes as nat,
        ),
        forall|i: int, j: int|
            0 <= i < r.1@.len() && 0 <= j < generics.lifetimes@.len() ==> r.1@[i]@
                != generics.lifetimes@[j]@,
        forall|i: int, j: int| 0 <= i < j < r.1@.len() ==> r.1@[i]@ != r.1@[j]@,
{
    let existing = &generics.lifetimes;
    let l = existing.len();
    let bound = l + num_lifetimes;
    let mut fresh: Vec<String> = Vec::new();
    let ghost mut fcs: Seq<int> = Seq::empty();
    let ghost mut cols: Seq<int> = Seq::empty();
    let ghost mut idxs: Seq<int> = Seq::empty();
    let mut c: usize = 0;
    while c <= bound && fresh.len() < num_lifetimes
        invariant
            l == existing@.len(),
            bound == l + num_lifetimes,
            bound < usize::MAX,
            c <= bound + 1,
            fresh@.len() <= num_lifetimes,
            fcs.len() == fresh@.len(),
            fresh@.len() + cols.len() == c,
            idxs.len() == cols.len(),
            forall|k: int| 0 <= k < fcs.len() ==> 0 <= #[trigger] fcs[k] < c,
            forall|k1: int, k2: int| 0 <= k1 < k2 < fcs.len() ==> fcs[k1] < fcs[k2],
            forall|k: int|
                0 <= k < fcs.len() ==> (#[trigger] fresh@[k])@ == spec_lifetime_name(
                    fcs[k] as nat,
                ),
            forall|i: int, j: int|
                0 <= i < fresh@.len() && 0 <= j < l ==> (#[trigger] fresh@[i])@ != (
                #[trigger] existing@[j])@,
            crate::props::seq_views(fresh@) + spec_fresh_scan(
                crate::props::seq_views(existing@),
                (num_lifetimes - fresh@.len()) as nat,
                c as nat,
                (bound + 1 - c) as nat,
            ) == spec_fresh_lifetimes(
                crate::props::seq_views(existing@),
                num_lifetimes as nat,
            ),
            forall|k: int| 0 <= k < cols.len() ==> 0 <= #[trigger] cols[k] < c,
            forall|k1: int, k2: int| 0 <= k1 < k2 < cols.len() ==> cols[k1] < cols[k2],
            forall|k: int| 0 <= k < idxs.len() ==> 0 <= #[trigger] idxs[k] < l,
            forall|k: int|
                0 <= k < cols.len() ==> (#[trigger] existing@[idxs[k]])@ == spec_lifetime_name(
                    cols[k] as nat,
                ),
            idxs.no_duplicates(),
        decreases bound + 1 - c,
    {
        let name = lifetime_name(c as u64);
        let mut collides = false;
        let mut hit: usize = 0;
        let mut j: usize = 0;
        while j < l && !collides
            invariant
                l == existing@.len(),
                j <= l,
                name@ == spec_lifetime_name(c as nat),
                collides ==> hit < l && existing@[hit as int]@ == name@,
                !collides ==> forall|j2: int| 0 <= j2 < j ==> (#[trigger] existing@[j2])@ != name@,
            decreases l - j,
        {
            if str_eq(name.as_str(), existing[j].as_str()) {
                collides = true;
                hit = j;
            }
            j = j + 1;
        }
        let ghost ev = crate::props::seq_views(existing@);
        proof {
            if collides {
                assert(ev[hit as int] == name@);
                assert(ev.contains(spec_lifetime_name(c as nat)));
            } else {
                if ev.contains(spec_lifetime_name(c as nat)) {
                    let k = choose|k: int| 0 <= k < ev.len() && ev[k] == spec_lifetime_name(
                        c as nat,
                    );
                    assert(existing@[k]@ == name@);
                    assert(false);
                }
            }
        }
        if collides {
            proof {
                assert forall|k: int| 0 <= k < idxs.len() implies idxs[k] != hit as int by {
                    if idxs[k] == hit as int {
                        assert(spec_lifetime_name(cols[k] as nat) == spec_lifetime_name(c as nat));
                        lemma_lifetime_name_injective(cols[k] as nat, c as nat);
                    }
                }
                cols = cols.push(c as int);
                idxs = idxs.push(hit as int);
            }
        } else {
            proof {
                assert forall|i: int| 0 <= i < fresh@.len() implies (#[trigger] fresh@[i])@
                    != name@ by {
                    if fresh@[i]@ == name@ {
                        lemma_lifetime_name_injective(fcs[i] as nat, c as nat);
                    }
                }
                fcs = fcs.push(c as int);
            }
            let ghost prev_fresh = fresh@;
            fresh.push(name);
            proof {
                assert(crate::props::seq_views(fresh@) =~= crate::props::seq_views(prev_fresh)
                    + seq![name@]);
                assert((crate::props::seq_views(prev_fresh) + seq![name@]) + spec_fresh_scan(
                    ev,
                    (num_lifetimes - fresh@.len()) as nat,
                    (c + 1) as nat,
                    (bound - c) as nat,
                ) =~= crate::props::seq_views(prev_fresh) + (seq![name@] + spec_fresh_scan(
                    ev,
                    (num_lifetimes - fresh@.len()) as nat,
                    (c + 1) as nat,
                    (bound - c) as nat,
                )));
            }
        }
        c = c + 1;
    }
    proof {
        if fresh@.len() < num_lifetimes {
            assert(c == bound + 1);
            assert(cols.len() == c - fresh@.len());
            assert(cols.len() > l);
            assert(idxs.len() > l);
            idxs.unique_seq_to_set();
            vstd::seq_lib::seq_to_set_is_finite(idxs);
            let range = vstd::set_lib::set_int_range(0, l as int);
            vstd::set_lib::lemma_int_range(0, l as int);
            assert forall|x: int| idxs.to_set().contains(x) implies range.contains(x) by {
                assert(idxs.contains(x));
                let k = choose|k: int| 0 <= k < idxs.len() && idxs[k] == x;
                assert(0 <= idxs[k] < l);
            }
            assert(idxs.to_set().subset_of(range));
            vstd::set_lib::lemma_len_subset(idxs.to_set(), range);
            assert(false);
        }
    }
    proof {
        let ev = crate::props::seq_views(existing@);
        assert(spec_fresh_scan(ev, 0, c as nat, (bound + 1 - c) as nat) =~= Seq::<Seq<char>>::empty());
        assert(crate::props::seq_views(fresh@) + Seq::<Seq<char>>::empty() =~= crate::props::seq_views(
            fresh@,
        ));
        assert(crate::props::seq_views(fresh@) == spec_fresh_lifetimes(ev, num_lifetimes as nat));
    }
    proof {
        assert forall|i: int, j: int| 0 <= i < j < fresh@.len() implies (#[trigger] fresh@[i])@ != (
        #[trigger] fresh@[j])@ by {
            if fresh@[i]@ == fresh@[j]@ {
                lemma_lifetime_name_injective(fcs[i] as nat, fcs[j] as nat);
            }
        }
    }
    let mut lifetimes: Vec<String> = Vec::new();
    crate::props::push_all(&mut lifetimes, existing);
    crate::props::push_all(&mut lifetimes, &fresh);
    let mut type_params: Vec<String> = Vec::new();
    crate::props::push_all(&mut type_params, &generics.type_params);
    proof {
        assert(type_params@ =~= generics.type_params@);
    }
    let mut predicates: Vec<String> = Vec::new();
    crate::props::push_all(&mut predicates, &generics.predicates);
    crate::props::push_all(&mut predicates, extra_preds);
    proof {
        assert(lifetimes@ =~= generics.lifetimes@ + fresh@);
        assert(predicates@ =~= generics.predicates@ + extra_preds@);
    }
    let extended = Generics { lifetimes, type_params, predicates };
    (extended, fresh)
}

} // verus!
