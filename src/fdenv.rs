//! The environment that tells a guest workload about its file descriptors:
//! `FD_COUNT`, their number in decimal, and `FD_NAMES`, their names joined
//! by colons, in descriptor order.

use vstd::prelude::*;

verus! {

/// The decimal digits of `n`, most significant first.
pub open spec fn decimal(n: nat) -> Seq<u8>
    decreases n,
{
    if n < 10 {
        seq![(48 + n) as u8]
    } else {
        decimal(n / 10) + seq![(48 + n % 10) as u8]
    }
}

/// The names joined by `:`.
pub open spec fn joined(names: Seq<Seq<u8>>) -> Seq<u8>
    decreases names.len(),
{
    if names.len() == 0 {
        seq![]
    } else if names.len() == 1 {
        names[0]
    } else {
        joined(names.drop_last()) + seq![58u8] + names.last()
    }
}

/// Appends the decimal digits of `n` to `out`.
pub fn push_decimal(out: &mut Vec<u8>, n: u64)
    ensures
        final(out)@ == old(out)@ + decimal(n as nat),
    decreases n,
{
    if n >= 10 {
        push_decimal(out, n / 10);
    }
    out.push((48 + n % 10) as u8);
    assert(final(out)@ =~= old(out)@ + decimal(n as nat)) by {
        if n >= 10 {
            assert(decimal(n as nat) == decimal((n / 10) as nat) + seq![(48 + n % 10) as u8]);
        }
    }
}

/// The names of the descriptors, in order, joined by `:`.
pub fn join_names(names: &Vec<Vec<u8>>) -> (r: Vec<u8>)
    ensures
        r@ == joined(names@.map_values(|v: Vec<u8>| v@)),
{
    let ghost views = names@.map_values(|v: Vec<u8>| v@);
    let mut out: Vec<u8> = Vec::new();
    let mut i: usize = 0;
    while i < names.len()
        invariant
            i <= names@.len(),
            views == names@.map_values(|v: Vec<u8>| v@),
            out@ == joined(views.subrange(0, i as int)),
        decreases names@.len() - i,
    {
        let ghost before = out@;
        if i > 0 {
            out.push(58u8);
        }
        let name = &names[i];
        let mut k: usize = 0;
        while k < name.len()
            invariant
                k <= name@.len(),
                out@ == before + (if i > 0 {
                    seq![58u8]
                } else {
                    seq![]
                }) + name@.subrange(0, k as int),
            decreases name@.len() - k,
        {
            out.push(name[k]);
            k = k + 1;
            assert(out@ =~= before + (if i > 0 {
                seq![58u8]
            } else {
                seq![]
            }) + name@.subrange(0, k as int));
        }
        proof {
            let pre = views.subrange(0, i as int);
            let now = views.subrange(0, i + 1);
            assert(now.drop_last() =~= pre);
            assert(now.last() == name@);
            assert(name@.subrange(0, k as int) =~= name@);
            if i == 0 {
                assert(pre.len() == 0);
                assert(out@ =~= joined(now));
            } else {
                assert(out@ =~= joined(now));
            }
        }
        i = i + 1;
    }
    assert(views.subrange(0, i as int) =~= views);
    out
}

/// The two environment entries that describe the descriptors named `names`:
/// `FD_COUNT` and `FD_NAMES`, as (key, value) byte strings.
pub fn fd_environment(names: &Vec<Vec<u8>>) -> (r: Vec<(Vec<u8>, Vec<u8>)>)
    ensures
        r@.len() == 2,
        r@[0].0@ == seq![70u8, 68, 95, 67, 79, 85, 78, 84],
        r@[0].1@ == decimal(names@.len()),
        r@[1].0@ == seq![70u8, 68, 95, 78, 65, 77, 69, 83],
        r@[1].1@ == joined(names@.map_values(|v: Vec<u8>| v@)),
{
    let mut count: Vec<u8> = Vec::new();
    push_decimal(&mut count, names.len() as u64);
    assert(count@ =~= decimal(names@.len()));
    let count_key: Vec<u8> = vec![70u8, 68, 95, 67, 79, 85, 78, 84];
    let names_key: Vec<u8> = vec![70u8, 68, 95, 78, 65, 77, 69, 83];
    let joined_names = join_names(names);
    let mut r: Vec<(Vec<u8>, Vec<u8>)> = Vec::new();
    r.push((count_key, count));
    r.push((names_key, joined_names));
    assert(r@[0].0@ =~= seq![70u8, 68, 95, 67, 79, 85, 78, 84]);
    assert(r@[1].0@ =~= seq![70u8, 68, 95, 78, 65, 77, 69, 83]);
    r
}

} // verus!
