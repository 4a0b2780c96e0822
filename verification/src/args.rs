//! The launch argument collector: out of the process's argument vector, keep
//! the arguments after the zeroth that name an existing regular file, in
//! their original order.

use vstd::prelude::*;

verus! {

/// The arguments of `args` selected by the aligned mark sequence `keep`:
/// `args[i]` stays exactly when `keep[i]` is true, and the survivors keep
/// their relative order.
pub open spec fn selected(args: Seq<String>, keep: Seq<bool>) -> Seq<String>
    recommends
        keep.len() == args.len(),
    decreases args.len(),
{
    if args.len() == 0 {
        Seq::<String>::empty()
    } else {
        let rest = selected(args.drop_last(), keep.drop_last());
        if keep.len() == args.len() && keep.last() {
            rest.push(args.last())
        } else {
            rest
        }
    }
}

/// The argument vector without its zeroth (executable path) element.
pub open spec fn tail_of(args: Seq<String>) -> Seq<String> {
    if args.len() == 0 {
        Seq::<String>::empty()
    } else {
        args.skip(1)
    }
}

/// `m` maps each position of `out` to the position of `from` it was taken
/// from, strictly increasing: `out` is `from` with some elements removed.
pub open spec fn is_index_map(m: Seq<int>, out: Seq<String>, from: Seq<String>) -> bool {
    &&& m.len() == out.len()
    &&& forall|j: int| 0 <= j < m.len() ==> 0 <= #[trigger] m[j] < from.len() && out[j] == from[m[j]]
    &&& forall|j: int| 0 < j < m.len() ==> #[trigger] m[j - 1] < m[j]
}

/// `out` can be had from `from` by removing elements, keeping the order.
pub open spec fn is_subsequence_of(out: Seq<String>, from: Seq<String>) -> bool {
    exists|m: Seq<int>| is_index_map(m, out, from)
}

/// `out` is what some mark sequence aligned with `from` selects out of it.
pub open spec fn is_selection_of(out: Seq<String>, from: Seq<String>) -> bool {
    exists|keep: Seq<bool>| keep.len() == from.len() && out == #[trigger] selected(from, keep)
}

/// Keep exactly the arguments whose mark is true, in order.
pub fn filter_marked(args: &Vec<String>, keep: &Vec<bool>) -> (out: Vec<String>)
    requires
        args@.len() == keep@.len(),
    ensures
        out@ == selected(args@, keep@),
{
    let mut out: Vec<String> = Vec::new();
    let mut i: usize = 0;
    while i < args.len()
        invariant
            args@.len() == keep@.len(),
            i <= args@.len(),
            out@ == selected(args@.take(i as int), keep@.take(i as int)),
        decreases args@.len() - i,
    {
        if keep[i] {
            out.push(args[i].clone());
        }
        i = i + 1;
        proof {
            assert(args@.take(i as int).drop_last() =~= args@.take(i - 1));
            assert(keep@.take(i as int).drop_last() =~= keep@.take(i - 1));
        }
    }
    proof {
        assert(args@.take(args@.len() as int) =~= args@);
        assert(keep@.take(keep@.len() as int) =~= keep@);
    }
    out
}

/// Whatever the marks, a selection is a subsequence of what it was selected
/// from: each selected argument comes from a distinct source position, and
/// the source positions rise with the output positions, so the output keeps
/// the relative order of the input.
pub proof fn lemma_selected_is_subsequence(args: Seq<String>, keep: Seq<bool>)
    requires
        keep.len() == args.len(),
    ensures
        is_subsequence_of(selected(args, keep), args),
    decreases args.len(),
{
    if args.len() == 0 {
        let m = Seq::<int>::empty();
        assert(is_index_map(m, selected(args, keep), args));
    } else {
        lemma_selected_is_subsequence(args.drop_last(), keep.drop_last());
        let out0 = selected(args.drop_last(), keep.drop_last());
        let m0 = choose|m: Seq<int>| is_index_map(m, out0, args.drop_last());
        if keep.last() {
            let m = m0.push(args.len() - 1);
            assert forall|j: int| 0 <= j < m.len() implies 0 <= #[trigger] m[j] < args.len()
                && selected(args, keep)[j] == args[m[j]] by {
                if j < m0.len() {
                    assert(args.drop_last()[m0[j]] == args[m0[j]]);
                }
            }
            assert(is_index_map(m, selected(args, keep), args));
        } else {
            assert forall|j: int| 0 <= j < m0.len() implies 0 <= #[trigger] m0[j] < args.len()
                && selected(args, keep)[j] == args[m0[j]] by {
                assert(args.drop_last()[m0[j]] == args[m0[j]]);
            }
            assert(is_index_map(m0, selected(args, keep), args));
        }
    }
}

/// The zeroth (executable) argument never stands in the collected output:
/// every collected string was taken from a position of the argument vector
/// at or after one.
pub proof fn lemma_collected_excludes_zeroth(out: Seq<String>, args: Seq<String>)
    requires
        is_selection_of(out, tail_of(args)),
    ensures
        forall|j: int| 0 <= j < out.len()
            ==> exists|i: int| 1 <= i < args.len() && #[trigger] out[j] == args[i],
{
    lemma_collected_in_order(out, args);
    let m = choose|m: Seq<int>| is_index_map(m, out, tail_of(args));
    assert forall|j: int| 0 <= j < out.len()
        implies exists|i: int| 1 <= i < args.len() && #[trigger] out[j] == args[i] by {
        let i = m[j] + 1;
        assert(tail_of(args)[m[j]] == args[i]);
        assert(1 <= i < args.len() && out[j] == args[i]);
    }
}

/// The collected output keeps the relative order of the argument vector's
/// tail: it is a subsequence of the arguments after the zeroth.
pub proof fn lemma_collected_in_order(out: Seq<String>, args: Seq<String>)
    requires
        is_selection_of(out, tail_of(args)),
    ensures
        is_subsequence_of(out, tail_of(args)),
{
    let keep = choose|keep: Seq<bool>|
        keep.len() == tail_of(args).len() && out == #[trigger] selected(tail_of(args), keep);
    lemma_selected_is_subsequence(tail_of(args), keep);
}

/// Relies on std::path::Path::is_file: true exactly when a filesystem entry
/// exists at the path and is a regular file; a missing entry, a directory, or
/// a failed stat (for instance, permission denied) gives false. The answer
/// depends on the state of the disk, so no two calls are related and nothing
/// is promised of the result.
#[verifier::external_body]
fn path_is_regular_file(arg: &String) -> bool {
    std::path::Path::new(arg.as_str()).is_file()
}

/// Collect the launch file arguments: every argument after the zeroth that
/// named an existing regular file when it was examined, in original order.
/// Which arguments pass the filesystem test is up to the disk; whatever it
/// answered, the result is a mark-selection of the tail of `args`.
pub fn collect_file_args(args: &Vec<String>) -> (out: Vec<String>)
    ensures
        is_selection_of(out@, tail_of(args@)),
{
    let mut tail: Vec<String> = Vec::new();
    let mut keep: Vec<bool> = Vec::new();
    let mut i: usize = 1;
    while i < args.len()
        invariant
            1 <= i,
            args@.len() > 0 ==> i <= args@.len(),
            args@.len() == 0 ==> i == 1,
            keep@.len() == tail@.len(),
            tail@.len() == i - 1,
            args@.len() > 0 ==> tail@ == args@.subrange(1, i as int),
        decreases args@.len() - i,
    {
        keep.push(path_is_regular_file(&args[i]));
        tail.push(args[i].clone());
        i = i + 1;
        proof {
            assert(args@.subrange(1, i as int) =~= args@.subrange(1, i - 1).push(args@[i - 1]));
        }
    }
    proof {
        assert(tail@ =~= tail_of(args@));
    }
    let out = filter_marked(&tail, &keep);
    proof {
        assert(out@ == selected(tail_of(args@), keep@));
    }
    out
}

} // verus!
