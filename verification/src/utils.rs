//! Partitioning of fallible results.

use vstd::prelude::*;

verus! {

/// The success payloads of a sequence of results, in order.
pub open spec fn spec_successes<S, E>(s: Seq<Result<S, E>>) -> Seq<S>
    decreases s.len(),
{
    if s.len() == 0 {
        Seq::empty()
    } else {
        let rest = spec_successes(s.drop_last());
        match s.last() {
            Ok(v) => rest.push(v),
            Err(_) => rest,
        }
    }
}

/// The error payloads of a sequence of results, in order.
pub open spec fn spec_failures<S, E>(s: Seq<Result<S, E>>) -> Seq<E>
    decreases s.len(),
{
    if s.len() == 0 {
        Seq::empty()
    } else {
        let rest = spec_failures(s.drop_last());
        match s.last() {
            Ok(_) => rest,
            Err(e) => rest.push(e),
        }
    }
}

/// Every result is either a success or a failure, so the two partitions
/// together hold exactly as many values as there were results.
pub proof fn lemma_split_partitions<S, E>(s: Seq<Result<S, E>>)
    ensures
        spec_successes(s).len() + spec_failures(s).len() == s.len(),
    decreases s.len(),
{
    if s.len() > 0 {
        lemma_split_partitions(s.drop_last());
    }
}

/// Finds the option a prompt's answer names: the first position whose
/// label equals the answer, if any.
pub fn index_of_name(options: &Vec<String>, selected: &String) -> (r: Option<usize>)
    ensures
        match r {
            Some(i) => i < options@.len() && options@[i as int]@ == selected@ && (forall|j: int|
                0 <= j < i ==> options@[j]@ != selected@),
            None => forall|j: int| 0 <= j < options@.len() ==> options@[j]@ != selected@,
        },
{
    let n = options.len();
    for i in 0..n
        invariant
            n == options@.len(),
            forall|j: int| 0 <= j < i ==> options@[j]@ != selected@,
    {
        if *selected == options[i] {
            return Some(i);
        }
    }
    None
}

/// Splits a list of results into the successes and the errors, each in
/// input order.
pub fn split_results<S, E>(vec_of_results: Vec<Result<S, E>>) -> (r: (Vec<S>, Vec<E>))
    ensures
        r.0@ == spec_successes(vec_of_results@),
        r.1@ == spec_failures(vec_of_results@),
{
    let ghost all = vec_of_results@;
    let mut successes: Vec<S> = Vec::new();
    let mut errors: Vec<E> = Vec::new();
    for result in it: vec_of_results
        invariant
            it.seq() == all,
            successes@ == spec_successes(all.take(it.index() as int)),
            errors@ == spec_failures(all.take(it.index() as int)),
    {
        proof {
            assert(all.take(it.index() + 1).drop_last() =~= all.take(it.index() as int));
            assert(all.take(it.index() + 1).last() == all[it.index() as int]);
        }
        match result {
            Ok(success) => successes.push(success),
            Err(error) => errors.push(error),
        }
    }
    proof {
        assert(all.take(all.len() as int) =~= all);
    }
    (successes, errors)
}

} // verus!
