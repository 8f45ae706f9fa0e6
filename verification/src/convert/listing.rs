//! Translating a list item by item, up to the first error.

use vstd::prelude::*;

verus! {

/// The results of `f` on each of `items`, or the first error among them.
pub open spec fn try_map<A, B, E>(items: Seq<A>, f: spec_fn(A) -> Result<B, E>) -> Result<
    Seq<B>,
    E,
>
    decreases items.len(),
{
    if items.len() == 0 {
        Ok(Seq::empty())
    } else {
        match try_map(items.drop_last(), f) {
            Err(e) => Err(e),
            Ok(done) => match f(items.last()) {
                Err(e) => Err(e),
                Ok(value) => Ok(done.push(value)),
            },
        }
    }
}

/// `try_map` succeeds where `f` does on every item, with the results in order;
/// it fails with the error of the first item on which `f` fails.
pub proof fn lemma_try_map<A, B, E>(items: Seq<A>, f: spec_fn(A) -> Result<B, E>)
    ensures
        match try_map(items, f) {
            Ok(all) => {
                &&& all.len() == items.len()
                &&& forall|i: int|
                    0 <= i < items.len() ==> f(#[trigger] items[i]) == Ok::<B, E>(all[i])
            },
            Err(e) => exists|i: int|
                {
                    &&& 0 <= i < items.len()
                    &&& f(#[trigger] items[i]) == Err::<B, E>(e)
                    &&& forall|j: int| 0 <= j < i ==> (#[trigger] f(items[j])) is Ok
                },
        },
    decreases items.len(),
{
    if items.len() > 0 {
        let front = items.drop_last();
        lemma_try_map(front, f);
        match try_map(front, f) {
            Err(e) => {
                let i = choose|i: int|
                    {
                        &&& 0 <= i < front.len()
                        &&& f(#[trigger] front[i]) == Err::<B, E>(e)
                        &&& forall|j: int| 0 <= j < i ==> (#[trigger] f(front[j])) is Ok
                    };
                assert(items[i] == front[i]);
                assert forall|j: int| 0 <= j < i implies (#[trigger] f(items[j])) is Ok by {
                    assert(items[j] == front[j]);
                }
            },
            Ok(done) => {
                assert forall|j: int| 0 <= j < front.len() implies (#[trigger] f(
                    items[j],
                )) is Ok by {
                    assert(items[j] == front[j]);
                }
                match f(items.last()) {
                    Err(e) => {
                        assert(items[items.len() - 1] == items.last());
                    },
                    Ok(value) => {
                        assert forall|i: int| 0 <= i < items.len() implies f(#[trigger] items[i])
                            == Ok::<B, E>(done.push(value)[i]) by {
                            if i < front.len() {
                                assert(items[i] == front[i]);
                            }
                        }
                    },
                }
            },
        }
    }
}

/// Where `try_map` fails on a prefix, it fails on the whole with the same error.
pub proof fn lemma_try_map_prefix_fails<A, B, E>(
    items: Seq<A>,
    f: spec_fn(A) -> Result<B, E>,
    n: int,
)
    requires
        0 <= n <= items.len(),
        try_map(items.take(n), f) is Err,
    ensures
        try_map(items, f) == try_map(items.take(n), f),
    decreases items.len() - n,
{
    if n == items.len() {
        assert(items.take(n) =~= items);
    } else {
        assert(items.take(n + 1).drop_last() =~= items.take(n));
        lemma_try_map_prefix_fails(items, f, n + 1);
    }
}

} // verus!
