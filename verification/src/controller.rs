//! Short-circuiting composition of fallible steps.
//!
//! A step takes a value and either hands an updated value to the next step
//! or stops the whole chain with the first error, the propagation style the
//! protocols are written in.

use vstd::prelude::*;

verus! {

/// What running `methods` in order from `input` can return: threading each
/// `Ok` into the next method, or stopping at the first `Err`.
pub open spec fn chain_result<A, E, F: Fn(A) -> Result<A, E>>(
    methods: Seq<F>,
    input: A,
    r: Result<A, E>,
) -> bool
    decreases methods.len(),
{
    if methods.len() == 0 {
        r == Ok::<A, E>(input)
    } else {
        ||| exists|mid: A|
            #![trigger call_ensures(methods[0], (input,), Ok(mid))]
            call_ensures(methods[0], (input,), Ok(mid)) && chain_result(
                methods.skip(1),
                mid,
                r,
            )
        ||| exists|e: E|
            #![trigger call_ensures(methods[0], (input,), Err(e))]
            call_ensures(methods[0], (input,), Err(e)) && r == Err::<A, E>(e)
    }
}

proof fn lemma_chain_cons_ok<A, E, F: Fn(A) -> Result<A, E>>(
    methods: Seq<F>,
    input: A,
    mid: A,
    r: Result<A, E>,
)
    requires
        methods.len() > 0,
        call_ensures(methods[0], (input,), Ok(mid)),
        chain_result(methods.skip(1), mid, r),
    ensures
        chain_result(methods, input, r),
{
}

proof fn lemma_chain_cons_err<A, E, F: Fn(A) -> Result<A, E>>(methods: Seq<F>, input: A, e: E)
    requires
        methods.len() > 0,
        call_ensures(methods[0], (input,), Err(e)),
    ensures
        chain_result(methods, input, Err::<A, E>(e)),
{
}

/// Runs `method` on `input` and, if it succeeds, `next` on its result.
pub fn step<A, E, F: Fn(A) -> Result<A, E>, G: Fn(A) -> Result<A, E>>(
    method: F,
    next: G,
    input: A,
) -> (r: Result<A, E>)
    requires
        call_requires(method, (input,)),
        forall|mid: A| call_ensures(method, (input,), Ok(mid)) ==> call_requires(next, (mid,)),
    ensures
        ({
            ||| exists|mid: A|
                call_ensures(method, (input,), Ok(mid)) && call_ensures(next, (mid,), r)
            ||| call_ensures(method, (input,), r) && r is Err
        }),
{
    match method(input) {
        Ok(a) => next(a),
        Err(e) => Err(e),
    }
}

/// Runs the last method of a chain.
pub fn end<A, E, F: Fn(A) -> Result<A, E>>(method: F, input: A) -> (r: Result<A, E>)
    requires
        call_requires(method, (input,)),
    ensures
        call_ensures(method, (input,), r),
{
    method(input)
}

/// Runs every method in order, threading each success into the next and
/// stopping at the first error.
pub fn cluster<A, E, F: Fn(A) -> Result<A, E> + Copy>(methods: Vec<F>, input: A) -> (r: Result<
    A,
    E,
>)
    requires
        methods@.len() >= 1,
        forall|i: int, a: A| 0 <= i < methods@.len() ==> #[trigger] call_requires(methods@[i], (a,)),
    ensures
        chain_result(methods@, input, r),
{
    let ghost all: Seq<F> = methods@;
    let mut acc = input;
    let mut i: usize = 0;
    proof {
        assert(all.skip(0) =~= all);
    }
    while i < methods.len()
        invariant
            i <= all.len(),
            all == methods@,
            forall|j: int, a: A| 0 <= j < all.len() ==> #[trigger] call_requires(all[j], (a,)),
            forall|r2: Result<A, E>|
                chain_result(all.skip(i as int), acc, r2) ==> #[trigger] chain_result(
                    all,
                    input,
                    r2,
                ),
        decreases all.len() - i,
    {
        let m = methods[i];
        let ghost acc0 = acc;
        proof {
            assert(all.skip(i as int)[0] == all[i as int]);
            assert(all.skip(i as int).skip(1) =~= all.skip(i as int + 1));
        }
        match m(acc) {
            Ok(a2) => {
                proof {
                    assert forall|r2: Result<A, E>|
                        chain_result(all.skip(i as int + 1), a2, r2) implies #[trigger] chain_result(
                        all,
                        input,
                        r2,
                    ) by {
                        assert(call_ensures(all.skip(i as int)[0], (acc0,), Ok(a2)));
                        assert(chain_result(all.skip(i as int).skip(1), a2, r2));
                        lemma_chain_cons_ok(all.skip(i as int), acc0, a2, r2);
                    }
                }
                acc = a2;
            },
            Err(e) => {
                proof {
                    assert(call_ensures(all.skip(i as int)[0], (acc0,), Err(e)));
                    lemma_chain_cons_err(all.skip(i as int), acc0, e);
                }
                return Err(e);
            },
        }
        i = i + 1;
    }
    proof {
        assert(all.skip(i as int) =~= Seq::<F>::empty());
        assert(chain_result(all.skip(i as int), acc, Ok::<A, E>(acc)));
    }
    Ok(acc)
}

} // verus!
