//! Lists as the format writes them: a count, and then that many items.
use vstd::prelude::*;
use crate::error::ErrorView;

verus! {

/// Reads `n` items one after the other with `read_one`, from the state `s`
/// of a reader, and appends them to `acc`.  The first failure ends the
/// reading and is the outcome.
pub open spec fn read_list<S, T>(
    s: S,
    n: int,
    read_one: spec_fn(S) -> (S, Result<T, ErrorView>),
    acc: Seq<T>,
) -> (S, Result<Seq<T>, ErrorView>)
    decreases n,
{
    if n <= 0 {
        (s, Ok(acc))
    } else {
        let (s1, r) = read_one(s);
        match r {
            Ok(item) => read_list(s1, n - 1, read_one, acc.push(item)),
            Err(e) => (s1, Err(e)),
        }
    }
}

/// A list that was read has as many items as its count says: reading `n`
/// items onto `acc` gives, where it succeeds, `n` items more than `acc` has,
/// and `acc` in front of them.
pub proof fn lemma_read_list_len<S, T>(
    s: S,
    n: int,
    read_one: spec_fn(S) -> (S, Result<T, ErrorView>),
    acc: Seq<T>,
)
    requires
        0 <= n,
    ensures
        read_list(s, n, read_one, acc).1 matches Ok(items) ==> items.len() == acc.len() + n
            && items.subrange(0, acc.len() as int) == acc,
    decreases n,
{
    if n > 0 {
        let (s1, r) = read_one(s);
        if let Ok(item) = r {
            lemma_read_list_len(s1, n - 1, read_one, acc.push(item));
            let items = read_list(s, n, read_one, acc).1;
            if let Ok(items) = items {
                assert(items.subrange(0, acc.len() as int) =~= items.subrange(
                    0,
                    acc.len() as int + 1,
                ).subrange(0, acc.len() as int));
                assert(acc.push(item).subrange(0, acc.len() as int) =~= acc);
            }
        }
    } else {
        assert(acc.subrange(0, acc.len() as int) =~= acc);
    }
}

/// Converts the items of `items` from the one at `done` on with `convert`,
/// in order, and appends the results to `acc`.  The first failure ends the
/// conversion and is the outcome.
pub open spec fn convert_all<T, U>(
    items: Seq<T>,
    convert: spec_fn(T) -> Result<U, ErrorView>,
    done: int,
    acc: Seq<U>,
) -> Result<Seq<U>, ErrorView>
    decreases items.len() - done,
{
    if done < 0 || done >= items.len() {
        Ok(acc)
    } else {
        match convert(items[done]) {
            Ok(item) => convert_all(items, convert, done + 1, acc.push(item)),
            Err(e) => Err(e),
        }
    }
}

/// Where every item converts, the outcome holds the conversion of each item
/// in its place; where one does not, the outcome is the failure of the
/// first that does not.
pub proof fn lemma_convert_all<T, U>(
    items: Seq<T>,
    convert: spec_fn(T) -> Result<U, ErrorView>,
    done: int,
    acc: Seq<U>,
)
    requires
        0 <= done <= items.len(),
        acc.len() == done,
    ensures
        match convert_all(items, convert, done, acc) {
            Ok(all) => {
                &&& all.len() == items.len()
                &&& all.subrange(0, done) == acc
                &&& forall|i: int| done <= i < items.len() ==> convert(items[i]) == Ok::<U, ErrorView>(all[i])
            },
            Err(e) => exists|i: int|
                {
                    &&& done <= i < items.len()
                    &&& #[trigger] convert(items[i]) == Err::<U, ErrorView>(e)
                    &&& forall|j: int| done <= j < i ==> (#[trigger] convert(items[j])) is Ok
                },
        },
    decreases items.len() - done,
{
    if done < items.len() {
        match convert(items[done]) {
            Ok(item) => {
                lemma_convert_all(items, convert, done + 1, acc.push(item));
                match convert_all(items, convert, done, acc) {
                    Ok(all) => {
                        assert(all.subrange(0, done) =~= all.subrange(0, done + 1).subrange(
                            0,
                            done,
                        ));
                        assert(acc.push(item).subrange(0, done) =~= acc);
                        assert(all.subrange(0, done + 1)[done] == item);
                    },
                    Err(e) => {
                        let i = choose|i: int|
                            {
                                &&& done + 1 <= i < items.len()
                                &&& #[trigger] convert(items[i]) == Err::<U, ErrorView>(e)
                                &&& forall|j: int|
                                    done + 1 <= j < i ==> (#[trigger] convert(items[j])) is Ok
                            };
                        assert(convert(items[i]) == Err::<U, ErrorView>(e));
                    },
                }
            },
            Err(e) => {
                assert(convert(items[done]) == Err::<U, ErrorView>(e));
            },
        }
    } else {
        assert(acc.subrange(0, done) =~= acc);
    }
}

} // verus!
