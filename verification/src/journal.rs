//! The bounded journal of notices: the last eight lines, oldest first, kept
//! in a `heapless::Deque`.
//!
//! Verus does not look into the deque. What it holds has a name here, and
//! each method of the deque that the journal calls has a wrapper whose
//! contract says, over that name, what the method does. The contracts are
//! taken from the source of `heapless` and are believed, not proved.

use vstd::prelude::*;

verus! {

/// The number of lines that the journal keeps.
pub const JOURNAL_LINES: usize = 8;

/// `heapless::Deque`, a double-ended queue of at most `N` items that lives in
/// an array. Its fields are private, and nothing is said of them.
#[verifier::external_type_specification]
#[verifier::external_body]
#[verifier::reject_recursive_types(T)]
pub struct ExDeque<T, const N: usize>(heapless::Deque<T, N>);

/// `Deque::clone` returns a deque of the clones of the items. Nothing is said
/// of it here: it is declared so that a type which holds a deque can derive
/// `Clone`.
pub assume_specification<T, const N: usize>[ <heapless::Deque<T, N> as Clone>::clone ](
    deque: &heapless::Deque<T, N>,
) -> (copy: heapless::Deque<T, N>) where T: Clone
;

/// The lines that a deque of strings holds, from its front to its back.
pub uninterp spec fn lines_of(deque: heapless::Deque<String, 8>) -> Seq<Seq<char>>;

/// `Deque::default`, which is `Deque::new`, returns a deque that holds
/// nothing.
#[verifier::external_body]
pub(crate) fn empty_journal() -> (deque: heapless::Deque<String, 8>)
    ensures
        lines_of(deque) == Seq::<Seq<char>>::empty(),
{
    heapless::Deque::default()
}

/// `Deque::is_full` says whether the deque holds as many items as it can,
/// here eight.
#[verifier::external_body]
pub(crate) fn journal_is_full(deque: &heapless::Deque<String, 8>) -> (full: bool)
    ensures
        full == (lines_of(*deque).len() == JOURNAL_LINES),
{
    deque.is_full()
}

/// `Deque::pop_front` removes the item at the front and returns it; on an
/// empty deque it returns nothing and changes nothing.
#[verifier::external_body]
pub(crate) fn journal_pop_front(deque: &mut heapless::Deque<String, 8>) -> (front: Option<String>)
    ensures
        lines_of(*old(deque)).len() == 0 ==> front is None && lines_of(*final(deque)) == lines_of(
            *old(deque),
        ),
        lines_of(*old(deque)).len() > 0 ==> front is Some && front->Some_0@ == lines_of(
            *old(deque),
        )[0] && lines_of(*final(deque)) == lines_of(*old(deque)).skip(1),
{
    deque.pop_front()
}

/// `Deque::push_back` puts the item behind the last one. On a full deque it
/// changes nothing and hands the item back.
#[verifier::external_body]
pub(crate) fn journal_push_back(deque: &mut heapless::Deque<String, 8>, line: String) -> (pushed:
    Result<(), String>)
    ensures
        lines_of(*old(deque)).len() != JOURNAL_LINES ==> pushed is Ok && lines_of(*final(deque))
            == lines_of(*old(deque)).push(line@),
        lines_of(*old(deque)).len() == JOURNAL_LINES ==> pushed is Err && pushed->Err_0@ == line@
            && lines_of(*final(deque)) == lines_of(*old(deque)),
{
    deque.push_back(line)
}

/// `Deque::iter` walks the items from the front to the back. The lines it
/// meets are copied into a vector, in that order.
#[verifier::external_body]
pub(crate) fn journal_lines(deque: &heapless::Deque<String, 8>) -> (lines: Vec<String>)
    ensures
        lines@.len() == lines_of(*deque).len(),
        forall|i: int| 0 <= i < lines@.len() ==> (#[trigger] lines@[i])@ == lines_of(*deque)[i],
{
    deque.iter().cloned().collect()
}

} // verus!
